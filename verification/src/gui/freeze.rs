//! Freeze handling of the displayed scope frame.
//!
//! While freeze is on, the editor keeps showing the frame captured when
//! freezing began; turning freeze off resumes the live display.

use vstd::prelude::*;

use crate::scope::{SampleFrame, ScopeFrame};

verus! {

/// A scope frame as data: its channel count and samples.
pub type FrameModel = (usize, Seq<SampleFrame>);

/// The model of a scope frame.
pub open spec fn frame_model(frame: &ScopeFrame) -> FrameModel {
    (frame.channel_count, frame.samples@)
}

/// State of the freeze handling: the held frame, if any, and the most recent
/// live frame.
pub struct FreezeModel {
    /// Frame held while frozen.
    pub frozen: Option<FrameModel>,
    /// Most recent live frame.
    pub last_live: FrameModel,
}

/// Presenting a live frame: the live frame is remembered; when frozen, the
/// held frame is shown (holding the live frame first if none is held);
/// otherwise the held frame is dropped and the live frame is shown.
pub open spec fn spec_present(state: FreezeModel, live: FrameModel, freeze: bool) -> (FreezeModel, FrameModel) {
    if freeze {
        let held = match state.frozen {
            Some(frame) => frame,
            None => live,
        };
        (FreezeModel { frozen: Some(held), last_live: live }, held)
    } else {
        (FreezeModel { frozen: None, last_live: live }, live)
    }
}

/// After an editor action: when frozen, the last live frame is held again
/// if freeze just changed or nothing is held, provided it has samples; when
/// not frozen, nothing is held.
pub open spec fn spec_after_action(state: FreezeModel, freeze: bool, freeze_changed: bool) -> FreezeModel {
    if freeze {
        if (freeze_changed || state.frozen is None) && state.last_live.1.len() > 0 {
            FreezeModel { frozen: Some(state.last_live), ..state }
        } else {
            state
        }
    } else {
        FreezeModel { frozen: None, ..state }
    }
}

/// While freeze stays on, the display does not change, whatever live frames
/// arrive.
pub proof fn lemma_freeze_holds_display(state: FreezeModel, first: FrameModel, second: FrameModel)
    ensures
        spec_present(spec_present(state, first, true).0, second, true).1 == spec_present(
            state,
            first,
            true,
        ).1,
{
}

/// Turning freeze off resumes the live display and drops the held frame.
pub proof fn lemma_unfreeze_resumes_live(state: FreezeModel, live: FrameModel)
    ensures
        spec_present(state, live, false).1 == live,
        spec_present(state, live, false).0.frozen is None,
{
}

/// Freezing through the editor captures the frame on display: after the
/// freeze toggle turns on, the next presentation shows the last live frame
/// (when it has samples).
pub proof fn lemma_freeze_captures_current_window(state: FreezeModel, next_live: FrameModel)
    requires
        state.last_live.1.len() > 0,
    ensures
        spec_present(spec_after_action(state, true, true), next_live, true).1 == state.last_live,
{
}

/// Editor actions that leave freeze on and unchanged (a zoom or a grid
/// change while frozen) keep the held frame, so the display stays on the
/// frame that was frozen: after such an action the next presentation still
/// shows the frame held before it, whatever live frame arrives. Turning
/// freeze off through the editor drops the held frame.
pub proof fn lemma_action_while_frozen_keeps_held_frame(state: FreezeModel, held: FrameModel, next_live: FrameModel)
    requires
        state.frozen == Some(held),
    ensures
        spec_after_action(state, true, false) == state,
        spec_present(spec_after_action(state, true, false), next_live, true).1 == held,
        spec_after_action(state, false, true).frozen is None,
        spec_after_action(state, false, false).frozen is None,
{
}

/// Display-side runtime of the editor.
pub struct GuiRuntime {
    frozen_frame: Option<ScopeFrame>,
    last_live_frame: ScopeFrame,
}

impl View for GuiRuntime {
    type V = FreezeModel;

    closed spec fn view(&self) -> FreezeModel {
        FreezeModel {
            frozen: match self.frozen_frame {
                Some(frame) => Some(frame_model(&frame)),
                None => None,
            },
            last_live: frame_model(&self.last_live_frame),
        }
    }
}

impl GuiRuntime {
    /// A runtime with nothing held and an empty last live frame.
    pub fn new() -> (runtime: Self)
        ensures
            runtime@.frozen is None,
            runtime@.last_live.0 == 0,
            runtime@.last_live.1.len() == 0,
    {
        GuiRuntime { frozen_frame: None, last_live_frame: ScopeFrame::empty() }
    }

    /// Present one live frame and return the frame to display.
    pub fn present_frame(&mut self, live: ScopeFrame, freeze: bool) -> (shown: ScopeFrame)
        ensures
            (final(self)@, frame_model(&shown)) == spec_present(old(self)@, frame_model(&live), freeze),
    {
        self.last_live_frame = live.duplicate();
        if freeze {
            if self.frozen_frame.is_none() {
                self.frozen_frame = Some(live.duplicate());
            }
            match &self.frozen_frame {
                Some(frame) => frame.duplicate(),
                None => live,
            }
        } else {
            self.frozen_frame = None;
            live
        }
    }

    /// Update the held frame after an editor action.
    pub fn after_action(&mut self, freeze: bool, freeze_changed: bool)
        ensures
            final(self)@ == spec_after_action(old(self)@, freeze, freeze_changed),
    {
        if freeze {
            if (freeze_changed || self.frozen_frame.is_none()) && self.last_live_frame.sample_count() > 0 {
                self.frozen_frame = Some(self.last_live_frame.duplicate());
            }
        } else {
            self.frozen_frame = None;
        }
    }
}

} // verus!
