use xcope::bus::{
    bus_count, is_supported_bus_arrangement, ArrangementOutcome, BusChannelLayout,
    BusConfiguration, BusDirection, SPEAKER_ARR_MONO, SPEAKER_ARR_STEREO,
};

/// 3.1 cinema arrangement (left, right, center, LFE, surround).
const SPEAKER_ARR_31_CINE: u64 = 0x10F;

fn check_arrangement_support() {
    assert!(is_supported_bus_arrangement(SPEAKER_ARR_MONO));
    assert!(is_supported_bus_arrangement(SPEAKER_ARR_STEREO));
    assert!(!is_supported_bus_arrangement(SPEAKER_ARR_31_CINE));
}

fn check_channel_counts() {
    assert_eq!(
        BusChannelLayout::from_arrangement(SPEAKER_ARR_MONO)
            .expect("mono arrangement should map to channel layout")
            .channel_count(),
        1
    );
    assert_eq!(
        BusChannelLayout::from_arrangement(SPEAKER_ARR_STEREO)
            .expect("stereo arrangement should map to channel layout")
            .channel_count(),
        2
    );
}

fn check_default_configuration() {
    let config = BusConfiguration::default();
    assert_eq!(config.output_layout(), BusChannelLayout::Stereo);
    assert_eq!(config.input_layout(0), BusChannelLayout::Stereo);
    assert_eq!(config.input_layout(1), BusChannelLayout::Stereo);
    assert_eq!(config.input_active_mask(), 1);
}

#[test]
fn vst3_bus_arrangement_support_is_stereo_or_mono_only() {
    check_arrangement_support();
}

#[test]
fn tests_bus_arrangement_support_is_stereo_or_mono_only() {
    check_arrangement_support();
}

#[test]
fn vst3_arrangement_channel_count_tracks_supported_layout() {
    check_channel_counts();
}

#[test]
fn tests_arrangement_channel_count_tracks_supported_layout() {
    check_channel_counts();
}

#[test]
fn vst3_default_bus_configuration_enables_only_main_input() {
    check_default_configuration();
}

#[test]
fn tests_default_bus_configuration_enables_only_main_input() {
    check_default_configuration();
}

#[test]
fn layout_codes_roundtrip() {
    for layout in [BusChannelLayout::Mono, BusChannelLayout::Stereo] {
        assert_eq!(BusChannelLayout::from_code(layout.to_code()), layout);
        assert_eq!(BusChannelLayout::from_arrangement(layout.to_arrangement()), Some(layout));
    }
    assert_eq!(BusChannelLayout::from_code(7), BusChannelLayout::Stereo);
}

#[test]
fn bus_arrangement_requests() {
    let mut config = BusConfiguration::default();
    let mono = [SPEAKER_ARR_MONO];
    assert_eq!(config.set_bus_arrangements(1, 1, Some(&mono), Some(SPEAKER_ARR_MONO)), ArrangementOutcome::Accepted);
    assert_eq!(config.output_layout(), BusChannelLayout::Mono);
    assert_eq!(config.input_layout(0), BusChannelLayout::Mono);
    assert_eq!(config.input_layout(1), BusChannelLayout::Stereo);
    assert_eq!(config.input_active_mask(), 1);

    let pair = [SPEAKER_ARR_STEREO, SPEAKER_ARR_MONO];
    assert_eq!(config.set_bus_arrangements(2, 1, Some(&pair), Some(SPEAKER_ARR_STEREO)), ArrangementOutcome::Accepted);
    assert_eq!(config.input_layout(1), BusChannelLayout::Mono);
    assert_eq!(config.input_active_mask(), 3);

    assert_eq!(config.set_bus_arrangements(3, 1, None, None), ArrangementOutcome::Rejected);
    assert_eq!(config.set_bus_arrangements(0, 1, None, None), ArrangementOutcome::Rejected);
    assert_eq!(config.set_bus_arrangements(1, 2, None, None), ArrangementOutcome::Rejected);
    assert_eq!(config.set_bus_arrangements(1, 1, None, Some(SPEAKER_ARR_MONO)), ArrangementOutcome::InvalidArgument);
    assert_eq!(config.set_bus_arrangements(1, 1, Some(&mono), Some(SPEAKER_ARR_STEREO)), ArrangementOutcome::Rejected);
    let bad_side = [SPEAKER_ARR_STEREO, SPEAKER_ARR_31_CINE];
    assert_eq!(config.set_bus_arrangements(2, 1, Some(&bad_side), Some(SPEAKER_ARR_STEREO)), ArrangementOutcome::Rejected);
    assert_eq!(config.input_layout(1), BusChannelLayout::Mono);
    assert_eq!(config.input_active_mask(), 3);
}

#[test]
fn bus_activation_and_descriptions() {
    let mut config = BusConfiguration::default();
    assert!(config.activate_bus(BusDirection::Input, 1, true));
    assert_eq!(config.input_active_mask(), 3);
    assert!(config.activate_bus(BusDirection::Input, 0, false));
    assert_eq!(config.input_active_mask(), 2);
    assert!(!config.activate_bus(BusDirection::Input, 2, true));
    assert!(!config.activate_bus(BusDirection::Input, -1, true));
    assert!(config.activate_bus(BusDirection::Output, 0, true));
    assert!(!config.activate_bus(BusDirection::Output, 1, true));

    let side = config.bus_info(BusDirection::Input, 1).expect("sidechain exists");
    assert_eq!(side.name, "Sidechain Input");
    assert!(!side.is_main && !side.default_active);
    assert_eq!(side.channel_count, 2);
    let out = config.bus_info(BusDirection::Output, 0).expect("output exists");
    assert_eq!(out.name, "Output");
    assert!(config.bus_info(BusDirection::Output, 1).is_none());
    assert_eq!(config.bus_arrangement(BusDirection::Input, 0), Some(SPEAKER_ARR_STEREO));
    assert_eq!(config.bus_arrangement(BusDirection::Input, 5), None);
    assert_eq!(bus_count(BusDirection::Input), 2);
    assert_eq!(bus_count(BusDirection::Output), 1);
}
