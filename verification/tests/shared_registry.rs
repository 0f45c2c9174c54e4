use xcope::shared_registry::{RoleClaims, SharedRegistry, SharedRole};

#[test]
fn processor_and_controller_created_in_turn_share_one_runtime() {
    let mut registry: SharedRegistry<&str> = SharedRegistry::new();
    assert_eq!(registry.claim_first_unclaimed(SharedRole::Processor), None);
    let first = registry.register("first", SharedRole::Processor);
    assert_eq!(first, 0);
    assert_eq!(registry.claim_first_unclaimed(SharedRole::Controller), Some(0));
    assert_eq!(*registry.handle(0), "first");
    assert_eq!(
        registry.claims_at(0),
        RoleClaims { processor_claimed: true, controller_claimed: true }
    );
}

#[test]
fn two_processors_never_share_one_runtime() {
    let mut registry: SharedRegistry<u32> = SharedRegistry::new();
    registry.register(10, SharedRole::Processor);
    assert_eq!(registry.claim_first_unclaimed(SharedRole::Processor), None);
    let second = registry.register(20, SharedRole::Processor);
    assert_eq!(second, 1);
    assert_eq!(registry.claim_first_unclaimed(SharedRole::Controller), Some(0));
    assert_eq!(registry.claim_first_unclaimed(SharedRole::Controller), Some(1));
    assert_eq!(registry.claim_first_unclaimed(SharedRole::Controller), None);
}

#[test]
fn released_claim_is_taken_again_first() {
    let mut registry: SharedRegistry<u32> = SharedRegistry::new();
    registry.register(1, SharedRole::Controller);
    registry.register(2, SharedRole::Controller);
    registry.release(0, SharedRole::Controller);
    assert_eq!(
        registry.claims_at(0),
        RoleClaims { processor_claimed: false, controller_claimed: false }
    );
    assert_eq!(registry.claim_first_unclaimed(SharedRole::Controller), Some(0));
}

#[test]
fn removed_runtime_is_forgotten() {
    let mut registry: SharedRegistry<u32> = SharedRegistry::new();
    registry.register(1, SharedRole::Processor);
    registry.register(2, SharedRole::Processor);
    assert_eq!(registry.remove(0), 1);
    assert_eq!(registry.len(), 1);
    assert_eq!(*registry.handle(0), 2);
    assert_eq!(registry.claim_first_unclaimed(SharedRole::Controller), Some(0));
}

#[test]
fn role_claims_helpers() {
    let fresh = RoleClaims::fresh(SharedRole::Controller);
    assert!(fresh.claimed(SharedRole::Controller));
    assert!(!fresh.claimed(SharedRole::Processor));
    let both = fresh.with(SharedRole::Processor, true);
    assert_eq!(both, RoleClaims { processor_claimed: true, controller_claimed: true });
}

#[test]
fn acquisition_pairs_then_separates() {
    let mut registry: SharedRegistry<&str> = SharedRegistry::new();
    let first = match registry.claim_first_unclaimed(SharedRole::Processor) {
        Some(index) => index,
        None => registry.register("a", SharedRole::Processor),
    };
    let second = match registry.claim_first_unclaimed(SharedRole::Controller) {
        Some(index) => index,
        None => registry.register("b", SharedRole::Controller),
    };
    let third = match registry.claim_first_unclaimed(SharedRole::Processor) {
        Some(index) => index,
        None => registry.register("c", SharedRole::Processor),
    };
    assert_eq!(first, second);
    assert_ne!(third, first);
    assert_eq!(*registry.handle(third), "c");
}
