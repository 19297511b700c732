use zkvm_core::BranchPredictor;

#[test]
fn default_prediction_is_not_taken() {
    let p = BranchPredictor::new();
    assert!(!p.predict(0));
    assert!(!p.predict(0x1234));
    assert!(!p.predict(u32::MAX));
}

#[test]
fn saturation_from_an_unseen_address() {
    let mut p = BranchPredictor::new();
    let addr = 0x8000;
    // First update starts at the neutral counter 1; three taken outcomes
    // saturate at 3.
    p.update(addr, true);
    assert!(p.predict(addr));
    p.update(addr, true);
    p.update(addr, true);
    assert!(p.predict(addr));
    // One misprediction from 3 drops to 2: still predicted taken.
    p.update(addr, false);
    assert!(p.predict(addr));
    // A second consecutive misprediction drops to 1: flips to not-taken.
    p.update(addr, false);
    assert!(!p.predict(addr));
}

#[test]
fn counter_saturates_at_zero() {
    let mut p = BranchPredictor::new();
    let addr = 0x44;
    p.update(addr, false);
    p.update(addr, false);
    p.update(addr, false);
    assert!(!p.predict(addr));
    // Two taken outcomes from the floor flip the prediction.
    p.update(addr, true);
    assert!(!p.predict(addr));
    p.update(addr, true);
    assert!(p.predict(addr));
}

#[test]
fn addresses_are_tracked_independently() {
    let mut p = BranchPredictor::new();
    p.update(0x10, true);
    p.update(0x10, true);
    assert!(p.predict(0x10));
    assert!(!p.predict(0x14));
    p.update(0x14, false);
    assert!(p.predict(0x10));
    assert!(!p.predict(0x14));
}
