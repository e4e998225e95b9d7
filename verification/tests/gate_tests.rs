use madara_runtime::gate::{AuthoringHandler, ConsensusOnTimestampSet};
use madara_runtime::params::default_params;
use madara_runtime::sealing::SealingMode;

#[test]
fn default_mode_forwards_moment() {
    // Default sealing, gas price {price_in_strk: None, price_in_wei: 10},
    // step limit 1_000_000: the timestamp gate forwards the moment and the authoring
    // handler's slot check runs on it.
    let params = default_params();
    assert_eq!(params.l1_gas_price.price_in_strk, None);
    assert_eq!(params.l1_gas_price.price_in_wei, 10);
    assert_eq!(params.invoke_tx_max_n_steps, 1_000_000);

    let gate = ConsensusOnTimestampSet::new(SealingMode::Default);
    let mut handler = AuthoringHandler::new();
    gate.on_timestamp_set(&mut handler, 1_700_000_000_000);
    assert_eq!(handler.delivered_count(), 1);
    assert_eq!(handler.delivered_at(0), 1_700_000_000_000);
}

#[test]
fn instant_mode_suppresses() {
    // Instant sealing: the timestamp gate receives the moment, forwards nothing and
    // returns immediately; the authoring handler's state is unchanged.
    let gate = ConsensusOnTimestampSet::new(SealingMode::Instant);
    let mut handler = AuthoringHandler::new();
    gate.on_timestamp_set(&mut handler, 1_700_000_000_000);
    assert_eq!(handler.delivered_count(), 0);
}

#[test]
fn manual_mode_suppresses() {
    let gate = ConsensusOnTimestampSet::new(SealingMode::Manual);
    let mut handler = AuthoringHandler::new();
    gate.on_timestamp_set(&mut handler, 7);
    gate.on_timestamp_set(&mut handler, 8);
    assert_eq!(handler.delivered_count(), 0);
}

#[test]
fn pass_through_matches_direct_handler() {
    // Gated delivery in Default mode has the same observable effect as
    // calling the authoring handler directly.
    let gate = ConsensusOnTimestampSet::new(SealingMode::Default);
    let mut gated = AuthoringHandler::new();
    let mut direct = AuthoringHandler::new();
    gate.on_timestamp_set(&mut gated, 123_456);
    direct.on_timestamp_set(123_456);
    assert_eq!(gated.delivered_count(), direct.delivered_count());
    assert_eq!(gated.delivered_at(0), direct.delivered_at(0));
}

#[test]
fn pass_through_twice_matches_direct_twice() {
    // Invoking the timestamp gate twice with the same moment in Default mode has the
    // same cumulative effect as invoking the handler twice directly.
    let gate = ConsensusOnTimestampSet::new(SealingMode::Default);
    let mut gated = AuthoringHandler::new();
    let mut direct = AuthoringHandler::new();
    gate.on_timestamp_set(&mut gated, 55);
    gate.on_timestamp_set(&mut gated, 55);
    direct.on_timestamp_set(55);
    direct.on_timestamp_set(55);
    assert_eq!(gated.delivered_count(), 2);
    assert_eq!(direct.delivered_count(), 2);
    assert_eq!(gated.delivered_at(0), 55);
    assert_eq!(gated.delivered_at(1), 55);
}

#[test]
fn mode_read_stable_during_invocation() {
    // A mode read from another context before and after the invocation
    // observes exactly the mode the timestamp gate decided by: the snapshot is
    // immutable for the timestamp gate's lifetime.
    let gate = ConsensusOnTimestampSet::new(SealingMode::Instant);
    let before = gate.current_mode();
    let mut handler = AuthoringHandler::new();
    gate.on_timestamp_set(&mut handler, 1_700_000_000_000);
    let after = gate.current_mode();
    assert_eq!(before, SealingMode::Instant);
    assert_eq!(before, after);
    // The effect agrees with the observed mode: suppressed.
    assert_eq!(handler.delivered_count(), 0);
}

#[test]
fn override_predicate_matches_modes() {
    assert!(!SealingMode::Default.is_override());
    assert!(SealingMode::Manual.is_override());
    assert!(SealingMode::Instant.is_override());
}
