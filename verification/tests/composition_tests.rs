use madara_runtime::bindings::{
    BindingSet, BoundValue, CompositionError, DelegateId, ModuleId, SlotId,
};
use madara_runtime::compose::compose_runtime;
use madara_runtime::params::{default_params, Felt, ResourcePrice};
use madara_runtime::sealing::SealingMode;

#[test]
fn default_params_values() {
    let p = default_params();
    assert_eq!(p.unsigned_priority, 1u64 << 20);
    assert_eq!(p.transaction_longevity, u64::MAX);
    assert_eq!(p.invoke_tx_max_n_steps, 1_000_000);
    assert_eq!(p.validate_max_n_steps, 1_000_000);
    assert_eq!(p.protocol_version, 0);
    // The chain identifier: the ASCII bytes of "MADARA" as a felt.
    assert_eq!(p.chain_id, Felt::new(0, 0x4d4144415241));
    assert_eq!(p.max_recursion_depth, 50);
    assert_eq!(
        p.program_hash,
        Felt::new(
            0x41fc2a467ef8649580631912517edca,
            0xb7674173f1dbfa2e9b64fbcd82bc4d79,
        )
    );
    assert_eq!(
        p.l1_gas_price,
        ResourcePrice { price_in_strk: None, price_in_wei: 10 }
    );
    assert!(!p.disable_transaction_fee);
    assert!(!p.disable_nonce_validation);
    assert_eq!(p.max_authorities, 32);
    assert!(!p.allow_multiple_blocks_per_slot);
    assert_eq!(p.max_set_id_session_entries, 0);
    assert_eq!(p.max_nominators, 1000);
    assert_eq!(p.slot_duration_ms, 6000);
    // The minimum inter-block period is half the slot duration.
    assert_eq!(p.minimum_period_ms, p.slot_duration_ms / 2);
    assert_eq!(p.max_consumers, 16);
}

#[test]
fn compose_succeeds_and_registers_gate() {
    let p = default_params();
    let composed = compose_runtime(&p, SealingMode::Default).unwrap();
    assert_eq!(composed.gate.mode, SealingMode::Default);
    // The consensus timestamp gate is bound as the timestamp module's
    // timestamp-set callback.
    let callback = composed.resolve(ModuleId::Timestamp, SlotId::OnTimestampSet);
    assert_eq!(callback, Some(BoundValue::Delegated(DelegateId::ConsensusGate)));
    // The composed binding set passes validation.
    assert!(composed.bindings.validate().is_ok());
}

#[test]
fn compose_resolves_execution_engine_params() {
    let p = default_params();
    let composed = compose_runtime(&p, SealingMode::Default).unwrap();
    let r = |m, s| composed.resolve(m, s);
    assert_eq!(
        r(ModuleId::Starknet, SlotId::ChainId),
        Some(BoundValue::FieldElement(Felt::new(0, 0x4d4144415241)))
    );
    assert_eq!(
        r(ModuleId::Starknet, SlotId::L1GasPrice),
        Some(BoundValue::GasPrice(ResourcePrice { price_in_strk: None, price_in_wei: 10 }))
    );
    assert_eq!(
        r(ModuleId::Starknet, SlotId::UnsignedPriority),
        Some(BoundValue::Word64(1u64 << 20))
    );
    assert_eq!(
        r(ModuleId::Starknet, SlotId::TransactionLongevity),
        Some(BoundValue::Word64(u64::MAX))
    );
    assert_eq!(
        r(ModuleId::Starknet, SlotId::InvokeTxMaxNSteps),
        Some(BoundValue::Word32(1_000_000))
    );
    assert_eq!(
        r(ModuleId::Starknet, SlotId::ValidateMaxNSteps),
        Some(BoundValue::Word32(1_000_000))
    );
    assert_eq!(r(ModuleId::Starknet, SlotId::ProtocolVersion), Some(BoundValue::Byte(0)));
    assert_eq!(r(ModuleId::Starknet, SlotId::MaxRecursionDepth), Some(BoundValue::Word32(50)));
    assert_eq!(
        r(ModuleId::Starknet, SlotId::DisableTransactionFee),
        Some(BoundValue::Flag(false))
    );
    assert_eq!(
        r(ModuleId::Starknet, SlotId::DisableNonceValidation),
        Some(BoundValue::Flag(false))
    );
}

#[test]
fn compose_resolves_consensus_params() {
    let p = default_params();
    let composed = compose_runtime(&p, SealingMode::Manual).unwrap();
    assert_eq!(composed.gate.mode, SealingMode::Manual);
    let r = |m, s| composed.resolve(m, s);
    assert_eq!(r(ModuleId::Aura, SlotId::MaxAuthorities), Some(BoundValue::Word32(32)));
    assert_eq!(r(ModuleId::Grandpa, SlotId::MaxAuthorities), Some(BoundValue::Word32(32)));
    assert_eq!(r(ModuleId::Aura, SlotId::AllowMultipleBlocksPerSlot), Some(BoundValue::Flag(false)));
    assert_eq!(r(ModuleId::Grandpa, SlotId::MaxSetIdSessionEntries), Some(BoundValue::Word64(0)));
    assert_eq!(r(ModuleId::Grandpa, SlotId::MaxNominators), Some(BoundValue::Word32(1000)));
    assert_eq!(
        r(ModuleId::Grandpa, SlotId::KeyOwnerProof),
        Some(BoundValue::Delegated(DelegateId::VoidProof))
    );
    assert_eq!(r(ModuleId::Timestamp, SlotId::MinimumPeriod), Some(BoundValue::Word64(3000)));
    assert_eq!(
        r(ModuleId::Timestamp, SlotId::Moment),
        Some(BoundValue::Delegated(DelegateId::MillisecondClock))
    );
    assert_eq!(r(ModuleId::System, SlotId::MaxConsumers), Some(BoundValue::Word32(16)));
    assert_eq!(
        r(ModuleId::System, SlotId::Hashing),
        Some(BoundValue::Delegated(DelegateId::BlakeTwoHashing))
    );
    assert_eq!(
        r(ModuleId::System, SlotId::Lookup),
        Some(BoundValue::Delegated(DelegateId::AccountIdLookup))
    );
    assert_eq!(r(ModuleId::System, SlotId::OnNewAccount), Some(BoundValue::NoOp));
}

#[test]
fn composition_binds_each_slot_exactly_once() {
    // Every declared name resolves to exactly one value: no duplicate or
    // missing bindings in the composed set.
    let p = default_params();
    let composed = compose_runtime(&p, SealingMode::Default).unwrap();
    let n = composed.bindings.len();
    assert_eq!(n, 51);
    let count = |module, slot| {
        let mut c = 0;
        for i in 0..n {
            let b = composed.bindings.entry_at(i);
            if b.module == module && b.slot == slot {
                c += 1;
            }
        }
        c
    };
    assert_eq!(count(ModuleId::Starknet, SlotId::ChainId), 1);
    assert_eq!(count(ModuleId::Aura, SlotId::MaxAuthorities), 1);
    assert_eq!(count(ModuleId::Grandpa, SlotId::MaxAuthorities), 1);
    assert_eq!(count(ModuleId::Grandpa, SlotId::RuntimeEvent), 1);
    assert_eq!(count(ModuleId::System, SlotId::RuntimeEvent), 1);
    assert_eq!(count(ModuleId::Timestamp, SlotId::OnTimestampSet), 1);
    // An undeclared pairing never appears.
    assert_eq!(count(ModuleId::Aura, SlotId::ChainId), 0);
}

#[test]
fn bind_rejects_undeclared_slot() {
    let mut bs = BindingSet::new();
    let r = bs.bind(ModuleId::Aura, SlotId::ChainId, BoundValue::Word32(1));
    assert_eq!(
        r,
        Err(CompositionError::SlotNotDeclared { module: ModuleId::Aura, slot: SlotId::ChainId })
    );
    assert_eq!(bs.len(), 0);
}

#[test]
fn bind_rejects_rebinding() {
    // Rebinding an already-bound slot is a conflict, not a silent
    // overwrite.
    let mut bs = BindingSet::new();
    let first = bs.bind(ModuleId::Starknet, SlotId::MaxRecursionDepth, BoundValue::Word32(50));
    assert_eq!(first, Ok(()));
    let second = bs.bind(ModuleId::Starknet, SlotId::MaxRecursionDepth, BoundValue::Word32(60));
    assert_eq!(
        second,
        Err(CompositionError::SlotAlreadyBound {
            module: ModuleId::Starknet,
            slot: SlotId::MaxRecursionDepth,
        })
    );
    // The original binding is untouched.
    assert_eq!(
        bs.resolve(ModuleId::Starknet, SlotId::MaxRecursionDepth),
        Some(BoundValue::Word32(50))
    );
}

#[test]
fn resolve_missing_returns_none() {
    let bs = BindingSet::new();
    assert_eq!(bs.resolve(ModuleId::System, SlotId::Hash), None);
}

#[test]
fn validate_reports_missing_slot() {
    let bs = BindingSet::new();
    let r = bs.validate();
    assert!(matches!(r, Err(CompositionError::SlotMissing { .. })));
}

#[test]
fn validate_rejects_wrong_kind() {
    // A slot bound at the wrong kind is a fatal composition error.
    let mut bs = BindingSet::new();
    let bound = bs.bind(ModuleId::System, SlotId::BaseCallFilter, BoundValue::Word32(7));
    assert_eq!(bound, Ok(()));
    let r = bs.validate();
    assert!(r.is_err());
}

#[test]
fn felt_holds_its_limbs() {
    let f = Felt::new(1, 2);
    assert_eq!(f.hi, 1);
    assert_eq!(f.lo, 2);
}
