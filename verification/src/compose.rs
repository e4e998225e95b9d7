//! Composition of the runtime.
//!
//! The builder below performs the whole binding script: for each
//! collaborator module it binds every declared capability slot to its
//! value — a constant drawn from the parameter table, a delegation to a
//! named implementation, or a no-op — then validates the accumulated set
//! and produces the immutable composed runtime, with the consensus
//! timestamp gate registered as the timestamp module's callback. Any
//! missing, duplicate or ill-kinded binding would surface as a
//! [`CompositionError`] before the runtime becomes operational; for this
//! runtime's binding script none does, and composition always succeeds.

use vstd::prelude::*;

use crate::bindings::{
    declares, kind_of, lemma_value_at, slot_kind, Binding, BindingSet, BoundValue,
    CompositionError, DelegateId, ModuleId, SlotId,
};
use crate::gate::{gate_effect, AuthoringHandler, ConsensusOnTimestampSet};
use crate::params::Params;
use crate::sealing::SealingMode;

verus! {

/// The binding script of this runtime: which value fills each declared
/// capability slot, as a function of the parameter table.
pub open spec fn spec_default_bindings(p: Params) -> Seq<Binding> {
    seq![
        (Binding {
            module: ModuleId::System,
            slot: SlotId::BaseCallFilter,
            value: BoundValue::Delegated(DelegateId::EverythingFilter),
        }),
        (Binding {
            module: ModuleId::System,
            slot: SlotId::BlockWeights,
            value: BoundValue::Delegated(DelegateId::HostRuntime),
        }),
        (Binding {
            module: ModuleId::System,
            slot: SlotId::BlockLength,
            value: BoundValue::Delegated(DelegateId::HostRuntime),
        }),
        (Binding {
            module: ModuleId::System,
            slot: SlotId::AccountId,
            value: BoundValue::Delegated(DelegateId::HostRuntime),
        }),
        (Binding {
            module: ModuleId::System,
            slot: SlotId::RuntimeCall,
            value: BoundValue::Delegated(DelegateId::HostRuntime),
        }),
        (Binding {
            module: ModuleId::System,
            slot: SlotId::Lookup,
            value: BoundValue::Delegated(DelegateId::AccountIdLookup),
        }),
        (Binding {
            module: ModuleId::System,
            slot: SlotId::Nonce,
            value: BoundValue::Delegated(DelegateId::HostRuntime),
        }),
        (Binding {
            module: ModuleId::System,
            slot: SlotId::Hash,
            value: BoundValue::Delegated(DelegateId::HostRuntime),
        }),
        (Binding {
            module: ModuleId::System,
            slot: SlotId::Hashing,
            value: BoundValue::Delegated(DelegateId::BlakeTwoHashing),
        }),
        (Binding {
            module: ModuleId::System,
            slot: SlotId::Block,
            value: BoundValue::Delegated(DelegateId::HostRuntime),
        }),
        (Binding {
            module: ModuleId::System,
            slot: SlotId::RuntimeEvent,
            value: BoundValue::Delegated(DelegateId::HostRuntime),
        }),
        (Binding {
            module: ModuleId::System,
            slot: SlotId::RuntimeOrigin,
            value: BoundValue::Delegated(DelegateId::HostRuntime),
        }),
        (Binding {
            module: ModuleId::System,
            slot: SlotId::BlockHashCount,
            value: BoundValue::Delegated(DelegateId::HostRuntime),
        }),
        (Binding {
            module: ModuleId::System,
            slot: SlotId::DbWeight,
            value: BoundValue::Delegated(DelegateId::RocksDbWeights),
        }),
        (Binding {
            module: ModuleId::System,
            slot: SlotId::Version,
            value: BoundValue::Delegated(DelegateId::HostRuntime),
        }),
        (Binding {
            module: ModuleId::System,
            slot: SlotId::PalletInfo,
            value: BoundValue::Delegated(DelegateId::HostRuntime),
        }),
        (Binding {
            module: ModuleId::System,
            slot: SlotId::OnNewAccount,
            value: BoundValue::NoOp,
        }),
        (Binding {
            module: ModuleId::System,
            slot: SlotId::OnKilledAccount,
            value: BoundValue::NoOp,
        }),
        (Binding {
            module: ModuleId::System,
            slot: SlotId::AccountData,
            value: BoundValue::NoOp,
        }),
        (Binding {
            module: ModuleId::System,
            slot: SlotId::SystemWeightInfo,
            value: BoundValue::NoOp,
        }),
        (Binding {
            module: ModuleId::System,
            slot: SlotId::SS58Prefix,
            value: BoundValue::Delegated(DelegateId::HostRuntime),
        }),
        (Binding {
            module: ModuleId::System,
            slot: SlotId::OnSetCode,
            value: BoundValue::NoOp,
        }),
        (Binding {
            module: ModuleId::System,
            slot: SlotId::MaxConsumers,
            value: BoundValue::Word32(p.max_consumers),
        }),
        (Binding {
            module: ModuleId::Aura,
            slot: SlotId::AuthorityId,
            value: BoundValue::Delegated(DelegateId::AuraAuthorityId),
        }),
        (Binding {
            module: ModuleId::Aura,
            slot: SlotId::DisabledValidators,
            value: BoundValue::NoOp,
        }),
        (Binding {
            module: ModuleId::Aura,
            slot: SlotId::MaxAuthorities,
            value: BoundValue::Word32(p.max_authorities),
        }),
        (Binding {
            module: ModuleId::Aura,
            slot: SlotId::AllowMultipleBlocksPerSlot,
            value: BoundValue::Flag(p.allow_multiple_blocks_per_slot),
        }),
        (Binding {
            module: ModuleId::Grandpa,
            slot: SlotId::RuntimeEvent,
            value: BoundValue::Delegated(DelegateId::HostRuntime),
        }),
        (Binding {
            module: ModuleId::Grandpa,
            slot: SlotId::WeightInfo,
            value: BoundValue::NoOp,
        }),
        (Binding {
            module: ModuleId::Grandpa,
            slot: SlotId::MaxAuthorities,
            value: BoundValue::Word32(p.max_authorities),
        }),
        (Binding {
            module: ModuleId::Grandpa,
            slot: SlotId::MaxSetIdSessionEntries,
            value: BoundValue::Word64(p.max_set_id_session_entries),
        }),
        (Binding {
            module: ModuleId::Grandpa,
            slot: SlotId::MaxNominators,
            value: BoundValue::Word32(p.max_nominators),
        }),
        (Binding {
            module: ModuleId::Grandpa,
            slot: SlotId::KeyOwnerProof,
            value: BoundValue::Delegated(DelegateId::VoidProof),
        }),
        (Binding {
            module: ModuleId::Grandpa,
            slot: SlotId::EquivocationReportSystem,
            value: BoundValue::NoOp,
        }),
        (Binding {
            module: ModuleId::Timestamp,
            slot: SlotId::Moment,
            value: BoundValue::Delegated(DelegateId::MillisecondClock),
        }),
        (Binding {
            module: ModuleId::Timestamp,
            slot: SlotId::OnTimestampSet,
            value: BoundValue::Delegated(DelegateId::ConsensusGate),
        }),
        (Binding {
            module: ModuleId::Timestamp,
            slot: SlotId::MinimumPeriod,
            value: BoundValue::Word64(p.minimum_period_ms),
        }),
        (Binding {
            module: ModuleId::Timestamp,
            slot: SlotId::WeightInfo,
            value: BoundValue::NoOp,
        }),
        (Binding {
            module: ModuleId::Starknet,
            slot: SlotId::SystemHash,
            value: BoundValue::Delegated(DelegateId::StarknetHashing),
        }),
        (Binding {
            module: ModuleId::Starknet,
            slot: SlotId::TimestampProvider,
            value: BoundValue::Delegated(DelegateId::TimestampPallet),
        }),
        (Binding {
            module: ModuleId::Starknet,
            slot: SlotId::UnsignedPriority,
            value: BoundValue::Word64(p.unsigned_priority),
        }),
        (Binding {
            module: ModuleId::Starknet,
            slot: SlotId::TransactionLongevity,
            value: BoundValue::Word64(p.transaction_longevity),
        }),
        (Binding {
            module: ModuleId::Starknet,
            slot: SlotId::DisableTransactionFee,
            value: BoundValue::Flag(p.disable_transaction_fee),
        }),
        (Binding {
            module: ModuleId::Starknet,
            slot: SlotId::DisableNonceValidation,
            value: BoundValue::Flag(p.disable_nonce_validation),
        }),
        (Binding {
            module: ModuleId::Starknet,
            slot: SlotId::InvokeTxMaxNSteps,
            value: BoundValue::Word32(p.invoke_tx_max_n_steps),
        }),
        (Binding {
            module: ModuleId::Starknet,
            slot: SlotId::ValidateMaxNSteps,
            value: BoundValue::Word32(p.validate_max_n_steps),
        }),
        (Binding {
            module: ModuleId::Starknet,
            slot: SlotId::ProtocolVersion,
            value: BoundValue::Byte(p.protocol_version),
        }),
        (Binding {
            module: ModuleId::Starknet,
            slot: SlotId::ChainId,
            value: BoundValue::FieldElement(p.chain_id),
        }),
        (Binding {
            module: ModuleId::Starknet,
            slot: SlotId::MaxRecursionDepth,
            value: BoundValue::Word32(p.max_recursion_depth),
        }),
        (Binding {
            module: ModuleId::Starknet,
            slot: SlotId::ProgramHash,
            value: BoundValue::FieldElement(p.program_hash),
        }),
        (Binding {
            module: ModuleId::Starknet,
            slot: SlotId::L1GasPrice,
            value: BoundValue::GasPrice(p.l1_gas_price),
        })
    ]
}

/// The composed runtime: the parameter table, the validated capability
/// bindings of every collaborator module, and the consensus timestamp
/// gate. Write-once at composition time, read-only thereafter.
pub struct ComposedRuntime {
    /// The parameter table the bindings were drawn from.
    pub params: Params,
    /// The capability bindings, fully bound and validated.
    pub bindings: BindingSet,
    /// The timestamp gate registered as the timestamp-set callback.
    pub gate: ConsensusOnTimestampSet,
}

impl ComposedRuntime {
    /// A composed runtime is well-formed when its parameter table holds
    /// its invariant and its binding set is well-formed and fully bound.
    pub open spec fn wf(self) -> bool {
        &&& self.params.wf()
        &&& self.bindings.wf()
        &&& self.bindings.fully_bound()
    }

    /// Read a capability binding of the composed runtime. Every declared
    /// slot resolves.
    pub fn resolve(&self, module: ModuleId, slot: SlotId) -> (r: Option<BoundValue>)
        requires
            self.wf(),
        ensures
            r is Some <==> self.bindings.spec_has(module, slot),
            r matches Some(v) ==> v == self.bindings.spec_value_of(module, slot),
            declares(module, slot) ==> r is Some,
    {
        self.bindings.resolve(module, slot)
    }

    /// The timestamp-set callback of the composed runtime: the consensus
    /// timestamp gate, applied to the authoring module's handler.
    pub fn on_timestamp_set(&self, handler: &mut AuthoringHandler, moment: u64)
        ensures
            final(handler)@ == gate_effect(self.gate.mode, old(handler)@, moment),
    {
        self.gate.on_timestamp_set(handler, moment)
    }
}

/// The default binding script satisfies every declared capability slot
/// at the kind the slot expects.
proof fn lemma_default_bindings_fully_bound(bs: BindingSet, p: Params)
    requires
        bs.wf(),
        bs@ == spec_default_bindings(p),
    ensures
        bs.fully_bound(),
{
    assert forall|module: ModuleId, slot: SlotId| #[trigger]
        declares(module, slot) implies bs.spec_has(module, slot) && kind_of(
        bs.spec_value_of(module, slot),
    ) == slot_kind(slot) by {
        match slot {
            SlotId::BaseCallFilter => {
                assert(bs@[0].module == module && bs@[0].slot == slot);
                lemma_value_at(bs, 0);
            },
            SlotId::BlockWeights => {
                assert(bs@[1].module == module && bs@[1].slot == slot);
                lemma_value_at(bs, 1);
            },
            SlotId::BlockLength => {
                assert(bs@[2].module == module && bs@[2].slot == slot);
                lemma_value_at(bs, 2);
            },
            SlotId::AccountId => {
                assert(bs@[3].module == module && bs@[3].slot == slot);
                lemma_value_at(bs, 3);
            },
            SlotId::RuntimeCall => {
                assert(bs@[4].module == module && bs@[4].slot == slot);
                lemma_value_at(bs, 4);
            },
            SlotId::Lookup => {
                assert(bs@[5].module == module && bs@[5].slot == slot);
                lemma_value_at(bs, 5);
            },
            SlotId::Nonce => {
                assert(bs@[6].module == module && bs@[6].slot == slot);
                lemma_value_at(bs, 6);
            },
            SlotId::Hash => {
                assert(bs@[7].module == module && bs@[7].slot == slot);
                lemma_value_at(bs, 7);
            },
            SlotId::Hashing => {
                assert(bs@[8].module == module && bs@[8].slot == slot);
                lemma_value_at(bs, 8);
            },
            SlotId::Block => {
                assert(bs@[9].module == module && bs@[9].slot == slot);
                lemma_value_at(bs, 9);
            },
            SlotId::RuntimeEvent => {
                if module is System {
                    assert(bs@[10].module == module && bs@[10].slot == slot);
                    lemma_value_at(bs, 10);
                } else {
                    assert(bs@[27].module == module && bs@[27].slot == slot);
                    lemma_value_at(bs, 27);
                }
            },
            SlotId::RuntimeOrigin => {
                assert(bs@[11].module == module && bs@[11].slot == slot);
                lemma_value_at(bs, 11);
            },
            SlotId::BlockHashCount => {
                assert(bs@[12].module == module && bs@[12].slot == slot);
                lemma_value_at(bs, 12);
            },
            SlotId::DbWeight => {
                assert(bs@[13].module == module && bs@[13].slot == slot);
                lemma_value_at(bs, 13);
            },
            SlotId::Version => {
                assert(bs@[14].module == module && bs@[14].slot == slot);
                lemma_value_at(bs, 14);
            },
            SlotId::PalletInfo => {
                assert(bs@[15].module == module && bs@[15].slot == slot);
                lemma_value_at(bs, 15);
            },
            SlotId::OnNewAccount => {
                assert(bs@[16].module == module && bs@[16].slot == slot);
                lemma_value_at(bs, 16);
            },
            SlotId::OnKilledAccount => {
                assert(bs@[17].module == module && bs@[17].slot == slot);
                lemma_value_at(bs, 17);
            },
            SlotId::AccountData => {
                assert(bs@[18].module == module && bs@[18].slot == slot);
                lemma_value_at(bs, 18);
            },
            SlotId::SystemWeightInfo => {
                assert(bs@[19].module == module && bs@[19].slot == slot);
                lemma_value_at(bs, 19);
            },
            SlotId::SS58Prefix => {
                assert(bs@[20].module == module && bs@[20].slot == slot);
                lemma_value_at(bs, 20);
            },
            SlotId::OnSetCode => {
                assert(bs@[21].module == module && bs@[21].slot == slot);
                lemma_value_at(bs, 21);
            },
            SlotId::MaxConsumers => {
                assert(bs@[22].module == module && bs@[22].slot == slot);
                lemma_value_at(bs, 22);
            },
            SlotId::AuthorityId => {
                assert(bs@[23].module == module && bs@[23].slot == slot);
                lemma_value_at(bs, 23);
            },
            SlotId::DisabledValidators => {
                assert(bs@[24].module == module && bs@[24].slot == slot);
                lemma_value_at(bs, 24);
            },
            SlotId::MaxAuthorities => {
                if module is Aura {
                    assert(bs@[25].module == module && bs@[25].slot == slot);
                    lemma_value_at(bs, 25);
                } else {
                    assert(bs@[29].module == module && bs@[29].slot == slot);
                    lemma_value_at(bs, 29);
                }
            },
            SlotId::AllowMultipleBlocksPerSlot => {
                assert(bs@[26].module == module && bs@[26].slot == slot);
                lemma_value_at(bs, 26);
            },
            SlotId::WeightInfo => {
                if module is Grandpa {
                    assert(bs@[28].module == module && bs@[28].slot == slot);
                    lemma_value_at(bs, 28);
                } else {
                    assert(bs@[37].module == module && bs@[37].slot == slot);
                    lemma_value_at(bs, 37);
                }
            },
            SlotId::MaxSetIdSessionEntries => {
                assert(bs@[30].module == module && bs@[30].slot == slot);
                lemma_value_at(bs, 30);
            },
            SlotId::MaxNominators => {
                assert(bs@[31].module == module && bs@[31].slot == slot);
                lemma_value_at(bs, 31);
            },
            SlotId::KeyOwnerProof => {
                assert(bs@[32].module == module && bs@[32].slot == slot);
                lemma_value_at(bs, 32);
            },
            SlotId::EquivocationReportSystem => {
                assert(bs@[33].module == module && bs@[33].slot == slot);
                lemma_value_at(bs, 33);
            },
            SlotId::Moment => {
                assert(bs@[34].module == module && bs@[34].slot == slot);
                lemma_value_at(bs, 34);
            },
            SlotId::OnTimestampSet => {
                assert(bs@[35].module == module && bs@[35].slot == slot);
                lemma_value_at(bs, 35);
            },
            SlotId::MinimumPeriod => {
                assert(bs@[36].module == module && bs@[36].slot == slot);
                lemma_value_at(bs, 36);
            },
            SlotId::SystemHash => {
                assert(bs@[38].module == module && bs@[38].slot == slot);
                lemma_value_at(bs, 38);
            },
            SlotId::TimestampProvider => {
                assert(bs@[39].module == module && bs@[39].slot == slot);
                lemma_value_at(bs, 39);
            },
            SlotId::UnsignedPriority => {
                assert(bs@[40].module == module && bs@[40].slot == slot);
                lemma_value_at(bs, 40);
            },
            SlotId::TransactionLongevity => {
                assert(bs@[41].module == module && bs@[41].slot == slot);
                lemma_value_at(bs, 41);
            },
            SlotId::DisableTransactionFee => {
                assert(bs@[42].module == module && bs@[42].slot == slot);
                lemma_value_at(bs, 42);
            },
            SlotId::DisableNonceValidation => {
                assert(bs@[43].module == module && bs@[43].slot == slot);
                lemma_value_at(bs, 43);
            },
            SlotId::InvokeTxMaxNSteps => {
                assert(bs@[44].module == module && bs@[44].slot == slot);
                lemma_value_at(bs, 44);
            },
            SlotId::ValidateMaxNSteps => {
                assert(bs@[45].module == module && bs@[45].slot == slot);
                lemma_value_at(bs, 45);
            },
            SlotId::ProtocolVersion => {
                assert(bs@[46].module == module && bs@[46].slot == slot);
                lemma_value_at(bs, 46);
            },
            SlotId::ChainId => {
                assert(bs@[47].module == module && bs@[47].slot == slot);
                lemma_value_at(bs, 47);
            },
            SlotId::MaxRecursionDepth => {
                assert(bs@[48].module == module && bs@[48].slot == slot);
                lemma_value_at(bs, 48);
            },
            SlotId::ProgramHash => {
                assert(bs@[49].module == module && bs@[49].slot == slot);
                lemma_value_at(bs, 49);
            },
            SlotId::L1GasPrice => {
                assert(bs@[50].module == module && bs@[50].slot == slot);
                lemma_value_at(bs, 50);
            },
        }
    }
}

/// Law: the binding script registers the consensus timestamp gate as the
/// timestamp module's timestamp-set callback, in place of the authoring
/// module's default handler.
pub proof fn lemma_gate_registered(bs: BindingSet, p: Params)
    requires
        bs.wf(),
        bs@ == spec_default_bindings(p),
    ensures
        bs.spec_value_of(ModuleId::Timestamp, SlotId::OnTimestampSet) == BoundValue::Delegated(
            DelegateId::ConsensusGate,
        ),
{
    assert(bs@[35].module == ModuleId::Timestamp && bs@[35].slot == SlotId::OnTimestampSet);
    lemma_value_at(bs, 35);
}

/// Compose the runtime: bind every capability slot of every collaborator
/// module to its value, validate the result, and capture the sealing-mode
/// snapshot in the consensus timestamp gate. The binding script is
/// complete and conflict-free, so composition succeeds on every
/// well-formed parameter table.
#[verifier::rlimit(100)]
pub fn compose_runtime(params: &Params, mode: SealingMode) -> (r: Result<
    ComposedRuntime,
    CompositionError,
>)
    requires
        params.wf(),
    ensures
        r is Ok,
        r matches Ok(c) ==> {
            &&& c.wf()
            &&& c.params == *params
            &&& c.gate.mode == mode
            &&& c.bindings@ == spec_default_bindings(*params)
        },
{
    let mut bs = BindingSet::new();
    bs.bind(ModuleId::System, SlotId::BaseCallFilter, BoundValue::Delegated(DelegateId::EverythingFilter))?;
    bs.bind(ModuleId::System, SlotId::BlockWeights, BoundValue::Delegated(DelegateId::HostRuntime))?;
    bs.bind(ModuleId::System, SlotId::BlockLength, BoundValue::Delegated(DelegateId::HostRuntime))?;
    bs.bind(ModuleId::System, SlotId::AccountId, BoundValue::Delegated(DelegateId::HostRuntime))?;
    bs.bind(ModuleId::System, SlotId::RuntimeCall, BoundValue::Delegated(DelegateId::HostRuntime))?;
    bs.bind(ModuleId::System, SlotId::Lookup, BoundValue::Delegated(DelegateId::AccountIdLookup))?;
    bs.bind(ModuleId::System, SlotId::Nonce, BoundValue::Delegated(DelegateId::HostRuntime))?;
    bs.bind(ModuleId::System, SlotId::Hash, BoundValue::Delegated(DelegateId::HostRuntime))?;
    bs.bind(ModuleId::System, SlotId::Hashing, BoundValue::Delegated(DelegateId::BlakeTwoHashing))?;
    bs.bind(ModuleId::System, SlotId::Block, BoundValue::Delegated(DelegateId::HostRuntime))?;
    bs.bind(ModuleId::System, SlotId::RuntimeEvent, BoundValue::Delegated(DelegateId::HostRuntime))?;
    bs.bind(ModuleId::System, SlotId::RuntimeOrigin, BoundValue::Delegated(DelegateId::HostRuntime))?;
    bs.bind(ModuleId::System, SlotId::BlockHashCount, BoundValue::Delegated(DelegateId::HostRuntime))?;
    bs.bind(ModuleId::System, SlotId::DbWeight, BoundValue::Delegated(DelegateId::RocksDbWeights))?;
    bs.bind(ModuleId::System, SlotId::Version, BoundValue::Delegated(DelegateId::HostRuntime))?;
    bs.bind(ModuleId::System, SlotId::PalletInfo, BoundValue::Delegated(DelegateId::HostRuntime))?;
    bs.bind(ModuleId::System, SlotId::OnNewAccount, BoundValue::NoOp)?;
    bs.bind(ModuleId::System, SlotId::OnKilledAccount, BoundValue::NoOp)?;
    bs.bind(ModuleId::System, SlotId::AccountData, BoundValue::NoOp)?;
    bs.bind(ModuleId::System, SlotId::SystemWeightInfo, BoundValue::NoOp)?;
    bs.bind(ModuleId::System, SlotId::SS58Prefix, BoundValue::Delegated(DelegateId::HostRuntime))?;
    bs.bind(ModuleId::System, SlotId::OnSetCode, BoundValue::NoOp)?;
    bs.bind(ModuleId::System, SlotId::MaxConsumers, BoundValue::Word32(params.max_consumers))?;
    bs.bind(ModuleId::Aura, SlotId::AuthorityId, BoundValue::Delegated(DelegateId::AuraAuthorityId))?;
    bs.bind(ModuleId::Aura, SlotId::DisabledValidators, BoundValue::NoOp)?;
    bs.bind(ModuleId::Aura, SlotId::MaxAuthorities, BoundValue::Word32(params.max_authorities))?;
    bs.bind(ModuleId::Aura, SlotId::AllowMultipleBlocksPerSlot, BoundValue::Flag(params.allow_multiple_blocks_per_slot))?;
    bs.bind(ModuleId::Grandpa, SlotId::RuntimeEvent, BoundValue::Delegated(DelegateId::HostRuntime))?;
    bs.bind(ModuleId::Grandpa, SlotId::WeightInfo, BoundValue::NoOp)?;
    bs.bind(ModuleId::Grandpa, SlotId::MaxAuthorities, BoundValue::Word32(params.max_authorities))?;
    bs.bind(ModuleId::Grandpa, SlotId::MaxSetIdSessionEntries, BoundValue::Word64(params.max_set_id_session_entries))?;
    bs.bind(ModuleId::Grandpa, SlotId::MaxNominators, BoundValue::Word32(params.max_nominators))?;
    bs.bind(ModuleId::Grandpa, SlotId::KeyOwnerProof, BoundValue::Delegated(DelegateId::VoidProof))?;
    bs.bind(ModuleId::Grandpa, SlotId::EquivocationReportSystem, BoundValue::NoOp)?;
    bs.bind(ModuleId::Timestamp, SlotId::Moment, BoundValue::Delegated(DelegateId::MillisecondClock))?;
    bs.bind(ModuleId::Timestamp, SlotId::OnTimestampSet, BoundValue::Delegated(DelegateId::ConsensusGate))?;
    bs.bind(ModuleId::Timestamp, SlotId::MinimumPeriod, BoundValue::Word64(params.minimum_period_ms))?;
    bs.bind(ModuleId::Timestamp, SlotId::WeightInfo, BoundValue::NoOp)?;
    bs.bind(ModuleId::Starknet, SlotId::SystemHash, BoundValue::Delegated(DelegateId::StarknetHashing))?;
    bs.bind(ModuleId::Starknet, SlotId::TimestampProvider, BoundValue::Delegated(DelegateId::TimestampPallet))?;
    bs.bind(ModuleId::Starknet, SlotId::UnsignedPriority, BoundValue::Word64(params.unsigned_priority))?;
    bs.bind(ModuleId::Starknet, SlotId::TransactionLongevity, BoundValue::Word64(params.transaction_longevity))?;
    bs.bind(ModuleId::Starknet, SlotId::DisableTransactionFee, BoundValue::Flag(params.disable_transaction_fee))?;
    bs.bind(ModuleId::Starknet, SlotId::DisableNonceValidation, BoundValue::Flag(params.disable_nonce_validation))?;
    bs.bind(ModuleId::Starknet, SlotId::InvokeTxMaxNSteps, BoundValue::Word32(params.invoke_tx_max_n_steps))?;
    bs.bind(ModuleId::Starknet, SlotId::ValidateMaxNSteps, BoundValue::Word32(params.validate_max_n_steps))?;
    bs.bind(ModuleId::Starknet, SlotId::ProtocolVersion, BoundValue::Byte(params.protocol_version))?;
    bs.bind(ModuleId::Starknet, SlotId::ChainId, BoundValue::FieldElement(params.chain_id))?;
    bs.bind(ModuleId::Starknet, SlotId::MaxRecursionDepth, BoundValue::Word32(params.max_recursion_depth))?;
    bs.bind(ModuleId::Starknet, SlotId::ProgramHash, BoundValue::FieldElement(params.program_hash))?;
    bs.bind(ModuleId::Starknet, SlotId::L1GasPrice, BoundValue::GasPrice(params.l1_gas_price))?;
    proof {
        assert(bs@ =~= spec_default_bindings(*params));
        lemma_default_bindings_fully_bound(bs, *params);
    }
    match bs.validate() {
        Ok(()) => {},
        Err(e) => {
            return Err(e);
        },
    }
    Ok(
        ComposedRuntime {
            params: *params,
            bindings: bs,
            gate: ConsensusOnTimestampSet::new(mode),
        },
    )
}

} // verus!
