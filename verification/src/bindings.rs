//! Module capability bindings.
//!
//! Each collaborator module declares a set of capability slots — named
//! configuration points it needs from its host to be instantiated. The
//! composition layer associates every declared slot with exactly one value:
//! a concrete constant drawn from the parameter table, a delegation to
//! another collaborator's implementation, or a trivial no-op where the
//! capability is unused. Binding an undeclared slot, rebinding a bound
//! slot, and leaving a declared slot unbound or bound at the wrong kind
//! are composition errors, surfaced before the runtime becomes operational.

use vstd::prelude::*;

use crate::params::{Felt, ResourcePrice};

verus! {

/// The collaborator modules composed into the runtime.
#[derive(Clone, Copy, Debug, PartialEq, Eq, Structural)]
pub enum ModuleId {
    /// Account and nonce bookkeeping, and the base frame of the runtime.
    System,
    /// The block-authoring module.
    Aura,
    /// The finality-voting module.
    Grandpa,
    /// The block-timestamp module.
    Timestamp,
    /// The chain-specific execution engine.
    Starknet,
}

/// The capability slots the collaborator modules declare. A slot name may
/// be declared by more than one module; a binding is keyed by the pair of
/// module and slot.
#[derive(Clone, Copy, Debug, PartialEq, Eq, Structural)]
pub enum SlotId {
    BaseCallFilter,
    BlockWeights,
    BlockLength,
    AccountId,
    RuntimeCall,
    Lookup,
    Nonce,
    Hash,
    Hashing,
    Block,
    RuntimeEvent,
    RuntimeOrigin,
    BlockHashCount,
    DbWeight,
    Version,
    PalletInfo,
    OnNewAccount,
    OnKilledAccount,
    AccountData,
    SystemWeightInfo,
    SS58Prefix,
    OnSetCode,
    MaxConsumers,
    AuthorityId,
    DisabledValidators,
    MaxAuthorities,
    AllowMultipleBlocksPerSlot,
    WeightInfo,
    MaxSetIdSessionEntries,
    MaxNominators,
    KeyOwnerProof,
    EquivocationReportSystem,
    Moment,
    OnTimestampSet,
    MinimumPeriod,
    SystemHash,
    TimestampProvider,
    UnsignedPriority,
    TransactionLongevity,
    DisableTransactionFee,
    DisableNonceValidation,
    InvokeTxMaxNSteps,
    ValidateMaxNSteps,
    ProtocolVersion,
    ChainId,
    MaxRecursionDepth,
    ProgramHash,
    L1GasPrice,
}

/// The named implementations a binding may delegate to instead of
/// supplying a literal value.
#[derive(Clone, Copy, Debug, PartialEq, Eq, Structural)]
pub enum DelegateId {
    /// The call filter that lets every dispatchable through.
    EverythingFilter,
    /// A type or value supplied by the composed runtime itself.
    HostRuntime,
    /// The account module's lookup from raw input to account id.
    AccountIdLookup,
    /// The block and trie hashing algorithm.
    BlakeTwoHashing,
    /// The database operation weights of the storage backend.
    RocksDbWeights,
    /// The authoring module's authority-id type.
    AuraAuthorityId,
    /// The empty key-ownership proof: equivocation reporting is unused.
    VoidProof,
    /// The moment representation: milliseconds since the unix epoch.
    MillisecondClock,
    /// The consensus timestamp gate of this layer.
    ConsensusGate,
    /// The execution engine's state hashing algorithm.
    StarknetHashing,
    /// The timestamp module as a time provider.
    TimestampPallet,
}

/// The value bound to a capability slot.
#[derive(Clone, Copy, Debug, PartialEq, Eq)]
pub enum BoundValue {
    /// An eight-bit constant.
    Byte(u8),
    /// A 32-bit constant.
    Word32(u32),
    /// A 64-bit constant.
    Word64(u64),
    /// A boolean switch.
    Flag(bool),
    /// A 252-bit identifier.
    FieldElement(Felt),
    /// A gas price record.
    GasPrice(ResourcePrice),
    /// Behaviour delegated to a named implementation.
    Delegated(DelegateId),
    /// The capability is declared but unused: a trivial no-op fills it.
    NoOp,
}

/// The kind of value a capability slot expects.
#[derive(Clone, Copy, Debug, PartialEq, Eq, Structural)]
pub enum SlotKind {
    Byte,
    Word32,
    Word64,
    Flag,
    FieldElement,
    GasPrice,
    Delegate,
    NoOp,
}

/// The kind a bound value has.
pub open spec fn kind_of(v: BoundValue) -> SlotKind {
    match v {
        BoundValue::Byte(_) => SlotKind::Byte,
        BoundValue::Word32(_) => SlotKind::Word32,
        BoundValue::Word64(_) => SlotKind::Word64,
        BoundValue::Flag(_) => SlotKind::Flag,
        BoundValue::FieldElement(_) => SlotKind::FieldElement,
        BoundValue::GasPrice(_) => SlotKind::GasPrice,
        BoundValue::Delegated(_) => SlotKind::Delegate,
        BoundValue::NoOp => SlotKind::NoOp,
    }
}

/// The kind a bound value has.
pub fn kind_of_value(v: &BoundValue) -> (k: SlotKind)
    ensures
        k == kind_of(*v),
{
    match v {
        BoundValue::Byte(_) => SlotKind::Byte,
        BoundValue::Word32(_) => SlotKind::Word32,
        BoundValue::Word64(_) => SlotKind::Word64,
        BoundValue::Flag(_) => SlotKind::Flag,
        BoundValue::FieldElement(_) => SlotKind::FieldElement,
        BoundValue::GasPrice(_) => SlotKind::GasPrice,
        BoundValue::Delegated(_) => SlotKind::Delegate,
        BoundValue::NoOp => SlotKind::NoOp,
    }
}

/// Which module declares which capability slot.
pub open spec fn declares(module: ModuleId, slot: SlotId) -> bool {
    match slot {
        SlotId::BaseCallFilter
        | SlotId::BlockWeights
        | SlotId::BlockLength
        | SlotId::AccountId
        | SlotId::RuntimeCall
        | SlotId::Lookup
        | SlotId::Nonce
        | SlotId::Hash
        | SlotId::Hashing
        | SlotId::Block
        | SlotId::RuntimeOrigin
        | SlotId::BlockHashCount
        | SlotId::DbWeight
        | SlotId::Version
        | SlotId::PalletInfo
        | SlotId::OnNewAccount
        | SlotId::OnKilledAccount
        | SlotId::AccountData
        | SlotId::SystemWeightInfo
        | SlotId::SS58Prefix
        | SlotId::OnSetCode
        | SlotId::MaxConsumers => module is System,
        SlotId::AuthorityId
        | SlotId::DisabledValidators
        | SlotId::AllowMultipleBlocksPerSlot => module is Aura,
        SlotId::MaxSetIdSessionEntries
        | SlotId::MaxNominators
        | SlotId::KeyOwnerProof
        | SlotId::EquivocationReportSystem => module is Grandpa,
        SlotId::Moment | SlotId::OnTimestampSet | SlotId::MinimumPeriod => module is Timestamp,
        SlotId::SystemHash
        | SlotId::TimestampProvider
        | SlotId::UnsignedPriority
        | SlotId::TransactionLongevity
        | SlotId::DisableTransactionFee
        | SlotId::DisableNonceValidation
        | SlotId::InvokeTxMaxNSteps
        | SlotId::ValidateMaxNSteps
        | SlotId::ProtocolVersion
        | SlotId::ChainId
        | SlotId::MaxRecursionDepth
        | SlotId::ProgramHash
        | SlotId::L1GasPrice => module is Starknet,
        SlotId::RuntimeEvent => module is System || module is Grandpa,
        SlotId::MaxAuthorities => module is Aura || module is Grandpa,
        SlotId::WeightInfo => module is Grandpa || module is Timestamp,
    }
}

/// Which module declares which capability slot.
pub fn is_declared(module: ModuleId, slot: SlotId) -> (r: bool)
    ensures
        r == declares(module, slot),
{
    match slot {
        SlotId::BaseCallFilter
        | SlotId::BlockWeights
        | SlotId::BlockLength
        | SlotId::AccountId
        | SlotId::RuntimeCall
        | SlotId::Lookup
        | SlotId::Nonce
        | SlotId::Hash
        | SlotId::Hashing
        | SlotId::Block
        | SlotId::RuntimeOrigin
        | SlotId::BlockHashCount
        | SlotId::DbWeight
        | SlotId::Version
        | SlotId::PalletInfo
        | SlotId::OnNewAccount
        | SlotId::OnKilledAccount
        | SlotId::AccountData
        | SlotId::SystemWeightInfo
        | SlotId::SS58Prefix
        | SlotId::OnSetCode
        | SlotId::MaxConsumers => module == ModuleId::System,
        SlotId::AuthorityId
        | SlotId::DisabledValidators
        | SlotId::AllowMultipleBlocksPerSlot => module == ModuleId::Aura,
        SlotId::MaxSetIdSessionEntries
        | SlotId::MaxNominators
        | SlotId::KeyOwnerProof
        | SlotId::EquivocationReportSystem => module == ModuleId::Grandpa,
        SlotId::Moment | SlotId::OnTimestampSet | SlotId::MinimumPeriod => {
            module == ModuleId::Timestamp
        },
        SlotId::SystemHash
        | SlotId::TimestampProvider
        | SlotId::UnsignedPriority
        | SlotId::TransactionLongevity
        | SlotId::DisableTransactionFee
        | SlotId::DisableNonceValidation
        | SlotId::InvokeTxMaxNSteps
        | SlotId::ValidateMaxNSteps
        | SlotId::ProtocolVersion
        | SlotId::ChainId
        | SlotId::MaxRecursionDepth
        | SlotId::ProgramHash
        | SlotId::L1GasPrice => module == ModuleId::Starknet,
        SlotId::RuntimeEvent => module == ModuleId::System || module == ModuleId::Grandpa,
        SlotId::MaxAuthorities => module == ModuleId::Aura || module == ModuleId::Grandpa,
        SlotId::WeightInfo => module == ModuleId::Grandpa || module == ModuleId::Timestamp,
    }
}

/// The kind of value each capability slot expects. The three slot names
/// shared by two modules expect the same kind in both.
pub open spec fn slot_kind(slot: SlotId) -> SlotKind {
    match slot {
        SlotId::BaseCallFilter
        | SlotId::BlockWeights
        | SlotId::BlockLength
        | SlotId::AccountId
        | SlotId::RuntimeCall
        | SlotId::Lookup
        | SlotId::Nonce
        | SlotId::Hash
        | SlotId::Hashing
        | SlotId::Block
        | SlotId::RuntimeEvent
        | SlotId::RuntimeOrigin
        | SlotId::BlockHashCount
        | SlotId::DbWeight
        | SlotId::Version
        | SlotId::PalletInfo
        | SlotId::SS58Prefix
        | SlotId::AuthorityId
        | SlotId::KeyOwnerProof
        | SlotId::Moment
        | SlotId::OnTimestampSet
        | SlotId::SystemHash
        | SlotId::TimestampProvider => SlotKind::Delegate,
        SlotId::OnNewAccount
        | SlotId::OnKilledAccount
        | SlotId::AccountData
        | SlotId::SystemWeightInfo
        | SlotId::OnSetCode
        | SlotId::DisabledValidators
        | SlotId::WeightInfo
        | SlotId::EquivocationReportSystem => SlotKind::NoOp,
        SlotId::MaxConsumers
        | SlotId::MaxAuthorities
        | SlotId::MaxNominators
        | SlotId::InvokeTxMaxNSteps
        | SlotId::ValidateMaxNSteps
        | SlotId::MaxRecursionDepth => SlotKind::Word32,
        SlotId::MaxSetIdSessionEntries
        | SlotId::MinimumPeriod
        | SlotId::UnsignedPriority
        | SlotId::TransactionLongevity => SlotKind::Word64,
        SlotId::AllowMultipleBlocksPerSlot
        | SlotId::DisableTransactionFee
        | SlotId::DisableNonceValidation => SlotKind::Flag,
        SlotId::ProtocolVersion => SlotKind::Byte,
        SlotId::ChainId | SlotId::ProgramHash => SlotKind::FieldElement,
        SlotId::L1GasPrice => SlotKind::GasPrice,
    }
}

/// The kind of value each capability slot expects.
pub fn kind_of_slot(slot: SlotId) -> (k: SlotKind)
    ensures
        k == slot_kind(slot),
{
    match slot {
        SlotId::BaseCallFilter
        | SlotId::BlockWeights
        | SlotId::BlockLength
        | SlotId::AccountId
        | SlotId::RuntimeCall
        | SlotId::Lookup
        | SlotId::Nonce
        | SlotId::Hash
        | SlotId::Hashing
        | SlotId::Block
        | SlotId::RuntimeEvent
        | SlotId::RuntimeOrigin
        | SlotId::BlockHashCount
        | SlotId::DbWeight
        | SlotId::Version
        | SlotId::PalletInfo
        | SlotId::SS58Prefix
        | SlotId::AuthorityId
        | SlotId::KeyOwnerProof
        | SlotId::Moment
        | SlotId::OnTimestampSet
        | SlotId::SystemHash
        | SlotId::TimestampProvider => SlotKind::Delegate,
        SlotId::OnNewAccount
        | SlotId::OnKilledAccount
        | SlotId::AccountData
        | SlotId::SystemWeightInfo
        | SlotId::OnSetCode
        | SlotId::DisabledValidators
        | SlotId::WeightInfo
        | SlotId::EquivocationReportSystem => SlotKind::NoOp,
        SlotId::MaxConsumers
        | SlotId::MaxAuthorities
        | SlotId::MaxNominators
        | SlotId::InvokeTxMaxNSteps
        | SlotId::ValidateMaxNSteps
        | SlotId::MaxRecursionDepth => SlotKind::Word32,
        SlotId::MaxSetIdSessionEntries
        | SlotId::MinimumPeriod
        | SlotId::UnsignedPriority
        | SlotId::TransactionLongevity => SlotKind::Word64,
        SlotId::AllowMultipleBlocksPerSlot
        | SlotId::DisableTransactionFee
        | SlotId::DisableNonceValidation => SlotKind::Flag,
        SlotId::ProtocolVersion => SlotKind::Byte,
        SlotId::ChainId | SlotId::ProgramHash => SlotKind::FieldElement,
        SlotId::L1GasPrice => SlotKind::GasPrice,
    }
}

/// One resolved association: the value bound to a module's capability slot.
#[derive(Clone, Copy, Debug, PartialEq, Eq)]
pub struct Binding {
    /// The module that declares the slot.
    pub module: ModuleId,
    /// The slot being filled.
    pub slot: SlotId,
    /// The value filling it.
    pub value: BoundValue,
}

/// A composition error: the offending module and slot are identified so
/// the operator can correct the configuration. Composition errors are
/// fatal; there is no partial composed runtime.
#[derive(Clone, Copy, Debug, PartialEq, Eq)]
pub enum CompositionError {
    /// The slot is not declared by the module it was bound under.
    SlotNotDeclared { module: ModuleId, slot: SlotId },
    /// The slot already has a binding; rebinding is a conflict, never a
    /// silent overwrite.
    SlotAlreadyBound { module: ModuleId, slot: SlotId },
    /// A declared slot was left without a binding.
    SlotMissing { module: ModuleId, slot: SlotId },
    /// The bound value's kind does not match what the slot expects.
    SlotKindMismatch { module: ModuleId, slot: SlotId },
}

/// The set of capability bindings accumulated during composition. Keys are
/// pairs of module and slot; a well-formed set binds each key at most once.
pub struct BindingSet {
    entries: Vec<Binding>,
}

impl BindingSet {
    /// The bindings in the order they were made.
    pub closed spec fn view(&self) -> Seq<Binding> {
        self.entries@
    }

    /// No key is bound twice: there is exactly one authoritative value per
    /// declared name, with no shadowing.
    pub open spec fn wf(self) -> bool {
        forall|i: int, j: int|
            #![trigger self@[i], self@[j]]
            0 <= i < j < self@.len() ==> !(self@[i].module == self@[j].module
                && self@[i].slot == self@[j].slot)
    }

    /// Whether the key has a binding.
    pub open spec fn spec_has(self, module: ModuleId, slot: SlotId) -> bool {
        exists|i: int|
            #![trigger self@[i]]
            0 <= i < self@.len() && self@[i].module == module && self@[i].slot == slot
    }

    /// The value bound to the key; meaningful when the key has a binding
    /// in a well-formed set.
    pub open spec fn spec_value_of(self, module: ModuleId, slot: SlotId) -> BoundValue
        recommends
            self.spec_has(module, slot),
    {
        self@[choose|i: int|
            0 <= i < self@.len() && #[trigger] self@[i].module == module
                && self@[i].slot == slot].value
    }

    /// Every capability slot declared by a bound module has a binding, and
    /// the bound value's kind matches what the slot expects: the binding
    /// sets of all modules are jointly consistent.
    pub open spec fn fully_bound(self) -> bool {
        forall|module: ModuleId, slot: SlotId|
            #[trigger] declares(module, slot) ==> self.spec_has(module, slot) && kind_of(
                self.spec_value_of(module, slot),
            ) == slot_kind(slot)
    }

    /// An empty binding set: composition starts here.
    pub fn new() -> (bs: BindingSet)
        ensures
            bs@ == Seq::<Binding>::empty(),
            bs.wf(),
    {
        BindingSet { entries: Vec::new() }
    }

    /// How many bindings have been made.
    pub fn len(&self) -> (n: usize)
        ensures
            n == self@.len(),
    {
        self.entries.len()
    }

    /// The `i`-th binding, in binding order.
    pub fn entry_at(&self, i: usize) -> (b: Binding)
        requires
            i < self@.len(),
        ensures
            b == self@[i as int],
    {
        self.entries[i]
    }

    /// Associate a value with a module's capability slot. The slot must be
    /// declared by the module, and a slot already bound is a conflict,
    /// reported as a configuration error rather than silently overwritten.
    pub fn bind(&mut self, module: ModuleId, slot: SlotId, value: BoundValue) -> (r: Result<
        (),
        CompositionError,
    >)
        requires
            old(self).wf(),
        ensures
            final(self).wf(),
            !declares(module, slot) ==> r == Err::<(), CompositionError>(
                CompositionError::SlotNotDeclared { module, slot },
            ) && *final(self) == *old(self),
            declares(module, slot) && old(self).spec_has(module, slot) ==> r == Err::<
                (),
                CompositionError,
            >(CompositionError::SlotAlreadyBound { module, slot }) && *final(self) == *old(self),
            declares(module, slot) && !old(self).spec_has(module, slot) ==> r == Ok::<
                (),
                CompositionError,
            >(()) && final(self)@ == old(self)@.push(Binding { module, slot, value }),
    {
        if !is_declared(module, slot) {
            return Err(CompositionError::SlotNotDeclared { module, slot });
        }
        if self.resolve(module, slot).is_some() {
            return Err(CompositionError::SlotAlreadyBound { module, slot });
        }
        self.entries.push(Binding { module, slot, value });
        Ok(())
    }

    /// Look the key up: the bound value when the key has a binding, and
    /// nothing otherwise.
    pub fn resolve(&self, module: ModuleId, slot: SlotId) -> (r: Option<BoundValue>)
        requires
            self.wf(),
        ensures
            r is Some <==> self.spec_has(module, slot),
            r matches Some(v) ==> v == self.spec_value_of(module, slot),
    {
        let n = self.entries.len();
        let mut i: usize = 0;
        while i < n
            invariant
                n == self@.len(),
                i <= n,
                self.wf(),
                forall|j: int|
                    #![trigger self@[j]]
                    0 <= j < i ==> !(self@[j].module == module && self@[j].slot == slot),
            decreases n - i,
        {
            let b = self.entries[i];
            if b.module == module && b.slot == slot {
                proof {
                    assert(self@[i as int].module == module && self@[i as int].slot == slot);
                    lemma_value_at(*self, i as int);
                }
                return Some(b.value);
            }
            i = i + 1;
        }
        None
    }
}

/// In a well-formed set, the binding at any index is the one resolvable
/// binding of its key.
pub proof fn lemma_value_at(bs: BindingSet, i: int)
    requires
        bs.wf(),
        0 <= i < bs@.len(),
    ensures
        bs.spec_has(bs@[i].module, bs@[i].slot),
        bs.spec_value_of(bs@[i].module, bs@[i].slot) == bs@[i].value,
{
    let module = bs@[i].module;
    let slot = bs@[i].slot;
    assert(bs.spec_has(module, slot));
    let k = choose|k: int|
        0 <= k < bs@.len() && #[trigger] bs@[k].module == module && bs@[k].slot == slot;
    if k < i {
        assert(!(bs@[k].module == bs@[i].module && bs@[k].slot == bs@[i].slot));
    } else if i < k {
        assert(!(bs@[i].module == bs@[k].module && bs@[i].slot == bs@[k].slot));
    }
}

/// The full list of capability slots the collaborator modules declare:
/// the requirements that composition must satisfy. Every declared pair of
/// module and slot appears in the list.
#[verifier::rlimit(100)]
fn required_list() -> (req: Vec<(ModuleId, SlotId)>)
    ensures
        forall|module: ModuleId, slot: SlotId|
            #[trigger] declares(module, slot) ==> req@.contains((module, slot)),
{
    let mut req: Vec<(ModuleId, SlotId)> = Vec::new();
    req.push((ModuleId::System, SlotId::BaseCallFilter));
    req.push((ModuleId::System, SlotId::BlockWeights));
    req.push((ModuleId::System, SlotId::BlockLength));
    req.push((ModuleId::System, SlotId::AccountId));
    req.push((ModuleId::System, SlotId::RuntimeCall));
    req.push((ModuleId::System, SlotId::Lookup));
    req.push((ModuleId::System, SlotId::Nonce));
    req.push((ModuleId::System, SlotId::Hash));
    req.push((ModuleId::System, SlotId::Hashing));
    req.push((ModuleId::System, SlotId::Block));
    req.push((ModuleId::System, SlotId::RuntimeEvent));
    req.push((ModuleId::System, SlotId::RuntimeOrigin));
    req.push((ModuleId::System, SlotId::BlockHashCount));
    req.push((ModuleId::System, SlotId::DbWeight));
    req.push((ModuleId::System, SlotId::Version));
    req.push((ModuleId::System, SlotId::PalletInfo));
    req.push((ModuleId::System, SlotId::OnNewAccount));
    req.push((ModuleId::System, SlotId::OnKilledAccount));
    req.push((ModuleId::System, SlotId::AccountData));
    req.push((ModuleId::System, SlotId::SystemWeightInfo));
    req.push((ModuleId::System, SlotId::SS58Prefix));
    req.push((ModuleId::System, SlotId::OnSetCode));
    req.push((ModuleId::System, SlotId::MaxConsumers));
    req.push((ModuleId::Aura, SlotId::AuthorityId));
    req.push((ModuleId::Aura, SlotId::DisabledValidators));
    req.push((ModuleId::Aura, SlotId::MaxAuthorities));
    req.push((ModuleId::Aura, SlotId::AllowMultipleBlocksPerSlot));
    req.push((ModuleId::Grandpa, SlotId::RuntimeEvent));
    req.push((ModuleId::Grandpa, SlotId::WeightInfo));
    req.push((ModuleId::Grandpa, SlotId::MaxAuthorities));
    req.push((ModuleId::Grandpa, SlotId::MaxSetIdSessionEntries));
    req.push((ModuleId::Grandpa, SlotId::MaxNominators));
    req.push((ModuleId::Grandpa, SlotId::KeyOwnerProof));
    req.push((ModuleId::Grandpa, SlotId::EquivocationReportSystem));
    req.push((ModuleId::Timestamp, SlotId::Moment));
    req.push((ModuleId::Timestamp, SlotId::OnTimestampSet));
    req.push((ModuleId::Timestamp, SlotId::MinimumPeriod));
    req.push((ModuleId::Timestamp, SlotId::WeightInfo));
    req.push((ModuleId::Starknet, SlotId::SystemHash));
    req.push((ModuleId::Starknet, SlotId::TimestampProvider));
    req.push((ModuleId::Starknet, SlotId::UnsignedPriority));
    req.push((ModuleId::Starknet, SlotId::TransactionLongevity));
    req.push((ModuleId::Starknet, SlotId::DisableTransactionFee));
    req.push((ModuleId::Starknet, SlotId::DisableNonceValidation));
    req.push((ModuleId::Starknet, SlotId::InvokeTxMaxNSteps));
    req.push((ModuleId::Starknet, SlotId::ValidateMaxNSteps));
    req.push((ModuleId::Starknet, SlotId::ProtocolVersion));
    req.push((ModuleId::Starknet, SlotId::ChainId));
    req.push((ModuleId::Starknet, SlotId::MaxRecursionDepth));
    req.push((ModuleId::Starknet, SlotId::ProgramHash));
    req.push((ModuleId::Starknet, SlotId::L1GasPrice));
    proof {
        assert forall|module: ModuleId, slot: SlotId| #[trigger]
            declares(module, slot) implies req@.contains((module, slot)) by {
            match slot {
                SlotId::BaseCallFilter => assert(req@[0] == (module, slot)),
                SlotId::BlockWeights => assert(req@[1] == (module, slot)),
                SlotId::BlockLength => assert(req@[2] == (module, slot)),
                SlotId::AccountId => assert(req@[3] == (module, slot)),
                SlotId::RuntimeCall => assert(req@[4] == (module, slot)),
                SlotId::Lookup => assert(req@[5] == (module, slot)),
                SlotId::Nonce => assert(req@[6] == (module, slot)),
                SlotId::Hash => assert(req@[7] == (module, slot)),
                SlotId::Hashing => assert(req@[8] == (module, slot)),
                SlotId::Block => assert(req@[9] == (module, slot)),
                SlotId::RuntimeEvent => {
                    if module is System {
                        assert(req@[10] == (module, slot));
                    } else {
                        assert(req@[27] == (module, slot));
                    }
                },
                SlotId::RuntimeOrigin => assert(req@[11] == (module, slot)),
                SlotId::BlockHashCount => assert(req@[12] == (module, slot)),
                SlotId::DbWeight => assert(req@[13] == (module, slot)),
                SlotId::Version => assert(req@[14] == (module, slot)),
                SlotId::PalletInfo => assert(req@[15] == (module, slot)),
                SlotId::OnNewAccount => assert(req@[16] == (module, slot)),
                SlotId::OnKilledAccount => assert(req@[17] == (module, slot)),
                SlotId::AccountData => assert(req@[18] == (module, slot)),
                SlotId::SystemWeightInfo => assert(req@[19] == (module, slot)),
                SlotId::SS58Prefix => assert(req@[20] == (module, slot)),
                SlotId::OnSetCode => assert(req@[21] == (module, slot)),
                SlotId::MaxConsumers => assert(req@[22] == (module, slot)),
                SlotId::AuthorityId => assert(req@[23] == (module, slot)),
                SlotId::DisabledValidators => assert(req@[24] == (module, slot)),
                SlotId::MaxAuthorities => {
                    if module is Aura {
                        assert(req@[25] == (module, slot));
                    } else {
                        assert(req@[29] == (module, slot));
                    }
                },
                SlotId::AllowMultipleBlocksPerSlot => assert(req@[26] == (module, slot)),
                SlotId::WeightInfo => {
                    if module is Grandpa {
                        assert(req@[28] == (module, slot));
                    } else {
                        assert(req@[37] == (module, slot));
                    }
                },
                SlotId::MaxSetIdSessionEntries => assert(req@[30] == (module, slot)),
                SlotId::MaxNominators => assert(req@[31] == (module, slot)),
                SlotId::KeyOwnerProof => assert(req@[32] == (module, slot)),
                SlotId::EquivocationReportSystem => assert(req@[33] == (module, slot)),
                SlotId::Moment => assert(req@[34] == (module, slot)),
                SlotId::OnTimestampSet => assert(req@[35] == (module, slot)),
                SlotId::MinimumPeriod => assert(req@[36] == (module, slot)),
                SlotId::SystemHash => assert(req@[38] == (module, slot)),
                SlotId::TimestampProvider => assert(req@[39] == (module, slot)),
                SlotId::UnsignedPriority => assert(req@[40] == (module, slot)),
                SlotId::TransactionLongevity => assert(req@[41] == (module, slot)),
                SlotId::DisableTransactionFee => assert(req@[42] == (module, slot)),
                SlotId::DisableNonceValidation => assert(req@[43] == (module, slot)),
                SlotId::InvokeTxMaxNSteps => assert(req@[44] == (module, slot)),
                SlotId::ValidateMaxNSteps => assert(req@[45] == (module, slot)),
                SlotId::ProtocolVersion => assert(req@[46] == (module, slot)),
                SlotId::ChainId => assert(req@[47] == (module, slot)),
                SlotId::MaxRecursionDepth => assert(req@[48] == (module, slot)),
                SlotId::ProgramHash => assert(req@[49] == (module, slot)),
                SlotId::L1GasPrice => assert(req@[50] == (module, slot)),
            }
        }
    }
    req
}

impl BindingSet {
    /// Check the binding set against every declared capability slot:
    /// succeeds exactly when the set is fully bound — no declared slot is
    /// missing and none is bound at the wrong kind. Any failure identifies
    /// an offending module and slot; composition must not proceed past it.
    pub fn validate(&self) -> (r: Result<(), CompositionError>)
        requires
            self.wf(),
        ensures
            r is Ok <==> self.fully_bound(),
            r matches Err(e) ==> match e {
                CompositionError::SlotMissing { module, slot } => declares(module, slot)
                    && !self.spec_has(module, slot),
                CompositionError::SlotKindMismatch { module, slot } => declares(module, slot)
                    && self.spec_has(module, slot) && kind_of(self.spec_value_of(module, slot))
                    != slot_kind(slot),
                _ => false,
            },
    {
        let req = required_list();
        let n = req.len();
        let mut i: usize = 0;
        while i < n
            invariant
                n == req@.len(),
                i <= n,
                self.wf(),
                forall|module: ModuleId, slot: SlotId|
                    #[trigger] declares(module, slot) ==> req@.contains((module, slot)),
                forall|k: int|
                    #![trigger req@[k]]
                    0 <= k < i ==> (declares(req@[k].0, req@[k].1) ==> self.spec_has(
                        req@[k].0,
                        req@[k].1,
                    ) && kind_of(self.spec_value_of(req@[k].0, req@[k].1)) == slot_kind(req@[k].1)),
            decreases n - i,
        {
            let (module, slot) = req[i];
            if is_declared(module, slot) {
                match self.resolve(module, slot) {
                    None => {
                        return Err(CompositionError::SlotMissing { module, slot });
                    },
                    Some(v) => {
                        if kind_of_value(&v) != kind_of_slot(slot) {
                            return Err(CompositionError::SlotKindMismatch { module, slot });
                        }
                    },
                }
            }
            i = i + 1;
        }
        proof {
            assert forall|module: ModuleId, slot: SlotId| #[trigger]
                declares(module, slot) implies self.spec_has(module, slot) && kind_of(
                self.spec_value_of(module, slot),
            ) == slot_kind(slot) by {
                let k = choose|k: int| 0 <= k < req@.len() && req@[k] == (module, slot);
                assert(req@[k].0 == module && req@[k].1 == slot);
            }
        }
        Ok(())
    }
}

/// Law: unique, type-correct resolution. In a well-formed, fully bound
/// binding set, every declared capability slot resolves to a value, that
/// value's kind matches the slot, and at most one binding carries the key:
/// exactly one value is resolvable per declared name.
pub proof fn lemma_unique_typed_resolution(bs: BindingSet, module: ModuleId, slot: SlotId)
    requires
        bs.wf(),
        bs.fully_bound(),
        declares(module, slot),
    ensures
        bs.spec_has(module, slot),
        kind_of(bs.spec_value_of(module, slot)) == slot_kind(slot),
        forall|i: int, j: int|
            #![trigger bs@[i], bs@[j]]
            (0 <= i < bs@.len() && 0 <= j < bs@.len() && bs@[i].module == module && bs@[i].slot
                == slot && bs@[j].module == module && bs@[j].slot == slot) ==> i == j,
{
    assert forall|i: int, j: int|
        #![trigger bs@[i], bs@[j]]
        (0 <= i < bs@.len() && 0 <= j < bs@.len() && bs@[i].module == module && bs@[i].slot == slot
            && bs@[j].module == module && bs@[j].slot == slot) implies i == j by {
        if i < j {
            assert(!(bs@[i].module == bs@[j].module && bs@[i].slot == bs@[j].slot));
        }
        if j < i {
            assert(!(bs@[j].module == bs@[i].module && bs@[j].slot == bs@[i].slot));
        }
    }
}

} // verus!
