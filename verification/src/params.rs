//! The parameter table: the fixed, named constants that govern the
//! collaborator modules' interaction.
//!
//! The table is pure data, read-only after composition. Each entry has
//! exactly one authoritative value; the capability bindings draw their
//! concrete values from here.

use vstd::prelude::*;

verus! {

/// Two to the 124th power: the bound on the high limb of a [`Felt`].
pub const FELT_HI_BOUND: u128 = 0x10000000000000000000000000000000;

/// A 252-bit field-element identifier (a chain id or a program hash),
/// held as two machine words: the value is `hi * 2^128 + lo`.
#[derive(Clone, Copy, Debug, PartialEq, Eq, Structural)]
pub struct Felt {
    /// The upper 124 bits of the identifier.
    pub hi: u128,
    /// The lower 128 bits of the identifier.
    pub lo: u128,
}

impl Felt {
    /// A felt fits in 252 bits: its high limb stays under `2^124`.
    pub open spec fn wf(self) -> bool {
        self.hi < FELT_HI_BOUND
    }

    /// The identifier as one unbounded integer.
    pub open spec fn spec_value(self) -> int {
        self.hi * 0x100000000000000000000000000000000 + self.lo
    }

    /// A felt from its two limbs.
    pub fn new(hi: u128, lo: u128) -> (f: Felt)
        requires
            hi < FELT_HI_BOUND,
        ensures
            f == (Felt { hi, lo }),
            f.wf(),
    {
        Felt { hi, lo }
    }
}

/// The gas price record the execution engine is configured with: an
/// optional price in the native token and a price in wei.
#[derive(Clone, Copy, Debug, PartialEq, Eq)]
pub struct ResourcePrice {
    /// Price of one gas unit in the native token, when one is quoted.
    pub price_in_strk: Option<u128>,
    /// Price of one gas unit in wei.
    pub price_in_wei: u128,
}

/// The parameter table. Every field is one named constant with exactly one
/// authoritative value; the capability bindings of the collaborator modules
/// read from here and nowhere else.
#[derive(Clone, Copy, Debug, PartialEq, Eq)]
pub struct Params {
    /// Priority given to unsigned transactions by the execution engine.
    pub unsigned_priority: u64,
    /// How long a transaction stays valid, in blocks.
    pub transaction_longevity: u64,
    /// Step limit for executing an invoke transaction.
    pub invoke_tx_max_n_steps: u32,
    /// Step limit for validating a transaction.
    pub validate_max_n_steps: u32,
    /// Protocol version the execution engine reports.
    pub protocol_version: u8,
    /// The chain's identifier.
    pub chain_id: Felt,
    /// Recursion depth limit for contract execution.
    pub max_recursion_depth: u32,
    /// Hash of the operating-system program the execution engine proves.
    pub program_hash: Felt,
    /// Gas price charged for declared resources.
    pub l1_gas_price: ResourcePrice,
    /// Whether transaction fees are disabled.
    pub disable_transaction_fee: bool,
    /// Whether nonce validation is disabled.
    pub disable_nonce_validation: bool,
    /// Upper bound on the authority set, shared by authoring and finality.
    pub max_authorities: u32,
    /// Whether one authoring slot may carry more than one block.
    pub allow_multiple_blocks_per_slot: bool,
    /// How many session entries the finality module keeps per voter-set id.
    pub max_set_id_session_entries: u64,
    /// Upper bound on nominators in the finality module.
    pub max_nominators: u32,
    /// Duration of one authoring slot, in milliseconds.
    pub slot_duration_ms: u64,
    /// Minimum period between block timestamps, in milliseconds.
    pub minimum_period_ms: u64,
    /// Upper bound on consumer references per account.
    pub max_consumers: u32,
}

impl Params {
    /// The table's invariant: the identifiers fit in a felt, and the
    /// timestamp module's minimum period is exactly half the authoring
    /// slot duration, so that a block timestamp can always be set once
    /// per slot.
    pub open spec fn wf(self) -> bool {
        &&& self.chain_id.wf()
        &&& self.program_hash.wf()
        &&& self.minimum_period_ms == self.slot_duration_ms / 2
    }
}

/// The authoritative parameter values of this runtime.
pub open spec fn spec_default_params() -> Params {
    Params {
        unsigned_priority: 0x100000,
        transaction_longevity: u64::MAX,
        invoke_tx_max_n_steps: 1000000,
        validate_max_n_steps: 1000000,
        protocol_version: 0,
        chain_id: Felt { hi: 0, lo: 0x4d4144415241 },
        max_recursion_depth: 50,
        program_hash: Felt {
            hi: 0x41fc2a467ef8649580631912517edca,
            lo: 0xb7674173f1dbfa2e9b64fbcd82bc4d79,
        },
        l1_gas_price: ResourcePrice { price_in_strk: None, price_in_wei: 10 },
        disable_transaction_fee: false,
        disable_nonce_validation: false,
        max_authorities: 32,
        allow_multiple_blocks_per_slot: false,
        max_set_id_session_entries: 0,
        max_nominators: 1000,
        slot_duration_ms: 6000,
        minimum_period_ms: 3000,
        max_consumers: 16,
    }
}

/// The authoritative parameter table of this runtime: the unsigned-priority
/// and longevity values of the execution engine, its step and recursion
/// limits, the chain identifier (the ASCII bytes of the chain's name as a
/// felt), the operating-system program hash, the gas price, the authority
/// and nominator limits, and the slot timing.
pub fn default_params() -> (p: Params)
    ensures
        p == spec_default_params(),
        p.wf(),
{
    Params {
        unsigned_priority: 0x100000,
        transaction_longevity: u64::MAX,
        invoke_tx_max_n_steps: 1000000,
        validate_max_n_steps: 1000000,
        protocol_version: 0,
        chain_id: Felt::new(0, 0x4d4144415241),
        max_recursion_depth: 50,
        program_hash: Felt::new(
            0x41fc2a467ef8649580631912517edca,
            0xb7674173f1dbfa2e9b64fbcd82bc4d79,
        ),
        l1_gas_price: ResourcePrice { price_in_strk: None, price_in_wei: 10 },
        disable_transaction_fee: false,
        disable_nonce_validation: false,
        max_authorities: 32,
        allow_multiple_blocks_per_slot: false,
        max_set_id_session_entries: 0,
        max_nominators: 1000,
        slot_duration_ms: 6000,
        minimum_period_ms: 3000,
        max_consumers: 16,
    }
}

} // verus!
