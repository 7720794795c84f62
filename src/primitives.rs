//! Fixed-width values of the chain: 256-bit integers, 32-byte hashes and
//! 20-byte addresses.
use vstd::prelude::*;

verus! {

/// Two to the power 128, the weight of the upper half of a 256-bit value.
pub open spec fn pow2_128() -> nat {
    0x1_0000_0000_0000_0000_0000_0000_0000_0000nat
}

/// An unsigned 256-bit integer, held as its upper and lower 128 bits.
#[derive(Clone, Copy, Debug, PartialEq, Eq, Structural, Hash)]
pub struct U256 {
    pub hi: u128,
    pub lo: u128,
}

impl View for U256 {
    type V = nat;

    open spec fn view(&self) -> nat {
        self.hi as nat * pow2_128() + self.lo as nat
    }
}

impl U256 {
    /// The value zero.
    pub fn zero() -> (r: U256)
        ensures
            r@ == 0,
            r.hi == 0 && r.lo == 0,
    {
        U256 { hi: 0, lo: 0 }
    }

    /// The value `v`.
    pub fn from_u64(v: u64) -> (r: U256)
        ensures
            r@ == v as nat,
            r.hi == 0 && r.lo == v as u128,
    {
        U256 { hi: 0, lo: v as u128 }
    }

    /// The value `v`.
    pub fn from_u128(v: u128) -> (r: U256)
        ensures
            r@ == v as nat,
            r.hi == 0 && r.lo == v,
    {
        U256 { hi: 0, lo: v }
    }

    /// The value `hi * 2^128 + lo`.
    pub fn from_halves(hi: u128, lo: u128) -> (r: U256)
        ensures
            r@ == hi as nat * pow2_128() + lo as nat,
            r.hi == hi && r.lo == lo,
    {
        U256 { hi, lo }
    }

    /// Whether the value is zero.
    pub fn is_zero(&self) -> (r: bool)
        ensures
            r == (self@ == 0),
    {
        proof {
            if self.hi > 0 {
                assert(self.hi as nat * pow2_128() >= pow2_128()) by (nonlinear_arith)
                    requires self.hi > 0;
            }
        }
        self.hi == 0 && self.lo == 0
    }
}

/// A 32-byte hash, held as its first and last 16 bytes read big-endian.
#[derive(Clone, Copy, Debug, PartialEq, Eq, Structural, Hash)]
pub struct H256 {
    pub hi: u128,
    pub lo: u128,
}

/// The first 16 bytes of the Keccak-256 hash of zero-length bytecode.
pub const KECCAK_EMPTY_HI: u128 = 0xc5d2_4601_86f7_233c_927e_7db2_dcc7_03c0;

/// The last 16 bytes of the Keccak-256 hash of zero-length bytecode.
pub const KECCAK_EMPTY_LO: u128 = 0xe500_b653_ca82_273b_7bfa_d804_5d85_a470;

/// The hash of zero-length bytecode: an account whose code hash is this one
/// has no code.
pub open spec fn keccak_empty() -> H256 {
    H256 { hi: KECCAK_EMPTY_HI, lo: KECCAK_EMPTY_LO }
}

impl H256 {
    /// The hash whose first 16 bytes read big-endian are `hi` and whose last
    /// 16 are `lo`.
    pub fn from_halves(hi: u128, lo: u128) -> (r: H256)
        ensures
            r.hi == hi && r.lo == lo,
    {
        H256 { hi, lo }
    }

    /// The hash of zero-length bytecode.
    pub fn keccak_empty() -> (r: H256)
        ensures
            r == keccak_empty(),
    {
        H256 { hi: KECCAK_EMPTY_HI, lo: KECCAK_EMPTY_LO }
    }

    /// Whether this is the hash of zero-length bytecode.
    pub fn is_keccak_empty(&self) -> (r: bool)
        ensures
            r == (*self == keccak_empty()),
    {
        self.hi == KECCAK_EMPTY_HI && self.lo == KECCAK_EMPTY_LO
    }
}

/// A 20-byte account address.
#[derive(Clone, Copy, Debug, PartialEq, Eq, Hash)]
pub struct Address {
    pub bytes: [u8; 20],
}

} // verus!
