use vstd::prelude::*;
use rand::rngs::SmallRng;
use std::num::ParseIntError;
use vstd::string::StringSliceAdditionalSpecFns;
use crate::int_parse::{error_kind_of, parse_bounded, u64_from_str_radix, ParseErrorKind};

verus! {

/// Number of low bits of a [`SecureArenaId`] that hold the slot index.
pub const ID_BITS: u32 = 32;

/// Exclusive upper bound of the random key, chosen so that a whole id
/// stays below 2^53 and survives a round trip through a JavaScript number.
pub const KEY_UPPER_BOUND: u64 = 0x20_0000;

/// 2^ID_BITS as a mathematical integer.
pub open spec fn id_modulus() -> nat {
    0x1_0000_0000
}

/// Declares `rand::rngs::SmallRng`, the generator of keys, so that it can be
/// held and passed; nothing inside it is seen.
#[verifier::external_type_specification]
#[verifier::external_body]
pub struct ExSmallRng(SmallRng);

/// Calls `rand::Rng::gen_range(low..high)` on a `SmallRng`.
/// Claimed: the result lies in `[low, high)`. Which value comes out rests on
/// the generator's state and is not stated. The call panics on an empty
/// range, which `requires` rules out.
#[verifier::external_body]
pub(crate) fn gen_range_u64(rng: &mut SmallRng, low: u64, high: u64) -> (r: u64)
    requires
        low < high,
    ensures
        low <= r < high,
{
    rand::Rng::gen_range(rng, low..high)
}

/// Why the text of an id could not be read: std's error, together with its
/// kind.
#[derive(Debug)]
pub struct ParseIdError {
    kind: ParseErrorKind,
    error: ParseIntError,
}

impl ParseIdError {
    /// The kind of the error.
    pub closed spec fn spec_kind(self) -> ParseErrorKind {
        self.kind
    }

    /// The kind of the error.
    pub fn kind(&self) -> (r: ParseErrorKind)
        ensures
            r == self.spec_kind(),
    {
        self.kind
    }

    /// The error that std's parser reported.
    pub fn into_inner(self) -> ParseIntError {
        self.error
    }
}

/// An identifier that packs a slot index (low 32 bits) together with a
/// random key (high bits), so that a stale or guessed id rarely matches.
#[derive(Debug, Clone, Copy, PartialEq, Eq, Structural)]
pub struct SecureArenaId(u64);

impl SecureArenaId {
    /// The raw 64-bit value.
    pub closed spec fn raw(self) -> u64 {
        self.0
    }

    /// An id is its raw value.
    pub proof fn lemma_from_raw_raw(self)
        ensures
            Self::from_raw_spec(self.raw()) == self,
            Self::from_raw_spec(self.raw()).raw() == self.raw(),
    {
    }

    /// The slot index that the id designates.
    pub closed spec fn spec_id(self) -> nat {
        (self.0 as nat) % id_modulus()
    }

    /// The key that must match the stored key of the slot.
    pub closed spec fn spec_key(self) -> nat {
        (self.0 as nat) / id_modulus()
    }

    /// Returns the slot index: the low `ID_BITS` bits.
    pub fn id(&self) -> (r: usize)
        ensures
            r as nat == self.spec_id(),
    {
        let v = self.0;
        let low = v & 0xFFFF_FFFF;
        assert(low == v % 0x1_0000_0000) by (bit_vector)
            requires low == v & 0xFFFF_FFFF;
        assert(low <= 0xFFFF_FFFF) by (bit_vector)
            requires low == v & 0xFFFF_FFFF;
        low as usize
    }

    /// Returns the key: the bits above `ID_BITS`.
    pub fn key(&self) -> (r: u64)
        ensures
            r as nat == self.spec_key(),
    {
        let v = self.0;
        let high = v >> ID_BITS;
        assert(high == v / 0x1_0000_0000) by (bit_vector)
            requires high == v >> 32;
        high
    }

    /// Packs `id` with a fresh random key drawn from `[0, KEY_UPPER_BOUND)`:
    /// the id is `from_parts(id, key)` for the key the generator gave.
    /// Fails when `id` does not fit in `ID_BITS` bits, and then leaves the
    /// generator untouched.
    pub fn new(id: usize, rng: &mut SmallRng) -> (r: Result<SecureArenaId, ()>)
        ensures
            r is Err <==> id as nat >= id_modulus(),
            r is Err ==> *final(rng) == *old(rng),
            r matches Ok(v) ==> {
                &&& v.spec_id() == id as nat
                &&& v.spec_key() < KEY_UPPER_BOUND
                &&& v.raw() < 0x20_0000_0000_0000
            },
    {
        let wide = id as u64;
        if wide >> ID_BITS != 0 {
            assert(wide >> 32 != 0 ==> wide >= 0x1_0000_0000) by (bit_vector);
            return Err(());
        }
        assert(wide >> 32 == 0 ==> wide < 0x1_0000_0000) by (bit_vector);
        let key = gen_range_u64(rng, 0, KEY_UPPER_BOUND);
        Ok(Self::from_parts(id, key))
    }

    /// Packs the slot index `id` with the key `key`.
    pub fn from_parts(id: usize, key: u64) -> (r: SecureArenaId)
        requires
            (id as nat) < id_modulus(),
            key < KEY_UPPER_BOUND,
        ensures
            r.spec_id() == id as nat,
            r.spec_key() == key as nat,
            r.raw() == id as nat + key as nat * id_modulus(),
            r.raw() < 0x20_0000_0000_0000,
    {
        let wide = id as u64;
        let v = wide | (key << ID_BITS);
        assert(v == wide + key * 0x1_0000_0000) by (bit_vector)
            requires
                wide < 0x1_0000_0000,
                key < 0x20_0000,
                v == wide | (key << 32);
        SecureArenaId(v)
    }

    /// Reads an id from its numeric text in `radix`.
    pub fn from_str_radix(src: &str, radix: u32) -> (r: Result<SecureArenaId, ParseIdError>)
        requires
            2 <= radix <= 36,
        ensures
            r is Ok <==> parse_bounded(src.spec_bytes(), radix as nat, u64::MAX as nat) is Some,
            r matches Ok(v) ==> parse_bounded(src.spec_bytes(), radix as nat, u64::MAX as nat)
                == Some(v.raw() as nat) && v == Self::from_raw_spec(v.raw()),
            r matches Err(e) ==> error_kind_of(
                src.spec_bytes(),
                radix as nat,
                u64::MAX as nat,
                e.spec_kind(),
            ),
    {
        match u64_from_str_radix(src, radix) {
            Ok(v) => Ok(SecureArenaId(v)),
            Err((kind, error)) => Err(ParseIdError { kind, error }),
        }
    }

    /// The id whose raw value is `v`.
    pub closed spec fn from_raw_spec(v: u64) -> SecureArenaId {
        SecureArenaId(v)
    }

    /// The number that stands for the id on the wire.
    pub fn to_raw(&self) -> (r: u64)
        ensures
            r == self.raw(),
    {
        self.0
    }

    /// The id that a number read from the wire stands for; every `u64` is
    /// accepted.
    pub fn from_raw(v: u64) -> (r: SecureArenaId)
        ensures
            r.raw() == v,
            r == Self::from_raw_spec(v),
    {
        SecureArenaId(v)
    }
}

/// Packing and unpacking agree: the slot index and the key of an id rebuild
/// its raw value, and the slot index fits in `ID_BITS` bits.
pub proof fn lemma_id_key_determine_raw(a: SecureArenaId)
    ensures
        a.raw() as nat == a.spec_id() + a.spec_key() * id_modulus(),
        a.spec_id() < id_modulus(),
{
}

} // verus!
