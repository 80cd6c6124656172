//! Actor addresses, held in their canonical byte encoding.

use vstd::prelude::*;

verus! {

/// The unsigned LEB128 encoding of `n`: seven bits per byte, low bits first,
/// the top bit set on every byte but the last.
pub open spec fn leb128(n: nat) -> Seq<u8>
    decreases n,
{
    if n < 128 {
        seq![n as u8]
    } else {
        seq![(n % 128 + 128) as u8] + leb128(n / 128)
    }
}

/// The encoded bytes of the ID address `id`: the protocol byte 0, then the
/// LEB128 encoding of `id`.
pub open spec fn id_address_bytes(id: u64) -> Seq<u8> {
    seq![0u8] + leb128(id as nat)
}

/// Different numbers have different LEB128 encodings.
pub proof fn lemma_leb128_is_injective(a: nat, b: nat)
    requires
        leb128(a) == leb128(b),
    ensures
        a == b,
    decreases a,
{
    let first_a: u8 = if a < 128 { a as u8 } else { (a % 128 + 128) as u8 };
    let first_b: u8 = if b < 128 { b as u8 } else { (b % 128 + 128) as u8 };
    assert(leb128(a)[0] == first_a);
    assert(leb128(b)[0] == first_b);
    if a >= 128 && b >= 128 {
        assert(leb128(a / 128) =~= leb128(a).subrange(1, leb128(a).len() as int));
        assert(leb128(b / 128) =~= leb128(b).subrange(1, leb128(b).len() as int));
        lemma_leb128_is_injective(a / 128, b / 128);
        assert(a % 128 == b % 128);
        assert(a == 128 * (a / 128) + a % 128);
        assert(b == 128 * (b / 128) + b % 128);
    }
}

/// Different identifiers have different ID addresses.
pub proof fn lemma_id_addresses_are_distinct(a: u64, b: u64)
    requires
        a != b,
    ensures
        id_address_bytes(a) != id_address_bytes(b),
{
    if id_address_bytes(a) == id_address_bytes(b) {
        assert(leb128(a as nat) =~= id_address_bytes(a).subrange(
            1,
            id_address_bytes(a).len() as int,
        ));
        assert(leb128(b as nat) =~= id_address_bytes(b).subrange(
            1,
            id_address_bytes(b).len() as int,
        ));
        lemma_leb128_is_injective(a as nat, b as nat);
    }
}

/// An actor address as its encoded bytes: one protocol byte, then the payload.
#[derive(Clone, Debug, PartialEq, Eq)]
pub struct Address {
    pub bytes: Vec<u8>,
}

impl View for Address {
    type V = Seq<u8>;

    open spec fn view(&self) -> Seq<u8> {
        self.bytes@
    }
}

/// Calls `fvm_shared::address::Address::new_id` and `to_bytes` on the result.
/// The contract claims the encoding that `Payload::to_bytes` writes for an ID
/// payload: the protocol byte 0 followed by the unsigned varint of `id`.
#[verifier::external_body]
fn id_address_encoding(id: u64) -> (bytes: Vec<u8>)
    ensures
        bytes@ == id_address_bytes(id),
{
    fvm_shared::address::Address::new_id(id).to_bytes()
}

impl Address {
    /// The address of the actor with the numeric identifier `id`.
    pub fn new_id(id: u64) -> (addr: Address)
        ensures
            addr@ == id_address_bytes(id),
    {
        Address { bytes: id_address_encoding(id) }
    }

    /// Whether the two addresses have the same bytes.
    pub fn same_as(&self, other: &Address) -> (same: bool)
        ensures
            same == (self@ == other@),
    {
        let same = self.bytes == other.bytes;
        proof {
            if same {
                assert(self.bytes@ =~= other.bytes@);
            }
        }
        same
    }

    /// A copy of the address.
    pub fn duplicate(&self) -> (addr: Address)
        ensures
            addr@ == self@,
    {
        Address { bytes: self.bytes.clone() }
    }
}

} // verus!
