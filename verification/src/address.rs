//! Account and contract addresses: twenty bytes, compared byte for byte.

use vstd::prelude::*;

verus! {

/// A 20-byte address, most significant byte first.
#[derive(Clone, Copy, Debug, PartialEq, Eq, Hash)]
pub struct Address {
    pub bytes: [u8; 20],
}

/// The address that `ethers::types::H160` reads from a text, if it reads one.
pub uninterp spec fn hex_address(text: Seq<char>) -> Option<Seq<u8>>;

impl Address {
    /// The address made of the given bytes.
    pub fn from_bytes(bytes: [u8; 20]) -> (r: Address)
        ensures
            r.bytes == bytes,
    {
        Address { bytes }
    }

    /// The bytes of the address.
    pub fn to_bytes(&self) -> (r: [u8; 20])
        ensures
            r == self.bytes,
    {
        self.bytes
    }

    /// The address whose bytes are all zero.
    pub fn zero() -> (r: Address)
        ensures
            r == zero_address(),
    {
        Address { bytes: ZERO_BYTES }
    }

    /// Whether two addresses are the same address.
    pub fn same(&self, other: &Address) -> (r: bool)
        ensures
            r == (*self == *other),
    {
        let mut i: usize = 0;
        while i < 20
            invariant
                i <= 20,
                forall|j: int| 0 <= j < i ==> self.bytes[j] == other.bytes[j],
            decreases 20 - i,
        {
            if self.bytes[i] != other.bytes[i] {
                return false;
            }
            i = i + 1;
        }
        assert(self.bytes =~= other.bytes);
        true
    }

    /// Whether this is the all-zero address.
    pub fn is_zero(&self) -> (r: bool)
        ensures
            r == (*self == zero_address()),
    {
        let z = Address::zero();
        self.same(&z)
    }

    /// Reads an address from hexadecimal text, with or without a leading
    /// `0x`, as `ethers` does.
    pub fn parse(text: &str) -> (r: Option<Address>)
        ensures
            r is Some <==> hex_address(text@) is Some,
            r matches Some(a) ==> hex_address(text@) == Some(a.bytes@),
    {
        h160_from_str(text)
    }
}

/// Twenty zero bytes.
pub const ZERO_BYTES: [u8; 20] = [0, 0, 0, 0, 0, 0, 0, 0, 0, 0, 0, 0, 0, 0, 0, 0, 0, 0, 0, 0];

/// The all-zero address.
pub open spec fn zero_address() -> Address {
    Address { bytes: ZERO_BYTES }
}

/// `FromStr` of `ethers::types::H160`: the address that the text spells in
/// hexadecimal, or none where the crate rejects the text.
#[verifier::external_body]
fn h160_from_str(text: &str) -> (r: Option<Address>)
    ensures
        r is Some <==> hex_address(text@) is Some,
        r matches Some(a) ==> hex_address(text@) == Some(a.bytes@),
{
    match text.parse::<ethers::types::H160>() {
        Ok(h) => Some(Address { bytes: h.0 }),
        Err(_) => None,
    }
}

} // verus!
