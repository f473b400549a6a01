//! Account identities and their hexadecimal rendering.

use vstd::prelude::*;

verus! {

/// An opaque, fixed-size account reference: thirty-two bytes.
#[derive(Clone, Copy, Debug)]
pub struct AccountId {
    pub bytes: [u8; 32],
}

impl PartialEq for AccountId {
    fn eq(&self, o: &AccountId) -> (r: bool) {
        let mut i: usize = 0;
        while i < 32
            invariant
                0 <= i <= 32,
                forall|k: int| 0 <= k < i ==> self.bytes[k] == o.bytes[k],
            decreases 32 - i,
        {
            if self.bytes[i] != o.bytes[i] {
                return false;
            }
            i = i + 1;
        }
        assert(self.bytes =~= o.bytes);
        true
    }
}

impl vstd::std_specs::cmp::PartialEqSpecImpl for AccountId {
    open spec fn obeys_eq_spec() -> bool {
        true
    }

    open spec fn eq_spec(&self, o: &AccountId) -> bool {
        *self == *o
    }
}

impl Eq for AccountId {}

impl From<[u8; 32]> for AccountId {
    fn from(bytes: [u8; 32]) -> (r: AccountId) {
        AccountId { bytes }
    }
}

impl vstd::std_specs::convert::FromSpecImpl<[u8; 32]> for AccountId {
    open spec fn obeys_from_spec() -> bool {
        true
    }

    open spec fn from_spec(bytes: [u8; 32]) -> AccountId {
        AccountId { bytes }
    }
}

/// The lowercase hexadecimal digit for a value below sixteen.
pub open spec fn digito_hex(n: u8) -> char {
    if n < 10 {
        (n + 48) as char
    } else {
        (n + 87) as char
    }
}

/// Two lowercase hexadecimal digits per byte, high nibble first.
pub open spec fn hex_de(b: Seq<u8>) -> Seq<char>
    decreases b.len(),
{
    if b.len() == 0 {
        Seq::empty()
    } else {
        seq![digito_hex(b[0] / 16), digito_hex(b[0] % 16)] + hex_de(b.drop_first())
    }
}

/// Relies on hex::encode: each byte becomes two lowercase hexadecimal
/// digits, the high nibble first, in the order of the bytes.
#[verifier::external_body]
pub(crate) fn codificar_hex(bytes: &[u8; 32]) -> (r: String)
    ensures
        r@ == hex_de(bytes@),
{
    hex::encode(bytes)
}

} // verus!
