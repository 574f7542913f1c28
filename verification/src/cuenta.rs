//! Account identifiers and their hexadecimal rendering.
use vstd::prelude::*;

verus! {

/// A 32-byte account identifier, as the contract runtime hands it out.
#[derive(Clone, Copy, Debug)]
pub struct AccountId(pub [u8; 32]);

impl AccountId {
    /// The bytes of the identifier, as a sequence.
    pub open spec fn bytes(&self) -> Seq<u8> {
        self.0@
    }
}

impl PartialEq for AccountId {
    fn eq(&self, other: &AccountId) -> (r: bool) {
        let mut i: usize = 0;
        while i < 32
            invariant
                0 <= i <= 32,
                forall|j: int| 0 <= j < i ==> self.0[j] == other.0[j],
            decreases 32 - i,
        {
            if self.0[i] != other.0[i] {
                return false;
            }
            i = i + 1;
        }
        proof {
            assert(self.0 =~= other.0);
        }
        true
    }
}

impl Eq for AccountId {}

impl vstd::std_specs::cmp::PartialEqSpecImpl for AccountId {
    open spec fn obeys_eq_spec() -> bool {
        true
    }

    open spec fn eq_spec(&self, other: &AccountId) -> bool {
        *self == *other
    }
}

/// The lowercase hexadecimal digit for a value below sixteen.
pub open spec fn cifra_hex(d: int) -> char {
    if d < 10 {
        (48 + d) as char
    } else {
        (87 + d) as char
    }
}

/// Lowercase hexadecimal text of a byte sequence: two digits per byte, high nibble first.
pub open spec fn hex_minusculas(b: Seq<u8>) -> Seq<char>
    decreases b.len(),
{
    if b.len() == 0 {
        Seq::empty()
    } else {
        hex_minusculas(b.drop_last()) + seq![cifra_hex(b.last() as int / 16), cifra_hex(b.last() as int % 16)]
    }
}

/// Calls `hex::encode` on the bytes of an account. The crate's source maps each byte to
/// two characters of the table `0123456789abcdef`, high nibble first, in order.
#[verifier::external_body]
fn hex_encode(bytes: &[u8; 32]) -> (r: String)
    ensures
        r@ == hex_minusculas(bytes@),
{
    hex::encode(bytes)
}

/// The account identifier in lowercase hexadecimal.
pub fn hex_de_cuenta(id: &AccountId) -> (r: String)
    ensures
        r@ == hex_minusculas(id.bytes()),
        r@.len() == 64,
{
    proof {
        lema_largo_hex(id.bytes());
    }
    hex_encode(&id.0)
}

/// The hexadecimal text has two characters per byte.
pub proof fn lema_largo_hex(b: Seq<u8>)
    ensures
        hex_minusculas(b).len() == 2 * b.len(),
    decreases b.len(),
{
    if b.len() > 0 {
        lema_largo_hex(b.drop_last());
    }
}

} // verus!
