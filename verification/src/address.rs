use vstd::prelude::*;

verus! {

broadcast use vstd::array::group_array_axioms;

/// Width of a ledger identity, in bytes.
pub const ADDRESS_LEN: usize = 32;

/// Compare two byte arrays for equality.
pub(crate) fn bytes_eq<const N: usize>(a: &[u8; N], b: &[u8; N]) -> (r: bool)
    ensures
        r <==> a@ == b@,
{
    let mut i: usize = 0;
    while i < N
        invariant
            i <= N,
            forall|j: int| 0 <= j < i ==> a@[j] == b@[j],
        decreases N - i,
    {
        if a[i] != b[i] {
            proof {
                assert(a@[i as int] != b@[i as int]);
            }
            return false;
        }
        i += 1;
    }
    proof {
        assert(a@ =~= b@);
    }
    true
}

/// A fixed-width ledger identity: a party, an account, an asset or a program.
///
/// The escrow never interprets the bytes; it only stores and compares them.
#[derive(Clone, Copy, Debug)]
#[verifier::ext_equal]
pub struct Address {
    bytes: [u8; ADDRESS_LEN],
}

impl View for Address {
    type V = Seq<u8>;

    closed spec fn view(&self) -> Seq<u8> {
        self.bytes@
    }
}

impl PartialEq for Address {
    fn eq(&self, other: &Address) -> (r: bool) {
        bytes_eq(&self.bytes, &other.bytes)
    }
}

impl vstd::std_specs::cmp::PartialEqSpecImpl for Address {
    open spec fn obeys_eq_spec() -> bool {
        true
    }

    open spec fn eq_spec(&self, other: &Address) -> bool {
        self@ == other@
    }
}

impl Address {
    /// Wrap raw identity bytes.
    pub fn new(bytes: [u8; ADDRESS_LEN]) -> (r: Address)
        ensures
            r@ == bytes@,
    {
        Address { bytes }
    }

    /// The raw identity bytes.
    pub fn to_bytes(&self) -> (r: [u8; ADDRESS_LEN])
        ensures
            r@ == self@,
    {
        self.bytes
    }
}

/// Two identities are the same value exactly when they hold the same bytes.
pub proof fn lemma_address_eq_view(a: Address, b: Address)
    ensures
        (a == b) <==> (a@ == b@),
{
    if a@ == b@ {
        assert(a.bytes =~= b.bytes);
        assert(a =~= b);
    }
}

} // verus!
