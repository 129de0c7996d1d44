use vstd::prelude::*;

verus! {

/// An amount of the chain's native currency.
pub type Balance = u128;

/// Tells whether two 32-byte values hold the same bytes.
fn bytes_equal(a: &[u8; 32], b: &[u8; 32]) -> (r: bool)
    ensures
        r == (*a == *b),
{
    let mut i: usize = 0;
    while i < 32
        invariant
            i <= 32,
            forall|j: int| 0 <= j < i ==> a@[j] == b@[j],
        decreases 32 - i,
    {
        if a[i] != b[i] {
            return false;
        }
        i = i + 1;
    }
    assert(*a =~= *b);
    true
}

/// The address of an account or of a deployed contract.
#[derive(Clone, Copy, Debug)]
pub struct AccountId(pub [u8; 32]);

impl View for AccountId {
    type V = Seq<u8>;

    open spec fn view(&self) -> Seq<u8> {
        self.0@
    }
}

impl PartialEq for AccountId {
    fn eq(&self, other: &Self) -> (r: bool) {
        bytes_equal(&self.0, &other.0)
    }
}

impl Eq for AccountId {

}

impl vstd::std_specs::cmp::PartialEqSpecImpl for AccountId {
    open spec fn obeys_eq_spec() -> bool {
        true
    }

    open spec fn eq_spec(&self, other: &Self) -> bool {
        *self == *other
    }
}

impl AccountId {
    /// Two addresses with the same bytes are the same address.
    pub proof fn lemma_view_injective(a: AccountId, b: AccountId)
        requires
            a@ == b@,
        ensures
            a == b,
    {
        assert(a.0 =~= b.0);
    }
}

impl Default for AccountId {
    /// The address of thirty-two zero bytes.
    fn default() -> (r: AccountId)
        ensures
            r@ == Seq::new(32, |i: int| 0u8),
    {
        let r = AccountId([0u8; 32]);
        assert(r@ =~= Seq::new(32, |i: int| 0u8));
        r
    }
}

/// The identifier of a contract blueprint: the hash of its code.
#[derive(Clone, Copy, Debug)]
pub struct CodeHash(pub [u8; 32]);

impl View for CodeHash {
    type V = Seq<u8>;

    open spec fn view(&self) -> Seq<u8> {
        self.0@
    }
}

impl Default for CodeHash {
    /// The hash of thirty-two zero bytes.
    fn default() -> (r: CodeHash)
        ensures
            r@ == Seq::new(32, |i: int| 0u8),
    {
        let r = CodeHash([0u8; 32]);
        assert(r@ =~= Seq::new(32, |i: int| 0u8));
        r
    }
}

impl PartialEq for CodeHash {
    fn eq(&self, other: &Self) -> (r: bool) {
        bytes_equal(&self.0, &other.0)
    }
}

impl Eq for CodeHash {

}

impl vstd::std_specs::cmp::PartialEqSpecImpl for CodeHash {
    open spec fn obeys_eq_spec() -> bool {
        true
    }

    open spec fn eq_spec(&self, other: &Self) -> bool {
        *self == *other
    }
}

} // verus!
