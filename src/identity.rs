use vstd::prelude::*;

verus! {

/// An account, as the bytes of its textual address.
#[derive(Debug, PartialEq, Eq)]
pub struct Identity {
    pub key: Vec<u8>,
}

impl View for Identity {
    type V = Seq<u8>;

    open spec fn view(&self) -> Seq<u8> {
        self.key@
    }
}

impl Identity {
    pub fn new(key: Vec<u8>) -> (r: Identity)
        ensures
            r@ == key@,
    {
        Identity { key }
    }

    /// Whether both name the same account.
    pub fn same(&self, other: &Identity) -> (r: bool)
        ensures
            r == (self@ == other@),
    {
        if self.key.len() != other.key.len() {
            return false;
        }
        let n = self.key.len();
        let mut i: usize = 0;
        while i < n
            invariant
                n == self.key@.len(),
                n == other.key@.len(),
                0 <= i <= n,
                forall|j: int| 0 <= j < i ==> self.key@[j] == other.key@[j],
            decreases n - i,
        {
            if self.key[i] != other.key[i] {
                return false;
            }
            i = i + 1;
        }
        assert(self.key@ =~= other.key@);
        true
    }

    /// A copy holding the same bytes.
    pub fn duplicate(&self) -> (r: Identity)
        ensures
            r@ == self@,
    {
        let mut key: Vec<u8> = Vec::new();
        let n = self.key.len();
        let mut i: usize = 0;
        while i < n
            invariant
                n == self.key@.len(),
                0 <= i <= n,
                key@ =~= self.key@.subrange(0, i as int),
            decreases n - i,
        {
            key.push(self.key[i]);
            i = i + 1;
        }
        assert(key@ =~= self.key@);
        Identity { key }
    }
}

} // verus!
