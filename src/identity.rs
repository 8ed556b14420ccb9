//! Caller identities: 32-byte public keys, already authenticated by the
//! hosting environment before they reach this library.
use vstd::prelude::*;

verus! {

/// Number of bytes in an identity.
pub const IDENTITY_LEN: usize = 32;

/// A 32-byte public key that names a caller, a signer or an account.
#[derive(Clone, Copy, Debug)]
pub struct Identity {
    pub bytes: [u8; 32],
}

impl Identity {
    /// Wraps the given key bytes.
    pub fn new(bytes: [u8; 32]) -> (r: Identity)
        ensures
            r.bytes == bytes,
    {
        Identity { bytes }
    }
}

impl PartialEq for Identity {
    fn eq(&self, other: &Identity) -> (r: bool)
        ensures
            r == (*self == *other),
    {
        let mut i: usize = 0;
        while i < IDENTITY_LEN
            invariant
                0 <= i <= 32,
                forall|j: int| 0 <= j < i ==> self.bytes@[j] == other.bytes@[j],
            decreases 32 - i,
        {
            if self.bytes[i] != other.bytes[i] {
                return false;
            }
            i = i + 1;
        }
        proof {
            assert(self.bytes@ =~= other.bytes@);
            assert(self.bytes == other.bytes);
        }
        true
    }
}

/// Whether `who` occurs in `list`.
pub fn occurs_in(list: &Vec<Identity>, who: Identity) -> (r: bool)
    ensures
        r == list@.contains(who),
{
    let mut i: usize = 0;
    while i < list.len()
        invariant
            0 <= i <= list@.len(),
            forall|j: int| 0 <= j < i ==> list@[j] != who,
        decreases list@.len() - i,
    {
        if list[i] == who {
            return true;
        }
        i = i + 1;
    }
    false
}

/// A copy of `list`, element for element.
pub fn copy_all(list: &Vec<Identity>) -> (r: Vec<Identity>)
    ensures
        r@ == list@,
{
    let mut out: Vec<Identity> = Vec::new();
    let mut i: usize = 0;
    while i < list.len()
        invariant
            0 <= i <= list@.len(),
            out@ == list@.subrange(0, i as int),
        decreases list@.len() - i,
    {
        out.push(list[i]);
        proof {
            assert(list@.subrange(0, i + 1) =~= list@.subrange(0, i as int).push(list@[i as int]));
        }
        i = i + 1;
    }
    proof {
        assert(list@.subrange(0, list@.len() as int) =~= list@);
    }
    out
}

impl vstd::std_specs::cmp::PartialEqSpecImpl for Identity {
    open spec fn obeys_eq_spec() -> bool {
        true
    }

    open spec fn eq_spec(&self, other: &Identity) -> bool {
        *self == *other
    }
}

impl Eq for Identity {
}

} // verus!
