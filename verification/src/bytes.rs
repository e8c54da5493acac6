//! Small helpers on byte strings.

use vstd::prelude::*;

verus! {

/// The bytes of `left` followed by those of `right`.
pub fn join(left: &[u8], right: &[u8]) -> (joined: Vec<u8>)
    ensures
        joined@ == left@ + right@,
{
    let mut joined: Vec<u8> = Vec::new();
    let mut i: usize = 0;
    while i < left.len()
        invariant
            i <= left@.len(),
            joined@ == left@.take(i as int),
        decreases left@.len() - i,
    {
        joined.push(left[i]);
        proof {
            assert(joined@ =~= left@.take(i + 1));
        }
        i = i + 1;
    }
    let mut j: usize = 0;
    proof {
        assert(joined@ =~= left@ + right@.take(0));
    }
    while j < right.len()
        invariant
            j <= right@.len(),
            joined@ == left@ + right@.take(j as int),
        decreases right@.len() - j,
    {
        joined.push(right[j]);
        proof {
            assert(joined@ =~= left@ + right@.take(j + 1));
        }
        j = j + 1;
    }
    proof {
        assert(right@.take(j as int) =~= right@);
    }
    joined
}

/// A copy of `bytes`.
pub fn copy(bytes: &[u8]) -> (copied: Vec<u8>)
    ensures
        copied@ == bytes@,
{
    let empty: Vec<u8> = Vec::new();
    let copied = join(empty.as_slice(), bytes);
    proof {
        assert(copied@ =~= bytes@);
    }
    copied
}

/// Whether two byte strings are the same.
pub fn same(left: &[u8], right: &[u8]) -> (equal: bool)
    ensures
        equal == (left@ == right@),
{
    if left.len() != right.len() {
        return false;
    }
    let mut i: usize = 0;
    while i < left.len()
        invariant
            i <= left@.len(),
            left@.len() == right@.len(),
            left@.take(i as int) == right@.take(i as int),
        decreases left@.len() - i,
    {
        if left[i] != right[i] {
            return false;
        }
        proof {
            assert(left@.take(i + 1) =~= left@.take(i as int).push(left@[i as int]));
            assert(right@.take(i + 1) =~= right@.take(i as int).push(right@[i as int]));
        }
        i = i + 1;
    }
    proof {
        assert(left@.take(i as int) =~= left@);
        assert(right@.take(i as int) =~= right@);
    }
    true
}

/// Appends the bytes of `more` to `bytes`.
pub fn append(bytes: &mut Vec<u8>, more: &[u8])
    ensures
        final(bytes)@ == old(bytes)@ + more@,
{
    let mut i: usize = 0;
    proof {
        assert(bytes@ =~= old(bytes)@ + more@.take(0));
    }
    while i < more.len()
        invariant
            i <= more@.len(),
            bytes@ == old(bytes)@ + more@.take(i as int),
        decreases more@.len() - i,
    {
        bytes.push(more[i]);
        proof {
            assert(bytes@ =~= old(bytes)@ + more@.take(i + 1));
        }
        i = i + 1;
    }
    proof {
        assert(more@.take(i as int) =~= more@);
    }
}

} // verus!
