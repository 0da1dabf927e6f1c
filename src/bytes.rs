use vstd::prelude::*;

use crate::types::{has_glob, has_multiple_globs, GLOB};

verus! {

/// Whether `i` is the position of the first `b` in `s`.
pub open spec fn is_first(s: Seq<u8>, b: u8, i: int) -> bool {
    0 <= i < s.len() && s[i] == b && forall|k: int| 0 <= k < i ==> s[k] != b
}

/// The position of the first `b` in `s`, if there is one.
pub open spec fn first_of(s: Seq<u8>, b: u8) -> Option<int> {
    if exists|i: int| is_first(s, b, i) {
        Some(choose|i: int| is_first(s, b, i))
    } else {
        None
    }
}

proof fn lemma_first_unique(s: Seq<u8>, b: u8, i: int)
    requires
        is_first(s, b, i),
    ensures
        first_of(s, b) == Some(i),
{
    let j = choose|j: int| is_first(s, b, j);
    assert(is_first(s, b, j));
    if j < i {
        assert(s[j] != b);
    } else if i < j {
        assert(s[i] != b);
    }
}

/// The position of the first `b` in `s`.
pub fn find_byte(s: &[u8], b: u8) -> (r: Option<usize>)
    ensures
        match r {
            Some(i) => is_first(s@, b, i as int),
            None => forall|k: int| 0 <= k < s@.len() ==> s@[k] != b,
        },
        r matches Some(i) ==> first_of(s@, b) == Some(i as int),
        r is None ==> first_of(s@, b) is None,
{
    let mut i: usize = 0;
    while i < s.len()
        invariant
            i <= s@.len(),
            forall|k: int| 0 <= k < i ==> s@[k] != b,
        decreases s@.len() - i,
    {
        if s[i] == b {
            proof {
                lemma_first_unique(s@, b, i as int);
            }
            return Some(i);
        }
        i = i + 1;
    }
    assert(!exists|j: int| is_first(s@, b, j));
    None
}

/// How many `*` `s` holds, counting no further than two.
pub fn glob_count(s: &[u8]) -> (r: u8)
    ensures
        r <= 2,
        (r == 0) == !has_glob(s@),
        (r == 2) == has_multiple_globs(s@),
{
    let mut count: u8 = 0;
    let mut first: usize = 0;
    let mut i: usize = 0;
    while i < s.len()
        invariant
            i <= s@.len(),
            count <= 1,
            count == 0 ==> forall|k: int| 0 <= k < i ==> s@[k] != GLOB,
            count == 1 ==> first < i && s@[first as int] == GLOB,
            count == 1 ==> forall|k: int| 0 <= k < i && k != first ==> s@[k] != GLOB,
        decreases s@.len() - i,
    {
        if s[i] == GLOB {
            if count == 1 {
                assert(s@[first as int] == GLOB && s@[i as int] == GLOB);
                return 2;
            }
            count = 1;
            first = i;
        }
        i = i + 1;
    }
    if count == 1 {
        assert(s@[first as int] == GLOB);
        assert(!has_multiple_globs(s@)) by {
            assert forall|a: int, c: int| 0 <= a < c < s@.len() && s@[a] == GLOB implies s@[c] != GLOB by {
                assert(a == first);
            }
        }
    }
    count
}

/// Whether two byte strings are equal.
pub fn bytes_equal(a: &[u8], b: &[u8]) -> (r: bool)
    ensures
        r == (a@ == b@),
{
    if a.len() != b.len() {
        return false;
    }
    let mut i: usize = 0;
    while i < a.len()
        invariant
            i <= a@.len(),
            a@.len() == b@.len(),
            forall|k: int| 0 <= k < i ==> a@[k] == b@[k],
        decreases a@.len() - i,
    {
        if a[i] != b[i] {
            return false;
        }
        i = i + 1;
    }
    assert(a@ =~= b@);
    true
}

/// Appends `s[from..to]` to `v`.
pub fn push_range(v: &mut Vec<u8>, s: &[u8], from: usize, to: usize)
    requires
        from <= to <= s@.len(),
    ensures
        final(v)@ == old(v)@ + s@.subrange(from as int, to as int),
{
    let mut i: usize = from;
    while i < to
        invariant
            from <= i <= to <= s@.len(),
            v@ == old(v)@ + s@.subrange(from as int, i as int),
        decreases to - i,
    {
        v.push(s[i]);
        assert(s@.subrange(from as int, i + 1) =~= s@.subrange(from as int, i as int).push(s@[i as int]));
        i = i + 1;
    }
}

} // verus!
