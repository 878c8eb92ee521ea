//! Bounded buffers: the newest entries stay.

use vstd::prelude::*;

verus! {

/// The last `n` entries of `s`.
pub open spec fn last_of<T>(s: Seq<T>, n: nat) -> Seq<T> {
    if s.len() <= n {
        s
    } else {
        s.skip(s.len() - n)
    }
}

/// The first `n` entries of `s`.
pub open spec fn first_of<T>(s: Seq<T>, n: nat) -> Seq<T> {
    if s.len() <= n {
        s
    } else {
        s.take(n as int)
    }
}

/// Drops the oldest entries past `cap`.
pub fn keep_last<T>(v: &mut Vec<T>, cap: usize)
    ensures
        final(v)@ == last_of(old(v)@, cap as nat),
{
    while v.len() > cap
        invariant
            v@ == old(v)@ || v@.len() >= cap,
            v@.len() <= old(v)@.len(),
            v@ == old(v)@.skip(old(v)@.len() - v@.len()),
        decreases v.len(),
    {
        let ghost before = v@;
        let _ = v.remove(0);
        assert(v@ =~= old(v)@.skip(old(v)@.len() - v@.len()));
    }
    assert(v@ =~= last_of(old(v)@, cap as nat));
}

/// Keeping the last `n` entries commutes with looking at what each of them says.
pub proof fn lemma_last_of_map<T, U>(s: Seq<T>, n: nat, f: spec_fn(T) -> U)
    ensures
        last_of(s, n).map_values(f) == last_of(s.map_values(f), n),
{
    assert(last_of(s, n).map_values(f) =~= last_of(s.map_values(f), n));
}

/// Keeping the first `n` entries commutes with looking at what each of them says.
pub proof fn lemma_first_of_map<T, U>(s: Seq<T>, n: nat, f: spec_fn(T) -> U)
    ensures
        first_of(s, n).map_values(f) == first_of(s.map_values(f), n),
{
    assert(first_of(s, n).map_values(f) =~= first_of(s.map_values(f), n));
}

} // verus!
