//! The first position of a list at which something holds.

use vstd::prelude::*;

verus! {

/// The first position of `s` whose item meets `f`, or -1 where none does.
pub open spec fn primero_que<A>(s: Seq<A>, f: spec_fn(A) -> bool) -> int
    decreases s.len(),
{
    if s.len() == 0 {
        -1
    } else {
        let antes = primero_que(s.drop_last(), f);
        if antes >= 0 {
            antes
        } else if f(s.last()) {
            s.len() - 1
        } else {
            -1
        }
    }
}

/// `r` is the first position of `s` whose item meets `f`, or -1 where none does.
pub open spec fn es_primero_que<A>(s: Seq<A>, f: spec_fn(A) -> bool, r: int) -> bool {
    if r == -1 {
        forall|k: int| 0 <= k < s.len() ==> !f(#[trigger] s[k])
    } else {
        &&& 0 <= r < s.len()
        &&& f(s[r])
        &&& forall|k: int| 0 <= k < r ==> !f(#[trigger] s[k])
    }
}

/// [`primero_que`] is what [`es_primero_que`] describes.
pub proof fn lema_primero_que<A>(s: Seq<A>, f: spec_fn(A) -> bool)
    ensures
        es_primero_que(s, f, primero_que(s, f)),
    decreases s.len(),
{
    if s.len() > 0 {
        let antes = s.drop_last();
        lema_primero_que(antes, f);
        assert(forall|k: int| 0 <= k < antes.len() ==> antes[k] == s[k]);
        let r = primero_que(antes, f);
        if r >= 0 {
            assert(antes[r] == s[r]);
        } else {
            assert forall|k: int| 0 <= k < s.len() - 1 implies !f(#[trigger] s[k]) by {
                assert(antes[k] == s[k]);
            }
        }
    }
}

/// Only one position is the first.
pub proof fn lema_primero_unico<A>(s: Seq<A>, f: spec_fn(A) -> bool, r: int)
    requires
        es_primero_que(s, f, r),
    ensures
        r == primero_que(s, f),
{
    lema_primero_que(s, f);
    let p = primero_que(s, f);
    if p != r {
        if r == -1 {
            assert(f(s[p]));
        } else if p == -1 {
            assert(f(s[r]));
        } else if p < r {
            assert(f(s[p]));
        } else {
            assert(f(s[r]));
        }
    }
}

} // verus!
