//! Lexicographic order on byte strings, the order in which an ordered store
//! walks its keys.

use vstd::prelude::*;

verus! {

/// `a` sorts strictly before `b`: they agree on some prefix, after which
/// either `a` ends and `b` goes on, or `a` holds the smaller byte.
pub open spec fn sorts_before(a: Seq<u8>, b: Seq<u8>) -> bool {
    exists|i: int| diverge_at(a, b, i)
}

/// `a` and `b` agree on their first `i` bytes and `a` is the smaller from
/// there.
pub open spec fn diverge_at(a: Seq<u8>, b: Seq<u8>, i: int) -> bool {
    &&& 0 <= i <= a.len()
    &&& i < b.len()
    &&& a.subrange(0, i) == b.subrange(0, i)
    &&& (i == a.len() || a[i] < b[i])
}

/// Where the first bytes differ, they alone decide the order.
pub proof fn lemma_first_byte_decides(a: Seq<u8>, b: Seq<u8>)
    requires
        a.len() > 0,
        b.len() > 0,
        a[0] != b[0],
    ensures
        sorts_before(a, b) <==> a[0] < b[0],
{
    if a[0] < b[0] {
        assert(a.subrange(0, 0) =~= b.subrange(0, 0));
        assert(diverge_at(a, b, 0));
    }
    if sorts_before(a, b) {
        let i = choose|i: int| diverge_at(a, b, i);
        if i > 0 {
            assert(a.subrange(0, i)[0] == b.subrange(0, i)[0]);
        }
    }
}

/// A shared first byte does not take part in the order: two strings behind
/// the same byte sort as the strings themselves do.
pub proof fn lemma_shared_first_byte(head: u8, a: Seq<u8>, b: Seq<u8>)
    ensures
        sorts_before(seq![head] + a, seq![head] + b) <==> sorts_before(a, b),
{
    let ha = seq![head] + a;
    let hb = seq![head] + b;
    if sorts_before(a, b) {
        let i = choose|i: int| diverge_at(a, b, i);
        assert(ha.subrange(0, i + 1) =~= seq![head] + a.subrange(0, i));
        assert(hb.subrange(0, i + 1) =~= seq![head] + b.subrange(0, i));
        if i < a.len() {
            assert(ha[i + 1] == a[i]);
        }
        assert(hb[i + 1] == b[i]);
        assert(diverge_at(ha, hb, i + 1));
    }
    if sorts_before(ha, hb) {
        let i = choose|i: int| diverge_at(ha, hb, i);
        if i == 0 {
            assert(ha[0] == head && hb[0] == head);
            assert(false);
        }
        assert(a.subrange(0, i - 1) =~= ha.subrange(0, i).subrange(1, i));
        assert(b.subrange(0, i - 1) =~= hb.subrange(0, i).subrange(1, i));
        if i < ha.len() {
            assert(ha[i] == a[i - 1]);
        }
        assert(hb[i] == b[i - 1]);
        assert(diverge_at(a, b, i - 1));
    }
}

} // verus!
