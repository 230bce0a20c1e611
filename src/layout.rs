//! Positions in a packed scene buffer: every run of seven logical bytes
//! takes eight packed bytes, the first of them reserved. Lemmas on how
//! writes to logical slots of such a buffer combine.

use vstd::prelude::*;

use crate::parameters::{LOGICAL_LEN, SCENE_DUMP_LEN};

verus! {

/// Position in the packed buffer of logical byte `i`: each run of seven
/// logical bytes takes eight packed bytes, the first of which is reserved.
pub open spec fn data_dump_index(i: int) -> int {
    (i / 7) * 8 + (i % 7) + 1
}

/// Logical byte `k` of a packed buffer.
pub open spec fn scene_byte(raw: Seq<u8>, k: int) -> u8 {
    raw[data_dump_index(k)]
}

/// The logical bytes `k..k + w` of a packed buffer are all 0.
pub open spec fn slot_is_clear(d: Seq<u8>, k: int, w: int) -> bool {
    forall|m: int| k <= m < k + w ==> #[trigger] d[data_dump_index(m)] == 0
}

/// The logical bytes from `k` on of a packed buffer are `s`.
pub open spec fn slot_holds(d: Seq<u8>, k: int, s: Seq<u8>) -> bool {
    forall|m: int| k <= m < k + s.len() ==> #[trigger] d[data_dump_index(m)] == s[m - k]
}

/// `after` differs from `before` at most in the logical bytes `k..k + w`.
pub open spec fn same_outside(before: Seq<u8>, after: Seq<u8>, k: int, w: int) -> bool {
    &&& after.len() == before.len()
    &&& forall|m: int|
        0 <= m && (m < k || k + w <= m) && data_dump_index(m) < before.len()
            ==> #[trigger] after[data_dump_index(m)] == before[data_dump_index(m)]
    &&& forall|j: int| 0 <= j < before.len() && j % 8 == 0 ==> #[trigger] after[j] == before[j]
}

/// Packed positions grow with logical ones and never fall on a reserved byte.
pub proof fn lemma_data_dump_index(i: int)
    requires
        0 <= i,
    ensures
        data_dump_index(i) == i + i / 7 + 1,
        data_dump_index(i) % 8 != 0,
        data_dump_index(i) / 8 == i / 7,
        data_dump_index(i) % 8 == i % 7 + 1,
        data_dump_index(i) < data_dump_index(i + 1),
{
}

/// Distinct logical bytes have distinct packed positions, none of them reserved.
pub(crate) proof fn lemma_data_dump_index_distinct()
    ensures
        forall|a: int, b: int|
            0 <= a && 0 <= b && a != b ==> #[trigger] data_dump_index(a) != #[trigger] data_dump_index(b),
        forall|a: int| 0 <= a ==> #[trigger] data_dump_index(a) % 8 != 0,
        forall|a: int| 0 <= a < LOGICAL_LEN ==> #[trigger] data_dump_index(a) < SCENE_DUMP_LEN,
{
    assert forall|a: int, b: int|
        0 <= a && 0 <= b && a != b implies #[trigger] data_dump_index(a) != #[trigger] data_dump_index(b) by {
        if a < b {
            lemma_data_dump_index_increasing(a, b);
        } else {
            lemma_data_dump_index_increasing(b, a);
        }
    }
    assert forall|a: int| 0 <= a implies #[trigger] data_dump_index(a) % 8 != 0 by {
        lemma_data_dump_index(a);
    }
}

/// How the packed positions of a slot `k..k + w` lie among all others.
pub(crate) proof fn lemma_slot_positions(k: int, w: int)
    requires
        0 <= k,
        1 <= w,
    ensures
        forall|m: int| 0 <= m < k ==> #[trigger] data_dump_index(m) < data_dump_index(k),
        forall|m: int|
            k + w <= m ==> data_dump_index(k + w - 1) < #[trigger] data_dump_index(m),
        forall|m: int| k <= m < k + w ==> data_dump_index(k) <= #[trigger] data_dump_index(m)
            <= data_dump_index(k + w - 1),
        forall|m: int| 0 <= m ==> #[trigger] data_dump_index(m) % 8 != 0,
{
    assert forall|m: int| 0 <= m < k implies #[trigger] data_dump_index(m) < data_dump_index(
        k,
    ) by {
        lemma_data_dump_index_increasing(m, k);
    }
    assert forall|m: int| k + w <= m implies data_dump_index(k + w - 1) < #[trigger] data_dump_index(
        m,
    ) by {
        lemma_data_dump_index_increasing(k + w - 1, m);
    }
    assert forall|m: int| k <= m < k + w implies data_dump_index(k) <= #[trigger] data_dump_index(
        m,
    ) <= data_dump_index(k + w - 1) by {
        if k < m {
            lemma_data_dump_index_increasing(k, m);
        }
        if m < k + w - 1 {
            lemma_data_dump_index_increasing(m, k + w - 1);
        }
    }
    assert forall|m: int| 0 <= m implies #[trigger] data_dump_index(m) % 8 != 0 by {
        lemma_data_dump_index(m);
    }
}

/// Writing one logical byte fills that slot and nothing else.
pub(crate) proof fn lemma_write_logical(d: Seq<u8>, k: int, v: u8)
    requires
        0 <= k,
        data_dump_index(k) < d.len(),
    ensures
        slot_holds(d.update(data_dump_index(k), v), k, seq![v]),
        same_outside(d, d.update(data_dump_index(k), v), k, 1),
{
    lemma_data_dump_index_distinct();
    lemma_data_dump_index(k);
}

/// A filled slot survives a change elsewhere.
pub(crate) proof fn lemma_slot_kept(d1: Seq<u8>, d2: Seq<u8>, a: int, s: Seq<u8>, b: int, w: int)
    requires
        0 <= a,
        a + s.len() <= LOGICAL_LEN,
        d1.len() == SCENE_DUMP_LEN,
        slot_holds(d1, a, s),
        same_outside(d1, d2, b, w),
        a + s.len() <= b || b + w <= a,
    ensures
        slot_holds(d2, a, s),
{
    lemma_data_dump_index_distinct();
}

/// A clear slot stays clear through a change elsewhere.
pub(crate) proof fn lemma_clear_kept(d1: Seq<u8>, d2: Seq<u8>, a: int, v: int, b: int, w: int)
    requires
        0 <= a,
        a + v <= LOGICAL_LEN,
        d1.len() == SCENE_DUMP_LEN,
        slot_is_clear(d1, a, v),
        same_outside(d1, d2, b, w),
        a + v <= b || b + w <= a,
    ensures
        slot_is_clear(d2, a, v),
{
    lemma_data_dump_index_distinct();
}

/// Two adjacent filled slots make one.
pub(crate) proof fn lemma_slot_concat(d: Seq<u8>, k: int, s1: Seq<u8>, s2: Seq<u8>)
    requires
        slot_holds(d, k, s1),
        slot_holds(d, k + s1.len(), s2),
    ensures
        slot_holds(d, k, s1 + s2),
{
    assert forall|m: int| k <= m < k + (s1 + s2).len() implies #[trigger] d[data_dump_index(m)]
        == (s1 + s2)[m - k] by {
        if m >= k + s1.len() {
            assert(d[data_dump_index(m)] == s2[m - (k + s1.len())]);
        }
    }
}

/// Changes confined to parts of a slot are confined to the slot.
pub(crate) proof fn lemma_same_outside_trans(
    d0: Seq<u8>,
    d1: Seq<u8>,
    d2: Seq<u8>,
    k: int,
    w: int,
    k1: int,
    w1: int,
    k2: int,
    w2: int,
)
    requires
        same_outside(d0, d1, k1, w1),
        same_outside(d1, d2, k2, w2),
        k <= k1,
        k1 + w1 <= k + w,
        k <= k2,
        k2 + w2 <= k + w,
    ensures
        same_outside(d0, d2, k, w),
{
}

/// A packed position that is not reserved is that of one logical byte.
pub(crate) proof fn lemma_data_dump_index_inverse(j: int)
    requires
        0 <= j,
        j % 8 != 0,
    ensures
        0 <= (j / 8) * 7 + j % 8 - 1,
        data_dump_index((j / 8) * 7 + j % 8 - 1) == j,
{
}

/// Packed positions keep the order of logical ones.
pub proof fn lemma_data_dump_index_increasing(a: int, b: int)
    requires
        0 <= a < b,
    ensures
        data_dump_index(a) < data_dump_index(b),
{
}

} // verus!
