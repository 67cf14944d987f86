//! What holds of every document: which groups it has, in what order, and
//! how each kind's records are laid out across them.

use vstd::prelude::*;
use crate::facts::KIND_COUNT;
use crate::output::{
    chunk_count, chunk_end, chunks, document, groups, groups_upto, kind_groups, GleanJSONOutput,
    Group, Records, CHUNK_SIZE,
};

verus! {

/// The number of groups that the first `m` kinds of `v` make.
pub open spec fn group_count_upto(v: Records, m: nat) -> nat
    decreases m,
{
    if m == 0 {
        0
    } else {
        group_count_upto(v, (m - 1) as nat) + chunk_count(v[m - 1].len())
    }
}

proof fn lemma_shape(v: Records, m: nat)
    requires
        m <= v.len(),
    ensures
        groups_upto(v, m).len() == group_count_upto(v, m),
        forall|i: int|
            0 <= i < groups_upto(v, m).len() ==> 0 <= #[trigger] groups_upto(v, m)[i].0 < m,
        forall|i: int, j: int|
            0 <= i <= j < groups_upto(v, m).len() ==> #[trigger] groups_upto(v, m)[i].0
                <= #[trigger] groups_upto(v, m)[j].0,
    decreases m,
{
    if m > 0 {
        let k = (m - 1) as nat;
        lemma_shape(v, k);
        let g = groups_upto(v, k);
        let kg = kind_groups(v[k as int], k as int);
        assert(groups_upto(v, m) == g + kg);
        assert forall|i: int| 0 <= i < groups_upto(v, m).len() implies 0 <= #[trigger] groups_upto(
            v,
            m,
        )[i].0 < m by {
            if i >= g.len() {
                assert(groups_upto(v, m)[i] == kg[i - g.len()]);
            } else {
                assert(groups_upto(v, m)[i] == g[i]);
            }
        }
        assert forall|i: int, j: int|
            0 <= i <= j < groups_upto(v, m).len() implies #[trigger] groups_upto(v, m)[i].0
            <= #[trigger] groups_upto(v, m)[j].0 by {
            if j >= g.len() {
                assert(groups_upto(v, m)[j] == kg[j - g.len()]);
                if i >= g.len() {
                    assert(groups_upto(v, m)[i] == kg[i - g.len()]);
                } else {
                    assert(groups_upto(v, m)[i] == g[i]);
                }
            } else {
                assert(groups_upto(v, m)[i] == g[i]);
                assert(groups_upto(v, m)[j] == g[j]);
            }
        }
    }
}

proof fn lemma_prefix(v: Records, k: nat, m: nat)
    requires
        k <= m <= v.len(),
    ensures
        groups_upto(v, k).len() <= groups_upto(v, m).len(),
        groups_upto(v, m).subrange(0, groups_upto(v, k).len() as int) == groups_upto(v, k),
        forall|i: int|
            groups_upto(v, k).len() <= i < groups_upto(v, m).len() ==> #[trigger] groups_upto(
                v,
                m,
            )[i].0 >= k,
    decreases m,
{
    if k < m {
        let p = (m - 1) as nat;
        lemma_prefix(v, k, p);
        let g = groups_upto(v, p);
        let kg = kind_groups(v[p as int], p as int);
        assert(groups_upto(v, m) == g + kg);
        assert(groups_upto(v, m).subrange(0, groups_upto(v, k).len() as int) =~= g.subrange(
            0,
            groups_upto(v, k).len() as int,
        ));
        assert forall|i: int|
            groups_upto(v, k).len() <= i < groups_upto(v, m).len() implies #[trigger] groups_upto(
            v,
            m,
        )[i].0 >= k by {
            if i >= g.len() {
                assert(groups_upto(v, m)[i] == kg[i - g.len()]);
            } else {
                assert(groups_upto(v, m)[i] == g[i]);
            }
        }
    } else {
        assert(groups_upto(v, m).subrange(0, groups_upto(v, k).len() as int) =~= groups_upto(
            v,
            k,
        ));
    }
}

/// A kind with no records has no group in the document.
pub proof fn lemma_empty_kind_has_no_group(v: Records, k: int)
    requires
        v.len() == KIND_COUNT,
        0 <= k < KIND_COUNT,
        v[k].len() == 0,
    ensures
        forall|i: int| 0 <= i < groups(v).len() ==> #[trigger] groups(v)[i].0 != k,
{
    let m = KIND_COUNT as nat;
    lemma_shape(v, k as nat);
    lemma_prefix(v, (k + 1) as nat, m);
    assert(kind_groups(v[k], k).len() == 0);
    assert(groups_upto(v, (k + 1) as nat) =~= groups_upto(v, k as nat));
    assert forall|i: int| 0 <= i < groups(v).len() implies #[trigger] groups(v)[i].0 != k by {
        if i < groups_upto(v, k as nat).len() {
            assert(groups(v)[i] == groups_upto(v, (k + 1) as nat)[i]);
        }
    }
}

/// The groups of kind `k` stand together in the document, from position
/// `group_count_upto(v, k)` on: they are the chunks of the kind's records
/// taken last-appended first, and no other group is of kind `k`.
pub proof fn lemma_kind_groups_in_document(v: Records, k: int)
    requires
        v.len() == KIND_COUNT,
        0 <= k < KIND_COUNT,
    ensures
        ({
            let s = group_count_upto(v, k as nat) as int;
            let n = chunk_count(v[k].len()) as int;
            &&& s + n <= groups(v).len()
            &&& forall|j: int| 0 <= j < n ==> #[trigger] groups(v)[s + j] == (k, chunks(v[k].reverse())[j])
            &&& forall|i: int|
                0 <= i < groups(v).len() && !(s <= i < s + n) ==> #[trigger] groups(v)[i].0 != k
        }),
{
    let m = KIND_COUNT as nat;
    lemma_shape(v, k as nat);
    lemma_prefix(v, (k + 1) as nat, m);
    let g = groups_upto(v, k as nat);
    let kg = kind_groups(v[k], k);
    assert(groups_upto(v, (k + 1) as nat) == g + kg);
    let s = g.len() as int;
    assert forall|j: int| 0 <= j < kg.len() implies #[trigger] groups(v)[s + j] == (
        k,
        chunks(v[k].reverse())[j],
    ) by {
        assert(groups(v)[s + j] == groups_upto(v, (k + 1) as nat)[s + j]);
    }
    assert forall|i: int|
        0 <= i < groups(v).len() && !(s <= i < s + kg.len()) implies #[trigger] groups(v)[i].0
        != k by {
        if i < s {
            assert(groups(v)[i] == groups_upto(v, (k + 1) as nat)[i]);
        }
    }
}

/// Each kind's records are cut in chunks of `CHUNK_SIZE` records but for the
/// last chunk, which holds what remains (between one and `CHUNK_SIZE`), and
/// record `i` stands in chunk `i / CHUNK_SIZE` at position `i % CHUNK_SIZE`.
pub proof fn lemma_chunk_layout(s: Seq<Seq<char>>)
    ensures
        ({
            let n = chunk_count(s.len()) as int;
            &&& chunks(s).len() == n
            &&& forall|j: int| 0 <= j < n - 1 ==> (#[trigger] chunks(s)[j]).len() == CHUNK_SIZE
            &&& n > 0 ==> chunks(s)[n - 1].len() == s.len() - (n - 1) * CHUNK_SIZE
            &&& n > 0 ==> 0 < chunks(s)[n - 1].len() <= CHUNK_SIZE
            &&& forall|i: int|
                0 <= i < s.len() ==> chunks(s)[i / CHUNK_SIZE as int][i % CHUNK_SIZE as int]
                    == #[trigger] s[i]
        }),
{
    let n = chunk_count(s.len()) as int;
    assert forall|i: int| 0 <= i < s.len() implies chunks(s)[i / CHUNK_SIZE as int][i
        % CHUNK_SIZE as int] == #[trigger] s[i] by {
        let j = i / CHUNK_SIZE as int;
        assert(j < n);
        assert(chunks(s)[j] == s.subrange(j * CHUNK_SIZE, chunk_end(j, s.len() as int)));
    }
}

/// Groups come in the fixed predicate order: a group never follows a group
/// of a later kind, whatever the order of the appends.
pub proof fn lemma_groups_in_kind_order(v: Records)
    requires
        v.len() == KIND_COUNT,
    ensures
        forall|i: int|
            0 <= i < groups(v).len() ==> 0 <= #[trigger] groups(v)[i].0 < KIND_COUNT,
        forall|i: int, j: int|
            0 <= i <= j < groups(v).len() ==> #[trigger] groups(v)[i].0 <= #[trigger] groups(v)[j].0,
{
    lemma_shape(v, KIND_COUNT as nat);
}

/// The document has one group for each chunk of each kind: the sum over the
/// kinds of the number of chunks of their records.
pub proof fn lemma_group_count(v: Records)
    requires
        v.len() == KIND_COUNT,
    ensures
        groups(v).len() == group_count_upto(v, KIND_COUNT as nat),
{
    lemma_shape(v, KIND_COUNT as nat);
}

/// Two accumulators that hold the same records render the same document.
pub proof fn lemma_same_records_same_document(a: &GleanJSONOutput, b: &GleanJSONOutput)
    requires
        a@ == b@,
    ensures
        document(a@) == document(b@),
{
}

} // verus!
