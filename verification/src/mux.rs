//! The stream multiplexer, as a model: several independent sources, each
//! tagged with its kind, merged into one sequence of tagged elements in
//! arrival order. No ordering is imposed across sources beyond
//! availability; a source that ends is removed from the merge, and the
//! merge ends only when every source has ended.

use vstd::prelude::*;

verus! {

/// The elements of a merged output that carry the given source index, in
/// order, untagged.
pub open spec fn proj<E>(out: Seq<(int, E)>, k: int) -> Seq<E>
    decreases out.len(),
{
    if out.len() == 0 {
        Seq::empty()
    } else {
        (if out[0].0 == k {
            seq![out[0].1]
        } else {
            Seq::empty()
        }) + proj(out.skip(1), k)
    }
}

/// Whether `out` is a complete merge of the given sources: every element
/// is tagged with a source index, and per source, the merged output
/// carries exactly that source's elements in their order. The merge is
/// free to interleave sources arbitrarily — arrival order — but may
/// neither drop, duplicate nor reorder the elements of any one source,
/// and is complete only once every source has ended.
pub open spec fn is_complete_merge<E>(out: Seq<(int, E)>, sources: Seq<Seq<E>>) -> bool {
    &&& forall|i: int| 0 <= i < out.len() ==> 0 <= (#[trigger] out[i]).0 < sources.len()
    &&& forall|k: int| 0 <= k < sources.len() ==> proj(out, k) == sources[k]
}

/// With two sources, the two projections partition the merged output.
proof fn lemma_proj_partition_two<E>(out: Seq<(int, E)>)
    requires
        forall|i: int| 0 <= i < out.len() ==> 0 <= (#[trigger] out[i]).0 < 2,
    ensures
        proj(out, 0).len() + proj(out, 1).len() == out.len(),
    decreases out.len(),
{
    if out.len() > 0 {
        assert forall|i: int| 0 <= i < out.skip(1).len() implies 0 <= (#[trigger] out.skip(1)[i]).0
            < 2 by {
            assert(out.skip(1)[i] == out[i + 1]);
        }
        lemma_proj_partition_two(out.skip(1));
        assert(0 <= out[0].0 < 2);
    }
}

/// Whatever a projection holds, the merged output holds with its tag.
proof fn lemma_proj_member<E>(out: Seq<(int, E)>, k: int, x: E)
    requires
        proj(out, k).contains(x),
    ensures
        out.contains((k, x)),
    decreases out.len(),
{
    if out.len() > 0 {
        if out[0].0 == k && out[0].1 == x {
            assert(out[0] == (k, x));
            assert(out.contains((k, x)));
        } else {
            let p = proj(out, k);
            let rest = proj(out.skip(1), k);
            if out[0].0 == k {
                assert(p[0] == out[0].1);
                let j = choose|j: int| 0 <= j < p.len() && p[j] == x;
                assert(j > 0);
                assert(rest[j - 1] == x);
                assert(rest.contains(x));
            } else {
                assert(p =~= rest);
            }
            lemma_proj_member(out.skip(1), k, x);
            let i = choose|i: int| 0 <= i < out.skip(1).len() && out.skip(1)[i] == (k, x);
            assert(out[i + 1] == (k, x));
        }
    }
}

/// Multiplexer fairness: when two sources produce one element each, any
/// complete merge yields exactly those two elements, each under its own
/// tag, in either order — and it is complete only because both sources
/// have ended, since a merge missing either element would not project
/// onto its source.
pub proof fn lemma_merge_two_singletons<E>(out: Seq<(int, E)>, a: E, b: E)
    requires
        is_complete_merge(out, seq![seq![a], seq![b]]),
    ensures
        out.len() == 2,
        out.contains((0, a)),
        out.contains((1, b)),
{
    let sources: Seq<Seq<E>> = seq![seq![a], seq![b]];
    assert(proj(out, 0) == sources[0]);
    assert(proj(out, 1) == sources[1]);
    lemma_proj_partition_two(out);
    assert(proj(out, 0)[0] == a);
    assert(proj(out, 0).contains(a));
    assert(proj(out, 1)[0] == b);
    assert(proj(out, 1).contains(b));
    lemma_proj_member(out, 0, a);
    lemma_proj_member(out, 1, b);
}

/// The liveness bookkeeping of the multiplexer: which sources are still
/// open. The loop that drains the merge feeds back which source each
/// element came from and when a source ends; the merge is done only when
/// every source has ended.
#[derive(Debug)]
pub struct Multiplexer {
    pub open_sources: Vec<bool>,
}

impl View for Multiplexer {
    type V = Seq<bool>;

    open spec fn view(&self) -> Seq<bool> {
        self.open_sources@
    }
}

impl Multiplexer {
    /// A merge over `n` sources, all initially open.
    pub fn new(n: usize) -> (r: Self)
        ensures
            r@.len() == n,
            forall|k: int| 0 <= k < n ==> r@[k],
    {
        let mut open_sources: Vec<bool> = Vec::new();
        let mut i: usize = 0;
        while i < n
            invariant
                0 <= i <= n,
                open_sources@.len() == i,
                forall|k: int| 0 <= k < i ==> open_sources@[k],
            decreases n - i,
        {
            open_sources.push(true);
            i += 1;
        }
        Multiplexer { open_sources }
    }

    /// Whether the given source is still part of the merge.
    pub fn is_open(&self, k: usize) -> (r: bool)
        requires
            k < self@.len(),
        ensures
            r == self@[k as int],
    {
        self.open_sources[k]
    }

    /// Removes a source whose sequence has ended; the others go on.
    pub fn source_ended(&mut self, k: usize)
        requires
            k < old(self)@.len(),
        ensures
            final(self)@ == old(self)@.update(k as int, false),
    {
        self.open_sources[k] = false;
    }

    /// Whether the merge itself has ended: exactly when every source has.
    pub fn is_done(&self) -> (r: bool)
        ensures
            r <==> forall|k: int| 0 <= k < self@.len() ==> !self@[k],
    {
        let mut i: usize = 0;
        while i < self.open_sources.len()
            invariant
                0 <= i <= self@.len(),
                forall|k: int| 0 <= k < i ==> !self@[k],
            decreases self@.len() - i,
        {
            if self.open_sources[i] {
                return false;
            }
            i += 1;
        }
        true
    }
}

} // verus!
