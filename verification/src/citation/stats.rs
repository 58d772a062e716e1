//! Citation statistics over a set of papers: totals, the h-index, the
//! most cited papers and those nobody cites.
use vstd::prelude::*;

use crate::models::{Paper, PaperView};

verus! {

/// How many most-cited papers the statistics keep.
pub const MOST_CITED_KEPT: usize = 10;

/// The citation counts of the papers, in order.
pub open spec fn counts_of(papers: Seq<Paper>) -> Seq<i64> {
    papers.map_values(|p: Paper| p.citation_count)
}

/// The sum of the first `k` counts.
pub open spec fn count_sum(c: Seq<i64>, k: int) -> int
    decreases k,
{
    if k <= 0 {
        0
    } else {
        count_sum(c, k - 1) + c[k - 1]
    }
}

/// Every partial sum of the counts fits in an `i64`.
pub open spec fn sums_fit(c: Seq<i64>) -> bool {
    forall|k: int| 0 <= k <= c.len() ==> i64::MIN <= #[trigger] count_sum(c, k) <= i64::MAX
}

/// Paper `a` ranks before paper `b`: it is cited more, or as much and
/// comes first.
pub open spec fn ranks_before(c: Seq<i64>, a: int, b: int) -> bool {
    c[a] > c[b] || (c[a] == c[b] && a < b)
}

/// `o` lists every paper once, most cited first, papers cited as much in
/// the order they are given in.
pub open spec fn is_rank_order(c: Seq<i64>, o: Seq<usize>) -> bool {
    &&& o.len() == c.len()
    &&& forall|i: int| 0 <= i < o.len() ==> #[trigger] o[i] < c.len()
    &&& forall|i: int, j: int| 0 <= i < j < o.len() ==> ranks_before(c, #[trigger] o[i] as int, #[trigger] o[j] as int)
}

/// A count reaches rank `i` (counted from 0) for the h-index: read as a
/// `usize`, it is at least `i + 1`.
pub open spec fn reaches(count: i64, i: int) -> bool {
    (count as usize) >= i + 1
}

/// How many leading papers of the order reach their rank.
pub open spec fn h_run(c: Seq<i64>, o: Seq<usize>, i: int) -> int
    decreases o.len() - i,
{
    if 0 <= i < o.len() && reaches(c[o[i] as int], i) {
        h_run(c, o, i + 1)
    } else {
        i
    }
}

/// Statistics over a set of papers, all but the average, which is the
/// quotient of `total_citations` by `total_papers`.
pub struct CitationStats {
    pub total_papers: usize,
    pub total_citation_edges: usize,
    pub total_citations: i64,
    pub h_index: i32,
    pub max_citations: i64,
    pub most_cited_papers: Vec<(Paper, i64)>,
    pub isolated_papers: Vec<Paper>,
}

/// The papers with no citations, in order.
pub open spec fn uncited(papers: Seq<Paper>) -> Seq<PaperView>
    decreases papers.len(),
{
    if papers.len() == 0 {
        Seq::empty()
    } else if papers.last().citation_count == 0 {
        uncited(papers.drop_last()).push(papers.last()@)
    } else {
        uncited(papers.drop_last())
    }
}

/// The statistics of `papers` follow the rank order `o` of their counts.
pub open spec fn stats_follow(s: CitationStats, papers: Seq<Paper>, o: Seq<usize>) -> bool {
    let c = counts_of(papers);
    let n = papers.len();
    &&& is_rank_order(c, o)
    &&& s.max_citations == if n > 0 {
        c[o[0] as int]
    } else {
        0
    }
    &&& s.h_index == h_run(c, o, 0) as i32
    &&& s.most_cited_papers@.len() == if n < 10 {
        n
    } else {
        10
    }
    &&& forall|i: int|
        0 <= i < s.most_cited_papers@.len() ==> (#[trigger] s.most_cited_papers@[i]).0@ == papers[o[i]
            as int]@ && s.most_cited_papers@[i].1 == c[o[i] as int]
}

/// In a rank order counts never rise: each paper is cited at least as
/// much as any after it, and the first is cited the most.
pub proof fn lemma_rank_order_descends(c: Seq<i64>, o: Seq<usize>, i: int, j: int)
    requires
        is_rank_order(c, o),
        0 <= i <= j < o.len(),
    ensures
        c[o[i] as int] >= c[o[j] as int],
        c[o[0] as int] >= c[o[j] as int],
{
    if i < j {
        assert(ranks_before(c, o[i] as int, o[j] as int));
    }
    if 0 < j {
        assert(ranks_before(c, o[0] as int, o[j] as int));
    }
}

/// The h-index counts papers from the top of the rank order, each reaching
/// its rank: it is at most the number of papers, every paper above it
/// reaches its rank, and the next one, if any, does not.
pub proof fn lemma_h_run(c: Seq<i64>, o: Seq<usize>, i: int)
    requires
        is_rank_order(c, o),
        0 <= i <= o.len(),
    ensures
        i <= h_run(c, o, i) <= o.len(),
        forall|k: int| i <= k < h_run(c, o, i) ==> #[trigger] reaches(c[o[k] as int], k),
        h_run(c, o, i) < o.len() ==> !reaches(c[o[h_run(c, o, i)] as int], h_run(c, o, i)),
    decreases o.len() - i,
{
    if i < o.len() && reaches(c[o[i] as int], i) {
        lemma_h_run(c, o, i + 1);
    }
}

/// Where paper `k` goes in the rank order `o` of the papers before it.
fn insert_position(c: &Vec<i64>, o: &Vec<usize>, k: usize) -> (pos: usize)
    requires
        k < c@.len(),
        o@.len() == k,
        is_rank_order(c@.subrange(0, k as int), o@),
    ensures
        pos <= o@.len(),
        forall|j: int| 0 <= j < pos ==> c@[k as int] <= c@[#[trigger] o@[j] as int],
        forall|j: int| pos <= j < o@.len() ==> c@[k as int] > c@[#[trigger] o@[j] as int],
{
    let mut pos: usize = 0;
    while pos < o.len() && c[k] <= c[o[pos]]
        invariant
            k < c@.len(),
            o@.len() == k,
            is_rank_order(c@.subrange(0, k as int), o@),
            pos <= o@.len(),
            forall|j: int| 0 <= j < pos ==> c@[k as int] <= c@[#[trigger] o@[j] as int],
        decreases o.len() - pos,
    {
        proof {
            assert(o@[pos as int] < k);
        }
        pos = pos + 1;
    }
    proof {
        let ck = c@.subrange(0, k as int);
        assert forall|j: int| pos <= j < o@.len() implies c@[k as int] > c@[#[trigger] o@[j] as int] by {
            assert(o@[pos as int] < k);
            assert(o@[j] < k);
            if j > pos {
                assert(ranks_before(ck, o@[pos as int] as int, o@[j] as int));
            }
        }
    }
    pos
}

/// The rank order of the counts: every paper once, most cited first,
/// papers cited as much in the order they are given in.
pub fn rank_order(c: &Vec<i64>) -> (o: Vec<usize>)
    ensures
        is_rank_order(c@, o@),
{
    let mut o: Vec<usize> = Vec::new();
    let mut k: usize = 0;
    while k < c.len()
        invariant
            k <= c@.len(),
            o@.len() == k,
            is_rank_order(c@.subrange(0, k as int), o@),
        decreases c.len() - k,
    {
        let pos = insert_position(c, &o, k);
        let ghost old_o = o@;
        o.insert(pos, k);
        proof {
            let ck = c@.subrange(0, k as int);
            let ck1 = c@.subrange(0, k + 1);
            assert(o@ =~= old_o.insert(pos as int, k));
            assert forall|i: int| 0 <= i < o@.len() implies #[trigger] o@[i] < ck1.len() by {
                if i < pos {
                    assert(o@[i] == old_o[i]);
                } else if i > pos {
                    assert(o@[i] == old_o[i - 1]);
                }
            }
            assert forall|i: int, j: int| 0 <= i < j < o@.len() implies ranks_before(
                ck1,
                #[trigger] o@[i] as int,
                #[trigger] o@[j] as int,
            ) by {
                if i < pos && j < pos {
                    assert(o@[i] == old_o[i] && o@[j] == old_o[j]);
                    assert(ranks_before(ck, old_o[i] as int, old_o[j] as int));
                } else if i < pos && j == pos {
                    assert(o@[i] == old_o[i]);
                    assert(old_o[i] < k);
                } else if i < pos && j > pos {
                    assert(o@[i] == old_o[i] && o@[j] == old_o[j - 1]);
                    assert(ranks_before(ck, old_o[i] as int, old_o[j - 1] as int));
                } else if i == pos {
                    assert(o@[j] == old_o[j - 1]);
                    assert(old_o[j - 1] < k);
                } else {
                    assert(o@[i] == old_o[i - 1] && o@[j] == old_o[j - 1]);
                    assert(ranks_before(ck, old_o[i - 1] as int, old_o[j - 1] as int));
                }
            }
        }
        k = k + 1;
    }
    proof {
        assert(c@.subrange(0, c@.len() as int) =~= c@);
    }
    o
}

impl Default for CitationStats {
    fn default() -> (s: CitationStats)
        ensures
            s.total_papers == 0,
            s.total_citation_edges == 0,
            s.total_citations == 0,
            s.h_index == 0,
            s.max_citations == 0,
            s.most_cited_papers@.len() == 0,
            s.isolated_papers@.len() == 0,
    {
        CitationStats {
            total_papers: 0,
            total_citation_edges: 0,
            total_citations: 0,
            h_index: 0,
            max_citations: 0,
            most_cited_papers: Vec::new(),
            isolated_papers: Vec::new(),
        }
    }
}

impl CitationStats {
    /// The statistics of `papers`: how many there are, the sum of their
    /// citation counts (and that sum as a `usize`, the number of citation
    /// links), the h-index and the largest count over the rank order of
    /// the counts, the ten first papers of that order with their counts,
    /// and the papers nobody cites, in order.
    pub fn from_papers(papers: &Vec<Paper>) -> (s: CitationStats)
        requires
            sums_fit(counts_of(papers@)),
        ensures
            s.total_papers == papers@.len(),
            s.total_citations == count_sum(counts_of(papers@), papers@.len() as int),
            s.total_citation_edges == s.total_citations as usize,
            exists|o: Seq<usize>| stats_follow(s, papers@, o),
            s.isolated_papers@.map_values(|p: Paper| p@) == uncited(papers@),
    {
        let n = papers.len();
        let ghost c = counts_of(papers@);
        let mut counts: Vec<i64> = Vec::new();
        let mut total: i64 = 0;
        let mut isolated: Vec<Paper> = Vec::new();
        let mut i: usize = 0;
        while i < n
            invariant
                n == papers@.len(),
                c == counts_of(papers@),
                sums_fit(c),
                i <= n,
                counts@ == c.subrange(0, i as int),
                total == count_sum(c, i as int),
                isolated@.map_values(|p: Paper| p@) == uncited(papers@.subrange(0, i as int)),
            decreases n - i,
        {
            let cc = papers[i].citation_count;
            proof {
                assert(count_sum(c, i + 1) == count_sum(c, i as int) + c[i as int]);
                assert(i64::MIN <= count_sum(c, i + 1) <= i64::MAX);
            }
            total = total + cc;
            counts.push(cc);
            let ghost pre = papers@.subrange(0, i as int);
            let ghost next = papers@.subrange(0, i + 1);
            proof {
                assert(next.drop_last() =~= pre);
                assert(next.last() == papers@[i as int]);
            }
            if cc == 0 {
                let ghost before = isolated@;
                isolated.push(papers[i].clone());
                assert(isolated@.map_values(|p: Paper| p@) =~= before.map_values(|p: Paper| p@).push(
                    papers@[i as int]@,
                ));
            }
            assert(counts@ =~= c.subrange(0, i + 1));
            i = i + 1;
        }
        proof {
            assert(papers@.subrange(0, n as int) =~= papers@);
            assert(counts@ =~= c);
        }
        let o = rank_order(&counts);
        let max_citations = if n > 0 {
            counts[o[0]]
        } else {
            0
        };
        let mut h: usize = 0;
        while h < n && (counts[o[h]] as usize) >= h + 1
            invariant
                n == o@.len(),
                counts@ == c,
                is_rank_order(c, o@),
                h <= n,
                h_run(c, o@, 0) == h_run(c, o@, h as int),
            decreases n - h,
        {
            h = h + 1;
        }
        let kept = if n < MOST_CITED_KEPT {
            n
        } else {
            MOST_CITED_KEPT
        };
        let mut most: Vec<(Paper, i64)> = Vec::new();
        let mut j: usize = 0;
        while j < kept
            invariant
                kept <= n == o@.len() == papers@.len(),
                counts@ == c,
                c == counts_of(papers@),
                is_rank_order(c, o@),
                j <= kept,
                most@.len() == j,
                forall|t: int|
                    0 <= t < j ==> (#[trigger] most@[t]).0@ == papers@[o@[t] as int]@ && most@[t].1
                        == c[o@[t] as int],
            decreases kept - j,
        {
            let idx = o[j];
            most.push((papers[idx].clone(), counts[idx]));
            j = j + 1;
        }
        let s = CitationStats {
            total_papers: n,
            total_citation_edges: total as usize,
            total_citations: total,
            h_index: h as i32,
            max_citations,
            most_cited_papers: most,
            isolated_papers: isolated,
        };
        assert(stats_follow(s, papers@, o@));
        s
    }
}

} // verus!
