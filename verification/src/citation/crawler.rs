//! The crawler that builds a citation graph from a seed paper: the
//! decisions of each step, while the fetching is done by its caller.
use std::collections::hash_map::DefaultHasher;
use std::hash::Hasher;
use vstd::prelude::*;
use vstd::std_specs::hash::DefaultHasherAdditionalSpecFns;

use super::graph::CitationGraph;
use crate::models::{with_id, Author, Paper, PaperView};
use crate::text::string_of_str;

verus! {

/// Which links of each paper the crawler follows.
pub enum CrawlDirection {
    Citations,
    References,
    Both,
}

/// Which links of a fetched paper to ask for next.
pub enum LinkRequest {
    Citations,
    References,
}

/// The links asked for first for a paper: the cited papers for
/// `References`, the citing papers otherwise.
pub open spec fn links_for(direction: CrawlDirection) -> LinkRequest {
    match direction {
        CrawlDirection::References => LinkRequest::References,
        _ => LinkRequest::Citations,
    }
}

/// The links asked for after those asked for (`asked`) came in: in a
/// crawl in both directions, the cited papers after the citing ones;
/// nothing more otherwise.
pub open spec fn links_after(direction: CrawlDirection, asked: LinkRequest) -> Option<LinkRequest> {
    match (direction, asked) {
        (CrawlDirection::Both, LinkRequest::Citations) => Some(LinkRequest::References),
        _ => None,
    }
}

/// Which links a crawl asks for: in one direction only that direction's
/// links, once per paper; in both directions the citing papers first, then
/// the cited ones, and nothing after.
pub proof fn lemma_links_follow_direction(asked: LinkRequest)
    ensures
        links_for(CrawlDirection::Citations) == LinkRequest::Citations,
        links_for(CrawlDirection::References) == LinkRequest::References,
        links_for(CrawlDirection::Both) == LinkRequest::Citations,
        links_after(CrawlDirection::Citations, asked) is None,
        links_after(CrawlDirection::References, asked) is None,
        links_after(CrawlDirection::Both, LinkRequest::Citations) == Some(LinkRequest::References),
        links_after(CrawlDirection::Both, LinkRequest::References) is None,
{
}

/// How many links of each kind a crawl asks for per paper.
pub const CRAWL_LINK_LIMIT: usize = 20;

/// A crawler: the source it asks, how deep it follows links and how many
/// papers it keeps at most.
pub struct CitationCrawler<S> {
    source: S,
    max_depth: usize,
    max_papers: usize,
}

impl<S> CitationCrawler<S> {
    /// How deep links are followed.
    pub closed spec fn spec_max_depth(&self) -> usize {
        self.max_depth
    }

    /// How many papers are kept at most.
    pub closed spec fn spec_max_papers(&self) -> usize {
        self.max_papers
    }

    /// The source asked.
    pub closed spec fn spec_source(&self) -> S {
        self.source
    }

    /// A crawler that asks `source`, follows links one level deep and
    /// keeps at most 100 papers.
    pub fn new(source: S) -> (c: CitationCrawler<S>)
        ensures
            c.spec_source() == source,
            c.spec_max_depth() == 1,
            c.spec_max_papers() == 100,
    {
        CitationCrawler { source, max_depth: 1, max_papers: 100 }
    }

    /// The same crawler following links `depth` levels deep.
    pub fn with_depth(self, depth: usize) -> (c: CitationCrawler<S>)
        ensures
            c.spec_source() == self.spec_source(),
            c.spec_max_depth() == depth,
            c.spec_max_papers() == self.spec_max_papers(),
    {
        CitationCrawler { max_depth: depth, ..self }
    }

    /// The same crawler keeping at most `max` papers.
    pub fn with_max_papers(self, max: usize) -> (c: CitationCrawler<S>)
        ensures
            c.spec_source() == self.spec_source(),
            c.spec_max_depth() == self.spec_max_depth(),
            c.spec_max_papers() == max,
    {
        CitationCrawler { max_papers: max, ..self }
    }

    /// The source the crawler asks.
    pub fn source(&self) -> (s: &S)
        ensures
            *s == self.spec_source(),
    {
        &self.source
    }

    /// A crawl from the paper `seed` that follows `direction`.
    pub fn start(&self, seed: &str, direction: CrawlDirection) -> (c: Crawl)
        ensures
            c.wf(),
            c.max_depth() == self.spec_max_depth(),
            c.max_papers() == self.spec_max_papers(),
            c.direction() == direction,
            c.phase() is Idle,
            c.visited() == Seq::<Seq<char>>::empty(),
            c.queue() == seq![(seed@, 0usize)],
            c.graph().paper_map() == Map::<i64, PaperView>::empty(),
    {
        let mut queue: Vec<(String, usize)> = Vec::new();
        queue.push((string_of_str(seed), 0));
        let c = Crawl {
            graph: CitationGraph::new(),
            visited: Vec::new(),
            queue,
            max_depth: self.max_depth,
            max_papers: self.max_papers,
            direction,
            phase: CrawlPhase::Idle,
        };
        assert(c.queue() =~= seq![(seed@, 0usize)]);
        assert(c.visited() =~= Seq::<Seq<char>>::empty());
        c
    }
}

/// Where a crawl stands.
pub enum CrawlPhase {
    /// Ready for the next paper.
    Idle,
    /// Waiting for the paper `paper_id`, found at `depth`.
    Fetching { paper_id: String, depth: usize },
    /// Waiting for the links (`asked`) of a paper found at `depth`.
    Linking { depth: usize, asked: LinkRequest },
}

/// What the crawl asks its caller to do.
pub enum CrawlAction {
    /// Fetch the paper `paper_id`, found at `depth` links from the seed.
    Fetch { paper_id: String, depth: usize },
    /// Stop: the graph is complete.
    Done,
}

/// A crawl in progress.
pub struct Crawl {
    graph: CitationGraph,
    visited: Vec<String>,
    queue: Vec<(String, usize)>,
    max_depth: usize,
    max_papers: usize,
    direction: CrawlDirection,
    phase: CrawlPhase,
}

/// The number of papers in a graph.
pub open spec fn paper_count(g: CitationGraph) -> nat {
    g.paper_map().dom().len()
}

/// The ids of the links that give a Semantic Scholar id, at `depth`, in
/// order.
pub open spec fn linked_ids(links: Seq<(Paper, Vec<Author>)>, depth: usize) -> Seq<(Seq<char>, usize)>
    decreases links.len(),
{
    if links.len() == 0 {
        Seq::empty()
    } else {
        let rest = linked_ids(links.drop_last(), depth);
        match links.last().0.semantic_scholar_id {
            Some(id) => rest.push((id@, depth)),
            None => rest,
        }
    }
}

/// An identifier taken off the queue is passed over: it was fetched
/// already, or lies deeper than links are followed.
pub open spec fn passed_over(q: (Seq<char>, usize), visited: Seq<Seq<char>>, max_depth: usize) -> bool {
    visited.contains(q.0) || q.1 > max_depth
}

/// `Hash::hash` of a text into a `DefaultHasher`, named: the writes the
/// hasher holds afterwards, given those it held before and the text.
pub uninterp spec fn str_hash_writes(before: Seq<Seq<u8>>, s: Seq<char>) -> Seq<Seq<u8>>;

/// Hashes `s` into `h`; `Hash::hash` for `str`. Which bytes it writes is
/// named (`str_hash_writes`): they depend on the text alone.
#[verifier::external_body]
fn hash_str(s: &str, h: &mut DefaultHasher)
    ensures
        final(h)@ == str_hash_writes(old(h)@, s@),
{
    std::hash::Hash::hash(s, h)
}

/// The temporary id of a paper fetched by the identifier `s`: the text
/// hashed into a new `DefaultHasher`, its `finish` read as an `i64`.
pub open spec fn temporary_id(s: Seq<char>) -> i64 {
    DefaultHasher::spec_finish(str_hash_writes(Seq::empty(), s)) as i64
}

impl Crawl {
    /// The graph built so far.
    pub closed spec fn graph(&self) -> CitationGraph {
        self.graph
    }

    /// The identifiers fetched so far, in order.
    pub closed spec fn visited(&self) -> Seq<Seq<char>> {
        self.visited@.map_values(|s: String| s@)
    }

    /// The identifiers waiting to be fetched, with their depth; the last is
    /// taken first.
    pub closed spec fn queue(&self) -> Seq<(Seq<char>, usize)> {
        self.queue@.map_values(|q: (String, usize)| (q.0@, q.1))
    }

    /// How deep links are followed.
    pub closed spec fn max_depth(&self) -> usize {
        self.max_depth
    }

    /// How many papers are kept at most.
    pub closed spec fn max_papers(&self) -> usize {
        self.max_papers
    }

    /// The links followed.
    pub closed spec fn direction(&self) -> CrawlDirection {
        self.direction
    }

    /// Where the crawl stands.
    pub closed spec fn phase(&self) -> CrawlPhase {
        self.phase
    }

    /// The crawl keeps its promises: the graph is well formed and never
    /// holds more than the allowed papers (fewer while a paper is being
    /// fetched), no identifier is fetched twice, and nothing waits deeper
    /// than links are followed.
    pub closed spec fn wf(&self) -> bool {
        &&& self.graph.wf()
        &&& self.visited().no_duplicates()
        &&& forall|i: int| 0 <= i < self.queue@.len() ==> #[trigger] self.queue@[i].1 <= self.max_depth
        &&& match self.phase {
            CrawlPhase::Idle => paper_count(self.graph) <= self.max_papers,
            CrawlPhase::Fetching { paper_id, depth } => {
                &&& paper_count(self.graph) < self.max_papers
                &&& depth <= self.max_depth
                &&& self.visited().len() > 0
                &&& self.visited().last() == paper_id@
            },
            CrawlPhase::Linking { depth, .. } => {
                &&& paper_count(self.graph) <= self.max_papers
                &&& depth < self.max_depth
            },
        }
    }

    /// What a crawl keeps at every step: the graph is well formed and holds
    /// at most the allowed papers, no identifier was fetched twice, and
    /// nothing waits deeper than links are followed.
    pub proof fn lemma_crawl_bounds(&self)
        requires
            self.wf(),
        ensures
            self.graph().wf(),
            paper_count(self.graph()) <= self.max_papers(),
            self.visited().no_duplicates(),
            forall|i: int| 0 <= i < self.queue().len() ==> #[trigger] self.queue()[i].1 <= self.max_depth(),
    {
        assert forall|i: int| 0 <= i < self.queue().len() implies #[trigger] self.queue()[i].1 <= self.max_depth() by {
            assert(self.queue()[i].1 == self.queue@[i].1);
        }
    }

    /// Whether `id` was fetched already.
    fn was_visited(&self, id: &String) -> (b: bool)
        ensures
            b == self.visited().contains(id@),
    {
        let mut i: usize = 0;
        while i < self.visited.len()
            invariant
                i <= self.visited@.len(),
                forall|j: int| 0 <= j < i ==> self.visited@[j]@ != id@,
            decreases self.visited.len() - i,
        {
            if self.visited[i] == *id {
                assert(self.visited()[i as int] == id@);
                return true;
            }
            i = i + 1;
        }
        proof {
            if self.visited().contains(id@) {
                let j = choose|j: int| 0 <= j < self.visited().len() && self.visited()[j] == id@;
                assert(self.visited@[j]@ == id@);
            }
        }
        false
    }

    /// The next thing to do: take identifiers off the queue, last first,
    /// passing over those already fetched or too deep; stop when the queue
    /// is empty or the graph holds the allowed papers; else fetch the
    /// identifier taken.
    pub fn next_action(&mut self) -> (a: CrawlAction)
        requires
            old(self).wf(),
            old(self).phase() is Idle,
        ensures
            final(self).wf(),
            final(self).graph() == old(self).graph(),
            final(self).max_depth() == old(self).max_depth(),
            final(self).max_papers() == old(self).max_papers(),
            final(self).direction() == old(self).direction(),
            final(self).queue() == old(self).queue().take(final(self).queue().len() as int),
            match a {
                CrawlAction::Fetch { paper_id, depth } => {
                    let n = final(self).queue().len() as int;
                    &&& n < old(self).queue().len()
                    &&& old(self).queue()[n] == (paper_id@, depth)
                    &&& forall|i: int| n < i < old(self).queue().len() ==> #[trigger] passed_over(old(self).queue()[i], old(self).visited(), old(self).max_depth())
                    &&& !old(self).visited().contains(paper_id@)
                    &&& final(self).visited() == old(self).visited().push(paper_id@)
                    &&& depth <= old(self).max_depth()
                    &&& paper_count(old(self).graph()) < old(self).max_papers()
                    &&& final(self).phase() == (CrawlPhase::Fetching { paper_id, depth })
                },
                CrawlAction::Done => {
                    &&& final(self).phase() is Idle
                    &&& final(self).visited() == old(self).visited()
                    &&& paper_count(old(self).graph()) >= old(self).max_papers() || (final(self).queue().len() == 0
                        && forall|i: int| 0 <= i < old(self).queue().len() ==> #[trigger] passed_over(old(self).queue()[i], old(self).visited(), old(self).max_depth()))
                },
            },
    {
        loop
            invariant
                self.wf(),
                self.phase is Idle,
                self.graph == old(self).graph,
                self.visited() == old(self).visited(),
                self.max_depth == old(self).max_depth,
                self.max_papers == old(self).max_papers,
                self.direction == old(self).direction,
                self.queue@.len() <= old(self).queue@.len(),
                self.queue() == old(self).queue().take(self.queue().len() as int),
                forall|i: int| self.queue().len() <= i < old(self).queue().len() ==> #[trigger] passed_over(old(self).queue()[i], old(self).visited(), old(self).max_depth()),
            decreases self.queue@.len(),
        {
            let ghost before = self.queue();
            match self.queue.pop() {
                None => {
                    return CrawlAction::Done;
                },
                Some((paper_id, depth)) => {
                    proof {
                        assert(self.queue() =~= before.drop_last());
                        assert(before.last() == (paper_id@, depth));
                        assert(old(self).queue()[before.len() - 1] == (paper_id@, depth));
                        assert(self.queue() =~= old(self).queue().take(self.queue().len() as int));
                    }
                    if self.was_visited(&paper_id) || depth > self.max_depth {
                        continue;
                    }
                    if self.graph.papers().len() >= self.max_papers {
                        return CrawlAction::Done;
                    }
                    let ghost before_visited = self.visited();
                    self.visited.push(paper_id.clone());
                    proof {
                        assert(self.visited() =~= before_visited.push(paper_id@));
                        assert(self.visited().no_duplicates()) by {
                            assert forall|i: int, j: int|
                                0 <= i < j < self.visited().len() implies self.visited()[i] != self.visited()[j] by {
                                if j == self.visited().len() - 1 {
                                    assert(before_visited[i] == self.visited()[i]);
                                    assert(before_visited.contains(self.visited()[i]));
                                }
                            }
                        }
                    }
                    let pid = paper_id.clone();
                    self.phase = CrawlPhase::Fetching { paper_id, depth };
                    return CrawlAction::Fetch { paper_id: pid, depth };
                },
            }
        }
    }

    /// Takes in the paper that was fetched, if the source knows it: a paper
    /// without an id gets one made from its identifier, and joins the
    /// graph. If it was found above the deepest level, the links of
    /// `links_for(direction)` are asked for next.
    pub fn on_paper(&mut self, fetched: Option<Paper>) -> (next: Option<LinkRequest>)
        requires
            old(self).wf(),
            old(self).phase() is Fetching,
        ensures
            final(self).wf(),
            final(self).visited() == old(self).visited(),
            final(self).queue() == old(self).queue(),
            final(self).max_depth() == old(self).max_depth(),
            final(self).max_papers() == old(self).max_papers(),
            final(self).direction() == old(self).direction(),
            match fetched {
                None => {
                    &&& next is None
                    &&& final(self).phase() is Idle
                    &&& final(self).graph() == old(self).graph()
                },
                Some(p) => {
                    let depth = old(self).phase()->Fetching_depth;
                    let k = temporary_id(old(self).phase()->Fetching_paper_id@);
                    &&& (p.id matches Some(k) ==> final(self).graph().paper_map() == old(
                        self,
                    ).graph().paper_map().insert(k, p@))
                    &&& (p.id is None ==> final(self).graph().paper_map() == old(
                        self,
                    ).graph().paper_map().insert(k, with_id(p@, k)))
                    &&& if depth < old(self).max_depth() {
                        next == Some(links_for(old(self).direction())) && final(self).phase()
                            == (CrawlPhase::Linking { depth, asked: links_for(old(self).direction()) })
                    } else {
                        next is None && final(self).phase() is Idle
                    }
                },
            },
    {
        let (paper_id, depth) = match &self.phase {
            CrawlPhase::Fetching { paper_id, depth } => (paper_id.clone(), *depth),
            _ => {
                return None;
            },
        };
        match fetched {
            None => {
                self.phase = CrawlPhase::Idle;
                assert(self.graph() == old(self).graph());
                assert(self.phase() is Idle);
                None
            },
            Some(p) => {
                let ghost pv = p@;
                let ghost mut temp_g: i64 = 0;
                let mut paper = p;
                if paper.id.is_none() {
                    let mut h = DefaultHasher::new();
                    hash_str(paper_id.as_str(), &mut h);
                    let temp = #[verifier::truncate] (h.finish() as i64);
                    assert(temp == temporary_id(paper_id@));
                    paper.id = Some(temp);
                    assert(paper@ == with_id(pv, temp));
                    proof {
                        temp_g = temp;
                    }
                }
                let ghost before = self.graph;
                self.graph.add_paper(paper);
                proof {
                    if pv.id is None {
                        assert(self.graph().paper_map() == old(self).graph().paper_map().insert(
                            temp_g,
                            with_id(pv, temp_g),
                        ));
                    }
                    before.lemma_paper_map_finite();
                    let m = before.paper_map();
                    let k = paper.id->0;
                    if m.dom().contains(k) {
                        assert(m.insert(k, paper@).dom() =~= m.dom());
                    } else {
                        assert(m.insert(k, paper@).dom() =~= m.dom().insert(k));
                    }
                }
                if depth < self.max_depth {
                    match self.direction {
                        CrawlDirection::References => {
                            self.phase = CrawlPhase::Linking { depth, asked: LinkRequest::References };
                            Some(LinkRequest::References)
                        },
                        _ => {
                            self.phase = CrawlPhase::Linking { depth, asked: LinkRequest::Citations };
                            Some(LinkRequest::Citations)
                        },
                    }
                } else {
                    self.phase = CrawlPhase::Idle;
                    None
                }
            },
        }
    }

    /// Takes in the links that were fetched (nothing where asking for them
    /// failed): each linked paper with a Semantic Scholar id waits to be
    /// fetched one level deeper, in order. Then the links `links_after`
    /// names are asked for, if any; else the crawl goes on to the next
    /// paper.
    pub fn on_links(&mut self, links: Option<Vec<(Paper, Vec<Author>)>>) -> (next: Option<LinkRequest>)
        requires
            old(self).wf(),
            old(self).phase() is Linking,
        ensures
            final(self).wf(),
            final(self).graph() == old(self).graph(),
            final(self).visited() == old(self).visited(),
            final(self).max_depth() == old(self).max_depth(),
            final(self).max_papers() == old(self).max_papers(),
            final(self).direction() == old(self).direction(),
            final(self).queue() == match links {
                Some(v) => old(self).queue() + linked_ids(v@, (old(self).phase()->Linking_depth + 1) as usize),
                None => old(self).queue(),
            },
            next == links_after(old(self).direction(), old(self).phase()->Linking_asked),
            !(old(self).direction() is Both) ==> next is None,
            old(self).direction() is Both ==> (next is Some <==> old(self).phase()->Linking_asked is Citations),
            match next {
                Some(n) => final(self).phase() == (CrawlPhase::Linking {
                    depth: old(self).phase()->Linking_depth,
                    asked: n,
                }),
                None => final(self).phase() is Idle,
            },
    {
        let (depth, after_citations) = match &self.phase {
            CrawlPhase::Linking { depth, asked } => (*depth, match asked {
                LinkRequest::Citations => true,
                LinkRequest::References => false,
            }),
            _ => {
                return None;
            },
        };
        let ghost phase0 = self.phase;
        let next_depth = depth + 1;
        match links {
            None => {},
            Some(v) => {
                let ghost lv = v@;
                let ghost q0 = self.queue();
                for pair in it: v
                    invariant
                        it.seq() == lv,
                        self.wf(),
                        self.phase == phase0,
                        phase0 matches CrawlPhase::Linking { depth: d, .. } && d == depth,
                        next_depth == depth + 1,
                        next_depth <= self.max_depth,
                        self.graph == old(self).graph,
                        self.visited() == old(self).visited(),
                        self.max_depth == old(self).max_depth,
                        self.max_papers == old(self).max_papers,
                        self.direction == old(self).direction,
                        self.queue() == q0 + linked_ids(lv.take(it.index() as int), next_depth),
                {
                    let ghost k = it.index();
                    proof {
                        assert(lv.take(k + 1).drop_last() =~= lv.take(k as int));
                        assert(lv.take(k + 1).last() == lv[k as int]);
                    }
                    let (paper, _authors) = pair;
                    match paper.semantic_scholar_id {
                        Some(id) => {
                            let ghost before = self.queue();
                            self.queue.push((id, next_depth));
                            assert(self.queue() =~= before.push((id@, next_depth)));
                        },
                        None => {},
                    }
                    assert(self.queue() =~= q0 + linked_ids(lv.take(k + 1), next_depth));
                }
                assert(lv.take(lv.len() as int) =~= lv);
            },
        }
        let both = match self.direction {
            CrawlDirection::Both => true,
            _ => false,
        };
        if both && after_citations {
            self.phase = CrawlPhase::Linking { depth, asked: LinkRequest::References };
            Some(LinkRequest::References)
        } else {
            self.phase = CrawlPhase::Idle;
            None
        }
    }

    /// The graph the crawl built.
    pub fn into_graph(self) -> (g: CitationGraph)
        requires
            self.wf(),
        ensures
            g == self.graph(),
            g.wf(),
            paper_count(g) <= self.max_papers() || !(self.phase() is Idle),
    {
        self.graph
    }
}

} // verus!
