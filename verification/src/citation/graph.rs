//! The citation graph: papers by id, the papers each one cites, and the
//! papers that cite each one.
use std::collections::HashMap;
use vstd::prelude::*;

use crate::models::{Paper, PaperView};
use crate::text::{chars_of, holds_piece, push_char, push_signed_decimal, push_text, signed_decimal};
use vstd::std_specs::iter::IteratorSpec;

verus! {

broadcast use {vstd::std_specs::hash::group_hash_axioms, vstd::seq_lib::group_to_multiset_ensures};

/// How many times `x` stands in `s`.
pub open spec fn count_in(s: Seq<i64>, x: i64) -> nat {
    s.to_multiset().count(x)
}

/// The first `n` characters of `s` (all of them if it is shorter).
pub open spec fn first_chars(s: Seq<char>, n: nat) -> Seq<char> {
    if s.len() <= n {
        s
    } else {
        s.take(n as int)
    }
}

/// The DOT line of a paper node: its id, labelled with the first 50
/// characters of its title.
pub open spec fn node_line(id: i64, title: Seq<char>) -> Seq<char> {
    "  "@ + signed_decimal(id as int) + " [label=\""@ + first_chars(title, 50) + "\"];\n"@
}

/// The DOT lines of the nodes, in order.
pub open spec fn node_lines(ns: Seq<(i64, Seq<char>)>) -> Seq<char>
    decreases ns.len(),
{
    if ns.len() == 0 {
        Seq::empty()
    } else {
        node_lines(ns.drop_last()) + node_line(ns.last().0, ns.last().1)
    }
}

/// The DOT lines of the links from `a` to each of `bs`, in order.
pub open spec fn edge_lines_from(a: i64, bs: Seq<i64>) -> Seq<char>
    decreases bs.len(),
{
    if bs.len() == 0 {
        Seq::empty()
    } else {
        edge_lines_from(a, bs.drop_last()) + "  "@ + signed_decimal(a as int) + " -> "@
            + signed_decimal(bs.last() as int) + ";\n"@
    }
}

/// The DOT lines of all the links, citing paper by citing paper.
pub open spec fn edge_lines(es: Seq<(i64, Seq<i64>)>) -> Seq<char>
    decreases es.len(),
{
    if es.len() == 0 {
        Seq::empty()
    } else {
        edge_lines(es.drop_last()) + edge_lines_from(es.last().0, es.last().1)
    }
}

/// The links of the lists, as pairs of citing and cited id, list by list.
pub open spec fn edge_pairs(es: Seq<(i64, Seq<i64>)>) -> Seq<(i64, i64)>
    decreases es.len(),
{
    if es.len() == 0 {
        Seq::empty()
    } else {
        edge_pairs(es.drop_last()) + es.last().1.map_values(|b: i64| (es.last().0, b))
    }
}

/// A DOT graph with these nodes and links.
pub open spec fn dot_text(ns: Seq<(i64, Seq<char>)>, es: Seq<(i64, Seq<i64>)>) -> Seq<char> {
    "digraph citations {\n"@ + "  rankdir=LR;\n"@ + "  node [shape=box];\n\n"@ + node_lines(ns) + "\n"@
        + edge_lines(es) + "}\n"@
}

/// The DOT line of the link from `a` to `b`.
pub open spec fn edge_line(a: i64, b: i64) -> Seq<char> {
    "  "@ + signed_decimal(a as int) + " -> "@ + signed_decimal(b as int) + ";\n"@
}

/// The lines of the links from `a` to two lists one after the other are
/// the lines to the first list followed by those to the second.
pub proof fn lemma_edge_lines_from_concat(a: i64, bs: Seq<i64>, cs: Seq<i64>)
    ensures
        edge_lines_from(a, bs + cs) == edge_lines_from(a, bs) + edge_lines_from(a, cs),
    decreases cs.len(),
{
    if cs.len() == 0 {
        assert(bs + cs =~= bs);
        assert(edge_lines_from(a, bs) + edge_lines_from(a, cs) =~= edge_lines_from(a, bs));
    } else {
        lemma_edge_lines_from_concat(a, bs, cs.drop_last());
        assert((bs + cs).drop_last() =~= bs + cs.drop_last());
        assert((bs + cs).last() == cs.last());
        assert(edge_lines_from(a, bs + cs) =~= edge_lines_from(a, bs) + edge_lines_from(a, cs));
    }
}

/// The link from `a` to one paper `b` is one line.
pub proof fn lemma_edge_lines_from_one(a: i64, b: i64)
    ensures
        edge_lines_from(a, seq![b]) == edge_line(a, b),
{
    assert(seq![b].drop_last() =~= Seq::<i64>::empty());
    assert(seq![b].last() == b);
    assert(edge_lines_from(a, Seq::<i64>::empty()) == Seq::<char>::empty());
    assert(edge_lines_from(a, seq![b]) =~= edge_line(a, b));
}

/// The link lines of two lists of citing papers one after the other are
/// those of the first followed by those of the second.
pub proof fn lemma_edge_lines_concat(es: Seq<(i64, Seq<i64>)>, fs: Seq<(i64, Seq<i64>)>)
    ensures
        edge_lines(es + fs) == edge_lines(es) + edge_lines(fs),
    decreases fs.len(),
{
    if fs.len() == 0 {
        assert(es + fs =~= es);
        assert(edge_lines(es) + edge_lines(fs) =~= edge_lines(es));
    } else {
        lemma_edge_lines_concat(es, fs.drop_last());
        assert((es + fs).drop_last() =~= es + fs.drop_last());
        assert((es + fs).last() == fs.last());
        assert(edge_lines(es + fs) =~= edge_lines(es) + edge_lines(fs));
    }
}

/// Each link of a citing paper's list has its own line among that
/// paper's link lines, in the list's order.
pub proof fn lemma_edge_lines_from_show_each(a: i64, bs: Seq<i64>, j: int)
    requires
        0 <= j < bs.len(),
    ensures
        edge_lines_from(a, bs) == edge_lines_from(a, bs.take(j)) + edge_line(a, bs[j]) + edge_lines_from(
            a,
            bs.skip(j + 1),
        ),
{
    assert(bs =~= bs.take(j) + seq![bs[j]] + bs.skip(j + 1));
    lemma_edge_lines_from_concat(a, bs.take(j) + seq![bs[j]], bs.skip(j + 1));
    lemma_edge_lines_from_concat(a, bs.take(j), seq![bs[j]]);
    lemma_edge_lines_from_one(a, bs[j]);
}

/// A DOT text shows every link of the lists it is made from: for each
/// citing paper `es[i].0` and each paper `es[i].1[j]` it cites, the text
/// holds the line `  a -> b;`.
pub proof fn lemma_dot_shows_every_link(ns: Seq<(i64, Seq<char>)>, es: Seq<(i64, Seq<i64>)>, i: int, j: int)
    requires
        0 <= i < es.len(),
        0 <= j < es[i].1.len(),
    ensures
        holds_piece(dot_text(ns, es), edge_line(es[i].0, es[i].1[j])),
{
    let a = es[i].0;
    let bs = es[i].1;
    assert(es =~= es.take(i) + seq![es[i]] + es.skip(i + 1));
    lemma_edge_lines_concat(es.take(i) + seq![es[i]], es.skip(i + 1));
    lemma_edge_lines_concat(es.take(i), seq![es[i]]);
    assert(seq![es[i]].drop_last() =~= Seq::<(i64, Seq<i64>)>::empty());
    assert(seq![es[i]].last() == es[i]);
    assert(edge_lines(Seq::<(i64, Seq<i64>)>::empty()) == Seq::<char>::empty());
    assert(edge_lines(seq![es[i]]) =~= edge_lines_from(a, bs));
    lemma_edge_lines_from_show_each(a, bs, j);
    let head = "digraph citations {\n"@ + "  rankdir=LR;\n"@ + "  node [shape=box];\n\n"@ + node_lines(ns) + "\n"@;
    let x = head + edge_lines(es.take(i)) + edge_lines_from(a, bs.take(j));
    let y = edge_lines_from(a, bs.skip(j + 1)) + edge_lines(es.skip(i + 1)) + "}\n"@;
    assert(dot_text(ns, es) == head + edge_lines(es) + "}\n"@);
    assert(dot_text(ns, es) =~= (x + edge_line(a, bs[j])) + y);
}

/// Nothing stands in the empty sequence.
pub proof fn lemma_count_empty(x: i64)
    ensures
        count_in(Seq::<i64>::empty(), x) == 0,
{
    assert(Seq::<i64>::empty().to_multiset() =~= vstd::multiset::Multiset::<i64>::empty());
}

/// Appending `v` adds one to its count and leaves the others.
pub proof fn lemma_count_push(s: Seq<i64>, v: i64, x: i64)
    ensures
        count_in(s.push(v), x) == count_in(s, x) + if v == x {
            1nat
        } else {
            0nat
        },
{
    assert(s.push(v).to_multiset() =~= s.to_multiset().insert(v));
}

/// A citation graph.
pub struct CitationGraph {
    papers: HashMap<i64, Paper>,
    citations: HashMap<i64, Vec<i64>>,
    cited_by: HashMap<i64, Vec<i64>>,
}

impl CitationGraph {
    /// The papers of the graph, by id.
    pub closed spec fn paper_map(&self) -> Map<i64, PaperView> {
        self.papers@.map_values(|p: Paper| p@)
    }

    /// The ids that `id` cites, in the order the links were added (empty
    /// where none was).
    pub closed spec fn citations_of(&self, id: i64) -> Seq<i64> {
        if self.citations@.contains_key(id) {
            self.citations@[id]@
        } else {
            Seq::empty()
        }
    }

    /// The ids that cite `id`, in the order the links were added (empty
    /// where none was).
    pub closed spec fn cited_by_of(&self, id: i64) -> Seq<i64> {
        if self.cited_by@.contains_key(id) {
            self.cited_by@[id]@
        } else {
            Seq::empty()
        }
    }

    /// The ids that have a list of cited papers.
    pub closed spec fn citing_ids(&self) -> Set<i64> {
        self.citations@.dom()
    }

    /// The ids that have a list of citing papers.
    pub closed spec fn cited_ids(&self) -> Set<i64> {
        self.cited_by@.dom()
    }

    /// Well-formedness: each paper is stored under its own id, and each
    /// link is recorded as often on the citing side as on the cited side.
    pub closed spec fn wf(&self) -> bool {
        &&& forall|k: i64| #[trigger] self.papers@.contains_key(k) ==> self.papers@[k].id == Some(k)
        &&& forall|a: i64, b: i64|
            #![trigger count_in(self.citations_of(a), b)]
            #![trigger count_in(self.cited_by_of(b), a)]
            count_in(self.citations_of(a), b) == count_in(self.cited_by_of(b), a)
    }

    /// The graph holds finitely many papers.
    pub proof fn lemma_paper_map_finite(&self)
        ensures
            self.paper_map().dom().finite(),
    {
        assert(self.paper_map().dom() =~= self.papers@.dom());
    }

    /// In a well-formed graph every link is recorded as often among the
    /// papers `a` cites as among the papers citing `b`.
    pub proof fn lemma_links_mirrored(&self, a: i64, b: i64)
        requires
            self.wf(),
        ensures
            count_in(self.citations_of(a), b) == count_in(self.cited_by_of(b), a),
    {
    }

    /// In a well-formed graph each paper is stored under its own id.
    pub proof fn lemma_papers_under_own_id(&self, k: i64)
        requires
            self.wf(),
            self.paper_map().contains_key(k),
        ensures
            self.paper_map()[k].id == Some(k),
    {
    }

    /// An empty graph.
    pub fn new() -> (g: CitationGraph)
        ensures
            g.wf(),
            g.paper_map() == Map::<i64, PaperView>::empty(),
            g.citing_ids() == Set::<i64>::empty(),
            g.cited_ids() == Set::<i64>::empty(),
    {
        let g = CitationGraph { papers: HashMap::new(), citations: HashMap::new(), cited_by: HashMap::new() };
        assert(g.paper_map() =~= Map::<i64, PaperView>::empty());
        g
    }

    /// Adds a paper under its id; a paper without an id is not added, and
    /// one with the id of a paper already there takes its place.
    pub fn add_paper(&mut self, paper: Paper)
        requires
            old(self).wf(),
        ensures
            final(self).wf(),
            final(self).paper_map() == match paper.id {
                Some(id) => old(self).paper_map().insert(id, paper@),
                None => old(self).paper_map(),
            },
            forall|a: i64| #[trigger] final(self).citations_of(a) == old(self).citations_of(a),
            forall|a: i64| #[trigger] final(self).cited_by_of(a) == old(self).cited_by_of(a),
            final(self).citing_ids() == old(self).citing_ids(),
            final(self).cited_ids() == old(self).cited_ids(),
    {
        match paper.id {
            Some(id) => {
                let ghost pv = paper@;
                let ghost pid = paper.id;
                self.papers.insert(id, paper);
                assert(self.paper_map() =~= old(self).paper_map().insert(id, pv));
                assert forall|k: i64| #[trigger] self.papers@.contains_key(k) implies self.papers@[k].id == Some(k) by {
                    if k != id {
                        assert(old(self).papers@.contains_key(k));
                    }
                }
                assert forall|a: i64, b: i64| count_in(self.citations_of(a), b) == count_in(self.cited_by_of(b), a) by {
                    assert(count_in(old(self).citations_of(a), b) == count_in(old(self).cited_by_of(b), a));
                }
            },
            None => {},
        }
    }

    /// Records that `citing_id` cites `cited_id`.
    pub fn add_citation(&mut self, citing_id: i64, cited_id: i64)
        requires
            old(self).wf(),
        ensures
            final(self).wf(),
            final(self).paper_map() == old(self).paper_map(),
            final(self).citations_of(citing_id) == old(self).citations_of(citing_id).push(cited_id),
            final(self).cited_by_of(cited_id) == old(self).cited_by_of(cited_id).push(citing_id),
            forall|a: i64| a != citing_id ==> #[trigger] final(self).citations_of(a) == old(self).citations_of(a),
            forall|a: i64| a != cited_id ==> #[trigger] final(self).cited_by_of(a) == old(self).cited_by_of(a),
            final(self).citing_ids() == old(self).citing_ids().insert(citing_id),
            final(self).cited_ids() == old(self).cited_ids().insert(cited_id),
    {
        let mut out = match self.citations.remove(&citing_id) {
            Some(v) => v,
            None => Vec::new(),
        };
        out.push(cited_id);
        self.citations.insert(citing_id, out);
        let mut inc = match self.cited_by.remove(&cited_id) {
            Some(v) => v,
            None => Vec::new(),
        };
        inc.push(citing_id);
        self.cited_by.insert(cited_id, inc);
        assert(self.citing_ids() =~= old(self).citing_ids().insert(citing_id));
        assert(self.cited_ids() =~= old(self).cited_ids().insert(cited_id));
        assert(self.paper_map() =~= old(self).paper_map());
        assert forall|a: i64, b: i64| count_in(self.citations_of(a), b) == count_in(self.cited_by_of(b), a) by {
            assert(count_in(old(self).citations_of(a), b) == count_in(old(self).cited_by_of(b), a));
            if a == citing_id {
                assert(self.citations_of(a) == old(self).citations_of(a).push(cited_id));
            }
            if b == cited_id {
                assert(self.cited_by_of(b) == old(self).cited_by_of(b).push(citing_id));
            }
        }
    }

    /// The ids that `paper_id` cites, if it has a list.
    pub fn get_citations(&self, paper_id: i64) -> (r: Option<&[i64]>)
        ensures
            r is Some <==> self.citing_ids().contains(paper_id),
            r matches Some(s) ==> s@ == self.citations_of(paper_id),
    {
        match self.citations.get(&paper_id) {
            Some(v) => Some(v.as_slice()),
            None => None,
        }
    }

    /// The ids that cite `paper_id`, if it has a list.
    pub fn get_cited_by(&self, paper_id: i64) -> (r: Option<&[i64]>)
        ensures
            r is Some <==> self.cited_ids().contains(paper_id),
            r matches Some(s) ==> s@ == self.cited_by_of(paper_id),
    {
        match self.cited_by.get(&paper_id) {
            Some(v) => Some(v.as_slice()),
            None => None,
        }
    }

    /// How many times `paper_id` is cited.
    pub fn citation_count(&self, paper_id: i64) -> (n: usize)
        ensures
            n == self.cited_by_of(paper_id).len(),
    {
        match self.cited_by.get(&paper_id) {
            Some(v) => v.len(),
            None => 0,
        }
    }

    /// `ns` lists each paper of the graph once, by id and title, in some
    /// order.
    pub open spec fn lists_nodes(&self, ns: Seq<(i64, Seq<char>)>) -> bool {
        &&& ns.len() == self.paper_map().dom().len()
        &&& forall|i: int|
            0 <= i < ns.len() ==> self.paper_map().contains_key(#[trigger] ns[i].0) && ns[i].1
                == self.paper_map()[ns[i].0].title
        &&& forall|i: int, j: int| 0 <= i < j < ns.len() ==> #[trigger] ns[i].0 != #[trigger] ns[j].0
    }

    /// `es` lists each paper with a list of cited papers once, with that
    /// list, in some order.
    pub open spec fn lists_edges(&self, es: Seq<(i64, Seq<i64>)>) -> bool {
        &&& es.len() == self.citing_ids().len()
        &&& forall|i: int|
            0 <= i < es.len() ==> self.citing_ids().contains(#[trigger] es[i].0) && es[i].1
                == self.citations_of(es[i].0)
        &&& forall|i: int, j: int| 0 <= i < j < es.len() ==> #[trigger] es[i].0 != #[trigger] es[j].0
    }

    /// A listing of the graph's links names every paper that has a list of
    /// cited papers.
    pub proof fn lemma_lists_edges_complete(&self, es: Seq<(i64, Seq<i64>)>, a: i64) -> (i: int)
        requires
            self.lists_edges(es),
            self.citing_ids().contains(a),
        ensures
            0 <= i < es.len(),
            es[i].0 == a,
    {
        let keys = es.map_values(|e: (i64, Seq<i64>)| e.0);
        assert(self.citing_ids() =~= self.citations@.dom());
        assert(self.citing_ids().finite());
        assert(keys.no_duplicates()) by {
            assert forall|x: int, y: int| 0 <= x < keys.len() && 0 <= y < keys.len() && x != y implies keys[x]
                != keys[y] by {
                if x < y {
                    assert(es[x].0 != es[y].0);
                } else {
                    assert(es[y].0 != es[x].0);
                }
            }
        }
        keys.unique_seq_to_set();
        if !keys.to_set().contains(a) {
            assert(keys.to_set().subset_of(self.citing_ids().remove(a))) by {
                assert forall|k: i64| keys.to_set().contains(k) implies self.citing_ids().remove(a).contains(k) by {
                    let x = choose|x: int| 0 <= x < keys.len() && keys[x] == k;
                    assert(self.citing_ids().contains(es[x].0));
                }
            }
            vstd::set_lib::lemma_len_subset(keys.to_set(), self.citing_ids().remove(a));
            assert(false);
        }
        let i = choose|i: int| 0 <= i < keys.len() && keys[i] == a;
        i
    }

    /// The DOT text of the graph shows every recorded link: for each paper
    /// `a` that cites others and each paper `b` in its list, the line
    /// `  a -> b;`.
    pub proof fn lemma_dot_shows_graph_links(
        &self,
        ns: Seq<(i64, Seq<char>)>,
        es: Seq<(i64, Seq<i64>)>,
        a: i64,
        j: int,
    )
        requires
            self.lists_edges(es),
            0 <= j < self.citations_of(a).len(),
        ensures
            holds_piece(dot_text(ns, es), edge_line(a, self.citations_of(a)[j])),
    {
        assert(self.citing_ids().contains(a));
        let i = self.lemma_lists_edges_complete(es, a);
        lemma_dot_shows_every_link(ns, es, i, j);
    }

    /// The graph in Graphviz DOT: each paper a box labelled with the first
    /// 50 characters of its title, each recorded link an arrow, papers and
    /// citing papers in the order the maps are walked.
    pub fn to_dot(&self) -> (r: String)
        requires
            self.wf(),
        ensures
            exists|ns: Seq<(i64, Seq<char>)>, es: Seq<(i64, Seq<i64>)>|
                self.lists_nodes(ns) && self.lists_edges(es) && r@ == dot_text(ns, es),
            forall|a: i64, j: int|
                0 <= j < self.citations_of(a).len() ==> holds_piece(r@, #[trigger] edge_line(a, self.citations_of(a)[j])),
    {
        let mut r = String::new();
        push_text(&mut r, "digraph citations {\n");
        push_text(&mut r, "  rankdir=LR;\n");
        push_text(&mut r, "  node [shape=box];\n\n");
        let ghost head = r@;
        let ghost m = self.papers@;
        let ghost mut ns: Seq<(i64, Seq<char>)> = Seq::empty();
        for (id, paper) in it: self.papers.iter()
            invariant
                m == self.papers@,
                it.seq() == vstd::std_specs::hash::spec_hash_map_iter(&self.papers).remaining(),
                ns.len() == it.index(),
                forall|i: int| 0 <= i < ns.len() ==> #[trigger] ns[i] == (*it.seq()[i].0, it.seq()[i].1.title@),
                r@ == head + node_lines(ns),
        {
            let ghost before = r@;
            push_text(&mut r, "  ");
            push_signed_decimal(&mut r, *id);
            push_text(&mut r, " [label=\"");
            let title = chars_of(paper.title.as_str());
            let n = if title.len() < 50 { title.len() } else { 50 };
            let mut k: usize = 0;
            while k < n
                invariant
                    n <= title@.len(),
                    k <= n,
                    r@ == before + "  "@ + signed_decimal(*id as int) + " [label=\""@ + title@.take(k as int),
                decreases n - k,
            {
                push_char(&mut r, title[k]);
                assert(title@.take(k + 1) =~= title@.take(k as int).push(title@[k as int]));
                k = k + 1;
            }
            push_text(&mut r, "\"];\n");
            proof {
                assert(title@.take(n as int) =~= first_chars(paper.title@, 50));
                let old_ns = ns;
                ns = ns.push((*id, paper.title@));
                assert(ns.drop_last() =~= old_ns);
                assert(r@ =~= head + node_lines(ns));
            }
        }
        push_text(&mut r, "\n");
        let ghost mid = r@;
        let ghost cm = self.citations@;
        let ghost mut es: Seq<(i64, Seq<i64>)> = Seq::empty();
        for (citing, cited) in it: self.citations.iter()
            invariant
                cm == self.citations@,
                it.seq() == vstd::std_specs::hash::spec_hash_map_iter(&self.citations).remaining(),
                es.len() == it.index(),
                forall|i: int| 0 <= i < es.len() ==> #[trigger] es[i] == (*it.seq()[i].0, it.seq()[i].1@),
                r@ == mid + edge_lines(es),
        {
            let ghost before = r@;
            let mut k: usize = 0;
            while k < cited.len()
                invariant
                    k <= cited@.len(),
                    r@ == before + edge_lines_from(*citing, cited@.take(k as int)),
                decreases cited.len() - k,
            {
                push_text(&mut r, "  ");
                push_signed_decimal(&mut r, *citing);
                push_text(&mut r, " -> ");
                push_signed_decimal(&mut r, cited[k]);
                push_text(&mut r, ";\n");
                proof {
                    assert(cited@.take(k + 1).drop_last() =~= cited@.take(k as int));
                    assert(r@ =~= before + edge_lines_from(*citing, cited@.take(k + 1)));
                }
                k = k + 1;
            }
            proof {
                assert(cited@.take(cited@.len() as int) =~= cited@);
                let old_es = es;
                es = es.push((*citing, cited@));
                assert(es.drop_last() =~= old_es);
                assert(r@ =~= mid + edge_lines(es));
            }
        }
        push_text(&mut r, "}\n");
        proof {
            let v = vstd::std_specs::hash::spec_hash_map_iter(&self.papers).remaining();
            let w = vstd::std_specs::hash::spec_hash_map_iter(&self.citations).remaining();
            assert(v.no_duplicates());
            assert(w.no_duplicates());
            assert(self.paper_map().dom() =~= m.dom());
            assert forall|i: int| 0 <= i < ns.len() implies self.paper_map().contains_key(#[trigger] ns[i].0) && ns[i].1
                == self.paper_map()[ns[i].0].title by {
                assert(m.contains_key(*v[i].0));
                assert(m[*v[i].0] == *v[i].1);
            }
            assert forall|i: int, j: int| 0 <= i < j < ns.len() implies #[trigger] ns[i].0 != #[trigger] ns[j].0 by {
                assert(m.contains_key(*v[i].0) && m[*v[i].0] == *v[i].1);
                assert(m.contains_key(*v[j].0) && m[*v[j].0] == *v[j].1);
                assert(v[i] != v[j]);
            }
            assert forall|i: int| 0 <= i < es.len() implies self.citing_ids().contains(#[trigger] es[i].0) && es[i].1
                == self.citations_of(es[i].0) by {
                assert(cm.contains_key(*w[i].0));
                assert(cm[*w[i].0] == *w[i].1);
            }
            assert forall|i: int, j: int| 0 <= i < j < es.len() implies #[trigger] es[i].0 != #[trigger] es[j].0 by {
                assert(cm.contains_key(*w[i].0) && cm[*w[i].0] == *w[i].1);
                assert(cm.contains_key(*w[j].0) && cm[*w[j].0] == *w[j].1);
                assert(w[i] != w[j]);
            }
            assert(self.lists_nodes(ns));
            assert(self.lists_edges(es));
            assert(r@ =~= dot_text(ns, es));
            assert forall|a: i64, j: int|
                0 <= j < self.citations_of(a).len() implies holds_piece(r@, #[trigger] edge_line(a, self.citations_of(a)[j])) by {
                self.lemma_dot_shows_graph_links(ns, es, a, j);
            }
        }
        r
    }

    /// Every recorded link as a pair of citing and cited id, citing paper
    /// by citing paper in the order the map is walked, each one's links in
    /// the order they were added.
    pub fn edges(&self) -> (r: Vec<(i64, i64)>)
        ensures
            exists|es: Seq<(i64, Seq<i64>)>| self.lists_edges(es) && r@ == edge_pairs(es),
    {
        let mut r: Vec<(i64, i64)> = Vec::new();
        let ghost cm = self.citations@;
        let ghost mut es: Seq<(i64, Seq<i64>)> = Seq::empty();
        for (citing, cited) in it: self.citations.iter()
            invariant
                cm == self.citations@,
                it.seq() == vstd::std_specs::hash::spec_hash_map_iter(&self.citations).remaining(),
                es.len() == it.index(),
                forall|i: int| 0 <= i < es.len() ==> #[trigger] es[i] == (*it.seq()[i].0, it.seq()[i].1@),
                r@ == edge_pairs(es),
        {
            let ghost before = r@;
            let mut k: usize = 0;
            while k < cited.len()
                invariant
                    k <= cited@.len(),
                    r@ == before + cited@.take(k as int).map_values(|b: i64| (*citing, b)),
                decreases cited.len() - k,
            {
                r.push((*citing, cited[k]));
                assert(cited@.take(k + 1).map_values(|b: i64| (*citing, b)) =~= cited@.take(k as int).map_values(
                    |b: i64| (*citing, b),
                ).push((*citing, cited@[k as int])));
                k = k + 1;
            }
            proof {
                assert(cited@.take(cited@.len() as int) =~= cited@);
                let old_es = es;
                es = es.push((*citing, cited@));
                assert(es.drop_last() =~= old_es);
                assert(r@ =~= edge_pairs(es));
            }
        }
        proof {
            let w = vstd::std_specs::hash::spec_hash_map_iter(&self.citations).remaining();
            assert(w.no_duplicates());
            assert forall|i: int| 0 <= i < es.len() implies self.citing_ids().contains(#[trigger] es[i].0) && es[i].1
                == self.citations_of(es[i].0) by {
                assert(cm.contains_key(*w[i].0));
                assert(cm[*w[i].0] == *w[i].1);
            }
            assert forall|i: int, j: int| 0 <= i < j < es.len() implies #[trigger] es[i].0 != #[trigger] es[j].0 by {
                assert(cm.contains_key(*w[i].0) && cm[*w[i].0] == *w[i].1);
                assert(cm.contains_key(*w[j].0) && cm[*w[j].0] == *w[j].1);
                assert(w[i] != w[j]);
            }
            assert(self.lists_edges(es));
        }
        r
    }

    /// The papers of the graph, each once, in no particular order.
    pub fn papers(&self) -> (r: Vec<&Paper>)
        requires
            self.wf(),
        ensures
            r@.len() == self.paper_map().dom().len(),
            forall|i: int|
                0 <= i < r@.len() ==> (#[trigger] r@[i].id matches Some(k) && self.paper_map().contains_key(k)
                    && self.paper_map()[k] == r@[i]@),
            forall|i: int, j: int| 0 <= i < j < r@.len() ==> #[trigger] r@[i].id != #[trigger] r@[j].id,
    {
        let mut r: Vec<&Paper> = Vec::new();
        let ghost m = self.papers@;
        for (k, p) in it: self.papers.iter()
            invariant
                self.wf(),
                m == self.papers@,
                it.seq() == vstd::std_specs::hash::spec_hash_map_iter(&self.papers).remaining(),
                r@.len() == it.index(),
                forall|i: int| 0 <= i < r@.len() ==> #[trigger] r@[i] == *it.seq()[i].1,
        {
            r.push(p);
        }
        let ghost v = vstd::std_specs::hash::spec_hash_map_iter(&self.papers).remaining();
        assert(v.no_duplicates());
        assert(self.paper_map().dom() =~= m.dom());
        assert(v.len() == m.dom().len());
        assert forall|i: int| 0 <= i < r@.len() implies (#[trigger] r@[i].id matches Some(k) && self.paper_map().contains_key(k)
            && self.paper_map()[k] == r@[i]@) by {
            assert(m.contains_key(*v[i].0));
            assert(m[*v[i].0] == *v[i].1);
        }
        assert forall|i: int, j: int| 0 <= i < j < r@.len() implies #[trigger] r@[i].id != #[trigger] r@[j].id by {
            assert(m.contains_key(*v[i].0));
            assert(m.contains_key(*v[j].0));
            assert(m[*v[i].0] == *v[i].1);
            assert(m[*v[j].0] == *v[j].1);
            assert(v[i] != v[j]);
        }
        r
    }
}

impl Default for CitationGraph {
    fn default() -> (g: CitationGraph)
        ensures
            g.wf(),
            g.paper_map() == Map::<i64, PaperView>::empty(),
            g.citing_ids() == Set::<i64>::empty(),
            g.cited_ids() == Set::<i64>::empty(),
    {
        CitationGraph::new()
    }
}

} // verus!
