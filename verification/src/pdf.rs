//! The names PDFs are stored under.
use vstd::prelude::*;

use crate::text::{chars_of, find_chars, find_from, push_char, push_text};

verus! {

/// The text of `s` before its first `c` (all of it if it has none).
pub open spec fn before_first(s: Seq<char>, c: char) -> Seq<char> {
    match find_from(s, seq![c], 0) {
        Some(i) => s.subrange(0, i),
        None => s,
    }
}

/// The text of `s` after its last `c` (all of it if it has none).
pub open spec fn after_last(s: Seq<char>, c: char) -> Seq<char>
    decreases s.len(),
{
    if s.len() == 0 || s.last() == c {
        Seq::empty()
    } else {
        after_last(s.drop_last(), c).push(s.last())
    }
}

/// `s` ends with `.pdf`.
pub open spec fn ends_with_pdf(s: Seq<char>) -> bool {
    s.len() >= 4 && s.subrange(s.len() - 4, s.len() as int) == ".pdf"@
}

/// The file name a PDF address is saved under: the last part of its path
/// (before any `?`), with `.pdf` added where it does not end so; none
/// where that part is empty.
pub open spec fn pdf_file_name_of(url: Seq<char>) -> Option<Seq<char>> {
    let last = after_last(before_first(url, '?'), '/');
    if last.len() == 0 {
        None
    } else if ends_with_pdf(last) {
        Some(last)
    } else {
        Some(last + ".pdf"@)
    }
}

/// The file name the PDF of the arXiv paper `id` is saved under: the id
/// with each `/` made `_`, then `.pdf`.
pub open spec fn arxiv_pdf_name_of(id: Seq<char>) -> Seq<char> {
    id.map_values(|c: char| if c == '/' { '_' } else { c }) + ".pdf"@
}

/// The file name a PDF address is saved under, if it names one.
pub fn pdf_file_name(url: &str) -> (r: Option<String>)
    ensures
        match r {
            Some(n) => pdf_file_name_of(url@) == Some(n@),
            None => pdf_file_name_of(url@) is None,
        },
{
    let v = chars_of(url);
    let mut q: Vec<char> = Vec::new();
    q.push('?');
    assert(q@ =~= seq!['?']);
    let end = match find_chars(v.as_slice(), q.as_slice(), 0) {
        Some(i) => i,
        None => v.len(),
    };
    let ghost base = before_first(url@, '?');
    assert(base =~= v@.subrange(0, end as int));
    let mut start = end;
    while start > 0 && v[start - 1] != '/'
        invariant
            start <= end <= v@.len(),
            base == v@.subrange(0, end as int),
            after_last(base, '/') == after_last(v@.subrange(0, start as int), '/') + v@.subrange(
                start as int,
                end as int,
            ),
        decreases start,
    {
        proof {
            let t = v@.subrange(0, start as int);
            assert(t.drop_last() =~= v@.subrange(0, start - 1));
            assert(t.last() == v@[start - 1]);
            assert(after_last(t, '/') == after_last(v@.subrange(0, start - 1), '/').push(v@[start - 1]));
            assert(after_last(v@.subrange(0, start - 1), '/').push(v@[start - 1]) + v@.subrange(
                start as int,
                end as int,
            ) =~= after_last(v@.subrange(0, start - 1), '/') + v@.subrange(start - 1, end as int));
        }
        start = start - 1;
    }
    proof {
        let t = v@.subrange(0, start as int);
        assert(after_last(t, '/') =~= Seq::<char>::empty());
        assert(after_last(base, '/') =~= v@.subrange(start as int, end as int));
    }
    if start == end {
        return None;
    }
    let n = end - start;
    let ghost last = v@.subrange(start as int, end as int);
    let pdf = n >= 4 && v[end - 4] == '.' && v[end - 3] == 'p' && v[end - 2] == 'd' && v[end - 1] == 'f';
    proof {
        reveal_strlit(".pdf");
        assert(".pdf"@ =~= seq!['.', 'p', 'd', 'f']);
        assert(last.len() == n);
        if n >= 4 {
            assert(last.subrange(last.len() - 4, last.len() as int) =~= seq![
                v@[end - 4],
                v@[end - 3],
                v@[end - 2],
                v@[end - 1],
            ]);
        }
        assert(pdf == ends_with_pdf(last));
    }
    let mut out = String::new();
    let mut k = start;
    while k < end
        invariant
            start <= k <= end <= v@.len(),
            out@ == v@.subrange(start as int, k as int),
        decreases end - k,
    {
        push_char(&mut out, v[k]);
        assert(v@.subrange(start as int, k + 1) =~= v@.subrange(start as int, k as int).push(v@[k as int]));
        k = k + 1;
    }
    if !pdf {
        push_text(&mut out, ".pdf");
    }
    Some(out)
}

/// The file name the PDF of the arXiv paper `id` is saved under.
pub fn arxiv_pdf_name(id: &str) -> (r: String)
    ensures
        r@ == arxiv_pdf_name_of(id@),
{
    let v = chars_of(id);
    let mut out = String::new();
    let mut k: usize = 0;
    while k < v.len()
        invariant
            k <= v@.len(),
            v@ == id@,
            out@ == v@.take(k as int).map_values(|c: char| if c == '/' { '_' } else { c }),
        decreases v.len() - k,
    {
        let c = if v[k] == '/' { '_' } else { v[k] };
        push_char(&mut out, c);
        assert(v@.take(k + 1) =~= v@.take(k as int).push(v@[k as int]));
        assert(v@.take(k + 1).map_values(|c: char| if c == '/' { '_' } else { c }) =~= v@.take(
            k as int,
        ).map_values(|c: char| if c == '/' { '_' } else { c }).push(c));
        k = k + 1;
    }
    assert(v@.take(v@.len() as int) =~= v@);
    push_text(&mut out, ".pdf");
    out
}

} // verus!
