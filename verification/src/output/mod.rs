//! Output formats: which ones there are, and the text of each.
pub mod bibtex;
pub mod json;
pub mod markdown;
pub mod terminal;

pub use bibtex::BibtexFormatter;
pub use json::JsonFormatter;
pub use markdown::MarkdownFormatter;
pub use terminal::TerminalFormatter;

use vstd::prelude::*;

use crate::text::{chars_of, push_text};

verus! {

/// Which side of a citation a list of papers is on.
pub enum CitationDirection {
    /// The papers that cite the paper.
    Citing,
    /// The papers the paper cites.
    Cited,
}

/// The output formats.
pub enum OutputFormat {
    Terminal,
    Json,
    Bibtex,
    Markdown,
}

/// `str::to_lowercase`, named: the lower-case form of a text by Unicode's
/// rules.
pub uninterp spec fn lowercase(s: Seq<char>) -> Seq<char>;

/// A text of ASCII characters only.
pub open spec fn is_ascii_text(s: Seq<char>) -> bool {
    forall|i: int| 0 <= i < s.len() ==> (#[trigger] s[i] as u32) < 128
}

/// The lower-case form of an ASCII character: `A` to `Z` become `a` to
/// `z`, the others stay.
pub open spec fn ascii_lower(c: char) -> char {
    if 'A' <= c && c <= 'Z' {
        ((c as u32) + 32) as char
    } else {
        c
    }
}

/// The lower-case form of a text: for an ASCII text each letter lowered;
/// beyond ASCII, by Unicode's rules (named).
pub open spec fn lower_text(s: Seq<char>) -> Seq<char> {
    if is_ascii_text(s) {
        s.map_values(|c: char| ascii_lower(c))
    } else {
        lowercase(s)
    }
}

/// The lower-case form of `s`; `str::to_lowercase`. An ASCII text has its
/// letters `A` to `Z` lowered and the rest kept.
#[verifier::external_body]
fn to_lowercase(s: &str) -> (r: String)
    ensures
        r@ == lowercase(s@),
        is_ascii_text(s@) ==> r@ == s@.map_values(|c: char| ascii_lower(c)),
{
    s.to_lowercase()
}

/// The lower-case form of `s`.
pub fn lowercase_of(s: &str) -> (r: String)
    ensures
        r@ == lower_text(s@),
{
    to_lowercase(s)
}

/// The format a name stands for, once lower-cased.
pub open spec fn format_named(name: Seq<char>) -> Option<OutputFormat> {
    if name == "terminal"@ || name == "text"@ {
        Some(OutputFormat::Terminal)
    } else if name == "json"@ {
        Some(OutputFormat::Json)
    } else if name == "bibtex"@ || name == "bib"@ {
        Some(OutputFormat::Bibtex)
    } else if name == "markdown"@ || name == "md"@ {
        Some(OutputFormat::Markdown)
    } else {
        None
    }
}

/// Whether two texts are the same.
fn same_text(a: &[char], b: &str) -> (r: bool)
    ensures
        r == (a@ == b@),
{
    let bv = chars_of(b);
    if a.len() != bv.len() {
        return false;
    }
    let mut i: usize = 0;
    while i < a.len()
        invariant
            a@.len() == bv@.len(),
            bv@ == b@,
            i <= a@.len(),
            forall|j: int| 0 <= j < i ==> a@[j] == bv@[j],
        decreases a.len() - i,
    {
        if a[i] != bv[i] {
            return false;
        }
        i = i + 1;
    }
    assert(a@ =~= bv@);
    true
}

impl OutputFormat {
    /// The format named `s`, in any case: `terminal` or `text`, `json`,
    /// `bibtex` or `bib`, `markdown` or `md`; any other name is refused
    /// with `Unknown format: ` and the name.
    pub fn from_name(s: &str) -> (r: Result<OutputFormat, String>)
        ensures
            match format_named(lower_text(s@)) {
                Some(f) => r == Ok::<OutputFormat, String>(f),
                None => r matches Err(m) && m@ == "Unknown format: "@ + s@,
            },
    {
        let lower = to_lowercase(s);
        let l = chars_of(lower.as_str());
        let l = l.as_slice();
        if same_text(l, "terminal") || same_text(l, "text") {
            Ok(OutputFormat::Terminal)
        } else if same_text(l, "json") {
            Ok(OutputFormat::Json)
        } else if same_text(l, "bibtex") || same_text(l, "bib") {
            Ok(OutputFormat::Bibtex)
        } else if same_text(l, "markdown") || same_text(l, "md") {
            Ok(OutputFormat::Markdown)
        } else {
            let mut m = String::new();
            push_text(&mut m, "Unknown format: ");
            push_text(&mut m, s);
            Err(m)
        }
    }

    /// The extension of files written in the format.
    pub fn extension(&self) -> (e: &'static str)
        ensures
            e@ == match *self {
                OutputFormat::Terminal => "txt"@,
                OutputFormat::Json => "json"@,
                OutputFormat::Bibtex => "bib"@,
                OutputFormat::Markdown => "md"@,
            },
    {
        match self {
            OutputFormat::Terminal => "txt",
            OutputFormat::Json => "json",
            OutputFormat::Bibtex => "bib",
            OutputFormat::Markdown => "md",
        }
    }
}

impl Default for OutputFormat {
    fn default() -> (f: OutputFormat)
        ensures
            f is Terminal,
    {
        OutputFormat::Terminal
    }
}

} // verus!
