//! JSON, whose text the JSON library writes outside this crate.
use vstd::prelude::*;

verus! {

/// The JSON formatter.
pub struct JsonFormatter;

impl JsonFormatter {
    /// The extension of files written in this format.
    pub fn extension(&self) -> (e: &'static str)
        ensures
            e@ == "json"@,
    {
        "json"
    }
}

} // verus!
