//! The options that a transaction is opened with.

use vstd::prelude::*;

verus! {

/// What the caller asks of the server for every query of one transaction.
/// Both flags are handed on as they are: their effect is the server's.
#[derive(Clone, Copy, Debug, PartialEq, Eq, Structural)]
pub struct Options {
    /// Derive further facts from the rules of the schema.
    pub infer: bool,
    /// Attach to each derived fact the rule that produced it.
    pub explain: bool,
}

impl Options {
    /// Both flags off.
    pub open spec fn none() -> Options {
        Options { infer: false, explain: false }
    }

    /// The options of a transaction opened without any: both flags off.
    pub fn new() -> (r: Options)
        ensures
            r == Options::none(),
    {
        Options { infer: false, explain: false }
    }

    pub fn infer(self, enabled: bool) -> (r: Options)
        ensures
            r == (Options { infer: enabled, explain: self.explain }),
    {
        Options { infer: enabled, explain: self.explain }
    }

    pub fn explain(self, enabled: bool) -> (r: Options)
        ensures
            r == (Options { infer: self.infer, explain: enabled }),
    {
        Options { infer: self.infer, explain: enabled }
    }
}

impl Default for Options {
    fn default() -> (r: Options)
        ensures
            r == (Options { infer: false, explain: false }),
    {
        Options::new()
    }
}

} // verus!
