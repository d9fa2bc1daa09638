//! The guest languages that the engine runs.

use vstd::prelude::*;

verus! {

/// A guest language. The set is closed: it is fixed when the engines start.
#[derive(Debug, Clone, Copy, PartialEq, Eq, Hash, Structural)]
pub enum Language {
    /// Python.
    Python,
    /// JavaScript on Node.js.
    Node,
}

impl Language {
    /// The tag that names the language in a request.
    pub open spec fn tag(self) -> Seq<char> {
        match self {
            Language::Python => "python"@,
            Language::Node => "nodejs"@,
        }
    }

    /// The language that a tag names: `python` for Python, `nodejs` or `node`
    /// for Node.js, none for any other text.
    pub open spec fn of_tag(tag: Seq<char>) -> Option<Language> {
        if tag == "python"@ {
            Some(Language::Python)
        } else if tag == "nodejs"@ || tag == "node"@ {
            Some(Language::Node)
        } else {
            None
        }
    }

    /// Returns the tag that names the language in a request.
    pub fn name(self) -> (n: &'static str)
        ensures
            n@ == self.tag(),
    {
        match self {
            Language::Python => "python",
            Language::Node => "nodejs",
        }
    }

    /// Returns the language that a tag names, if it names one.
    pub fn from_tag(tag: &str) -> (r: Option<Language>)
        ensures
            r == Language::of_tag(tag@),
    {
        if crate::text::text_eq(tag, "python") {
            Some(Language::Python)
        } else if crate::text::text_eq(tag, "nodejs") || crate::text::text_eq(tag, "node") {
            Some(Language::Node)
        } else {
            None
        }
    }

    /// Every language names itself: its tag is read back as the language.
    pub proof fn lemma_tag_round_trip(self)
        ensures
            Language::of_tag(self.tag()) == Some(self),
    {
        reveal_strlit("python");
        reveal_strlit("nodejs");
        assert("python"@.len() == 6);
        assert("nodejs"@[0] != "python"@[0]);
    }
}

} // verus!
