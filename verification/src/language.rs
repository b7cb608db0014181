//! The closed set of languages the executor recognizes.
//!
//! A language tag arrives as free text; `Language::from_tag` maps it into the
//! closed enumeration, and everything else the executor needs to know about a
//! language — whether it compiles, which program to invoke — is read off the
//! enumeration, so adding a language is a data change, not new control flow.

use crate::encoding::str_eq;
use vstd::prelude::*;
use vstd::string::StringExecFns;

verus! {

/// A language the executor knows how to run.
#[derive(Clone, Copy, Debug, PartialEq, Eq, Structural)]
pub enum Language {
    /// Interpreted: the source is handed inline to the interpreter.
    Python,
    /// Compiled: the source is written to a file, compiled, and the produced
    /// binary is executed.
    Rust,
}

/// The language a tag names, when it names one.
pub open spec fn spec_language_of(tag: Seq<char>) -> Option<Language> {
    if tag == "python"@ {
        Some(Language::Python)
    } else if tag == "rust"@ {
        Some(Language::Rust)
    } else {
        None
    }
}

/// True when the tag names a recognized language.
pub open spec fn recognized(tag: Seq<char>) -> bool {
    spec_language_of(tag) is Some
}

impl Language {
    /// Maps a free-text tag onto the recognized set, rejecting every other
    /// tag.
    pub fn from_tag(tag: &str) -> (r: Option<Language>)
        ensures
            r == spec_language_of(tag@),
    {
        if str_eq(tag, "python") {
            Some(Language::Python)
        } else if str_eq(tag, "rust") {
            Some(Language::Rust)
        } else {
            None
        }
    }

    /// True for languages that compile to a binary before running.
    pub open spec fn spec_is_compiled(self) -> bool {
        self is Rust
    }

    /// True for languages that compile to a binary before running.
    #[verifier::when_used_as_spec(spec_is_compiled)]
    pub fn is_compiled(self) -> (r: bool)
        ensures
            r == self.spec_is_compiled(),
    {
        match self {
            Language::Python => false,
            Language::Rust => true,
        }
    }

    /// The program the executor invokes first for this language: the
    /// interpreter for an interpreted language, the compiler for a compiled
    /// one.
    pub fn tool_program(self) -> (p: String)
        ensures
            self is Python ==> p@ == "python3"@,
            self is Rust ==> p@ == "rustc"@,
    {
        match self {
            Language::Python => String::from_str("python3"),
            Language::Rust => String::from_str("rustc"),
        }
    }
}

} // verus!
