//! Per-invocation temporary file naming.
//!
//! A compiled-language run writes a source file and produces a binary. Both
//! names embed the invocation's identifier, so two invocations that run at
//! the same time never touch each other's files as long as their identifiers
//! differ — which the lemmas below pin down.

use vstd::prelude::*;
use vstd::string::StringExecFns;

verus! {

/// The name of the temporary source file of the invocation with this
/// identifier.
pub open spec fn spec_source_path(id: Seq<char>) -> Seq<char> {
    "./temp_code_"@ + id + ".rs"@
}

/// The name of the temporary binary of the invocation with this identifier.
pub open spec fn spec_binary_path(id: Seq<char>) -> Seq<char> {
    "./temp_code_"@ + id + ".bin"@
}

/// Builds the temporary source file name for one invocation.
pub fn temp_source_path(run_id: &str) -> (p: String)
    ensures
        p@ == spec_source_path(run_id@),
{
    let mut p = String::from_str("./temp_code_");
    p.append(run_id);
    p.append(".rs");
    p
}

/// Builds the temporary binary name for one invocation.
pub fn temp_binary_path(run_id: &str) -> (p: String)
    ensures
        p@ == spec_binary_path(run_id@),
{
    let mut p = String::from_str("./temp_code_");
    p.append(run_id);
    p.append(".bin");
    p
}

/// A common prefix and a common suffix cancel: the middles must agree.
proof fn lemma_concat_cancel(pre: Seq<char>, x: Seq<char>, y: Seq<char>, suf: Seq<char>)
    requires
        pre + x + suf == pre + y + suf,
    ensures
        x == y,
{
    assert((pre + x + suf).len() == pre.len() + x.len() + suf.len());
    assert((pre + y + suf).len() == pre.len() + y.len() + suf.len());
    assert(x.len() == y.len());
    assert forall|k: int| 0 <= k < x.len() implies x[k] == y[k] by {
        assert((pre + x + suf)[pre.len() + k] == x[k]);
        assert((pre + y + suf)[pre.len() + k] == y[k]);
    }
    assert(x =~= y);
}

/// A source file name and a binary name never collide, whatever the two
/// identifiers: the one ends in `.rs`, the other in `.bin`.
pub proof fn lemma_source_binary_distinct(id1: Seq<char>, id2: Seq<char>)
    ensures
        spec_source_path(id1) != spec_binary_path(id2),
{
    reveal_strlit(".rs");
    reveal_strlit(".bin");
    let s = spec_source_path(id1);
    let b = spec_binary_path(id2);
    if s == b {
        assert(s[s.len() - 1] == 's');
        assert(b[b.len() - 1] == 'n');
    }
}

/// Invocations with distinct identifiers use disjoint temporary files: all
/// four names (two source files, two binaries) are pairwise distinct.
pub proof fn lemma_paths_disjoint(id1: Seq<char>, id2: Seq<char>)
    requires
        id1 != id2,
    ensures
        spec_source_path(id1) != spec_source_path(id2),
        spec_binary_path(id1) != spec_binary_path(id2),
        spec_source_path(id1) != spec_binary_path(id2),
        spec_binary_path(id1) != spec_source_path(id2),
{
    if spec_source_path(id1) == spec_source_path(id2) {
        lemma_concat_cancel("./temp_code_"@, id1, id2, ".rs"@);
    }
    if spec_binary_path(id1) == spec_binary_path(id2) {
        lemma_concat_cancel("./temp_code_"@, id1, id2, ".bin"@);
    }
    lemma_source_binary_distinct(id1, id2);
    lemma_source_binary_distinct(id2, id1);
}

} // verus!
