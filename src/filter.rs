use vstd::prelude::*;
use crate::types::PipelineError;

verus! {

/// Whether a regular expression's text compiles.
pub uninterp spec fn regex_compiles(pattern: Seq<char>) -> bool;

/// Whether the compiled regular expression matches somewhere in `text`.
pub uninterp spec fn regex_matches(pattern: Seq<char>, text: Seq<char>) -> bool;

/// Relies on `regex::Regex::new`: whether a pattern compiles depends on its text alone.
#[verifier::external_body]
fn pattern_compiles(pattern: &str) -> (r: bool)
    ensures
        r == regex_compiles(pattern@),
{
    regex::Regex::new(pattern).is_ok()
}

/// Relies on `regex::Regex::new` and `regex::Regex::is_match`: whether the
/// compiled pattern matches anywhere in the text.
#[verifier::external_body]
fn pattern_matches(pattern: &str, text: &str) -> (r: bool)
    requires
        regex_compiles(pattern@),
    ensures
        r == regex_matches(pattern@, text@),
{
    match regex::Regex::new(pattern) {
        Ok(re) => re.is_match(text),
        Err(_) => false,
    }
}

/// The texts of a list of patterns.
pub open spec fn texts_of(patterns: Seq<String>) -> Seq<Seq<char>> {
    patterns.map_values(|p: String| p@)
}

/// A path is ignored when one of the patterns matches its text.
pub open spec fn is_ignored_by(patterns: Seq<Seq<char>>, path: Seq<char>) -> bool {
    exists|i: int| 0 <= i < patterns.len() && regex_matches(#[trigger] patterns[i], path)
}

/// Suppresses noise paths (editor lock files and the like) by regular expressions.
#[derive(Clone, Debug)]
pub struct ChangeFilter {
    pub patterns: Vec<String>,
}

impl View for ChangeFilter {
    type V = Seq<Seq<char>>;

    open spec fn view(&self) -> Seq<Seq<char>> {
        texts_of(self.patterns@)
    }
}

impl ChangeFilter {
    /// Every pattern of the filter compiles.
    pub open spec fn wf(&self) -> bool {
        forall|i: int| 0 <= i < self@.len() ==> regex_compiles(#[trigger] self@[i])
    }

    /// Builds a filter from pattern texts; fails with `SetupError` when one of
    /// them does not compile.
    pub fn new(patterns: Vec<String>) -> (r: Result<ChangeFilter, PipelineError>)
        ensures
            r is Ok <==> forall|i: int|
                0 <= i < patterns@.len() ==> regex_compiles(#[trigger] patterns@[i]@),
            r is Ok ==> r->Ok_0@ == texts_of(patterns@) && r->Ok_0.wf(),
            r is Err ==> r->Err_0 == PipelineError::SetupError,
    {
        let mut i: usize = 0;
        while i < patterns.len()
            invariant
                i <= patterns@.len(),
                forall|j: int| 0 <= j < i ==> regex_compiles(#[trigger] patterns@[j]@),
            decreases patterns@.len() - i,
        {
            if !pattern_compiles(patterns[i].as_str()) {
                return Err(PipelineError::SetupError);
            }
            i = i + 1;
        }
        Ok(ChangeFilter { patterns })
    }

    /// Whether the path should be dropped before any other work.
    pub fn is_ignored(&self, path: &str) -> (r: bool)
        requires
            self.wf(),
        ensures
            r == is_ignored_by(self@, path@),
    {
        let mut i: usize = 0;
        while i < self.patterns.len()
            invariant
                self.wf(),
                i <= self.patterns@.len(),
                forall|j: int| 0 <= j < i ==> !regex_matches(#[trigger] self@[j], path@),
            decreases self.patterns@.len() - i,
        {
            assert(self@[i as int] == self.patterns@[i as int]@);
            if pattern_matches(self.patterns[i].as_str(), path) {
                return true;
            }
            i = i + 1;
        }
        false
    }
}

} // verus!
