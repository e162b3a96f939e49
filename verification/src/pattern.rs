use vstd::prelude::*;

verus! {

/// Declares the outside type regex::Regex, opaque to the verifier, so a
/// compiled pattern can stand in a field.
#[verifier::external_type_specification]
#[verifier::external_body]
pub struct ExRegex(regex::Regex);

/// Whether `regex::Regex::new` accepts a pattern. Acceptance is a function of
/// the pattern text alone (the crate's default size limit included).
pub uninterp spec fn pattern_accepted(pattern: Seq<char>) -> bool;

/// Whether the compiled form of `pattern` finds a match anywhere inside
/// `text`. The outcome is a function of the pattern and the text alone.
pub uninterp spec fn pattern_found(pattern: Seq<char>, text: Seq<char>) -> bool;

/// A pattern kept together with its compiled form. The only constructor is
/// `compile`, so `re` is always the compiled form of `source`.
pub struct CompiledPattern {
    source: String,
    re: regex::Regex,
}

impl CompiledPattern {
    /// The pattern text this value was compiled from.
    pub closed spec fn pattern(&self) -> Seq<char> {
        self.source@
    }

    /// Relies on regex::Regex::new: compiling succeeds exactly when the
    /// pattern is valid (and within the default size limit); on failure the
    /// error's rendering is returned.
    #[verifier::external_body]
    pub(crate) fn compile(pattern: &str) -> (r: Result<CompiledPattern, String>)
        ensures
            r is Ok <==> pattern_accepted(pattern@),
            r is Ok ==> (r->Ok_0).pattern() == pattern@,
    {
        match regex::Regex::new(pattern) {
            Ok(re) => Ok(CompiledPattern { source: pattern.to_string(), re }),
            Err(e) => Err(format!("{e}")),
        }
    }

    /// Relies on regex::Regex::is_match: true if and only if the pattern
    /// matches anywhere inside `text`; deterministic in pattern and text.
    #[verifier::external_body]
    pub(crate) fn is_match(&self, text: &str) -> (r: bool)
        ensures
            r == pattern_found(self.pattern(), text@),
    {
        self.re.is_match(text)
    }
}

} // verus!
