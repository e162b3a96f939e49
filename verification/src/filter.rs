use vstd::prelude::*;

use crate::hidden_name;
use crate::is_hidden;
use crate::pattern::CompiledPattern;
use crate::pattern::pattern_accepted;
use crate::pattern::pattern_found;
use crate::text::contains_seq;
use crate::text::contains_substring;
use crate::text::eq_ignore_ascii_case;
use crate::text::extension_of;
use crate::text::extension_str;
use crate::text::lower_seq;

verus! {

/// What kind of filesystem node an entry is.
#[derive(Clone, Copy, PartialEq, Eq, Structural, Debug)]
pub enum EntryKind {
    File,
    Dir,
    Other,
}

/// Which entry kinds a run reports: regular files only, directories only, or
/// everything.
#[derive(Clone, Copy, PartialEq, Eq, Structural, Debug)]
pub enum TypeFilter {
    File,
    Dir,
    Any,
}

/// One filesystem node discovered during traversal: its path as it is to be
/// printed, its base name, its kind, and its depth below the search root
/// (the root itself has depth 0).
pub struct Entry {
    pub path: String,
    pub name: String,
    pub kind: EntryKind,
    pub depth: usize,
}

/// The name criterion of a run: none, a literal substring, or a compiled
/// pattern. Exactly one mode is active at a time.
pub enum NameFilter {
    Any,
    Literal(String),
    Pattern(CompiledPattern),
}

/// The resolved, validated set of active filters for a run. Built once by
/// `FilterSpec::new` before traversal starts and never changed afterwards.
pub struct FilterSpec {
    pub name_filter: NameFilter,
    pub ext: Option<String>,
    pub type_filter: TypeFilter,
    pub max_depth: Option<usize>,
    pub include_hidden: bool,
}

/// A name pattern that the pattern engine rejected: the offending pattern
/// text and the engine's diagnostic.
#[derive(Debug)]
pub struct PatternError {
    pub pattern: String,
    pub detail: String,
}

/// The type filter accepts the kind: "file" takes regular files only, "dir"
/// directories only, "any" everything.
pub open spec fn type_allowed(tf: TypeFilter, kind: EntryKind) -> bool {
    match tf {
        TypeFilter::File => kind == EntryKind::File,
        TypeFilter::Dir => kind == EntryKind::Dir,
        TypeFilter::Any => true,
    }
}

/// The name criterion accepts the base name: always when none is set; by a
/// case-sensitive substring test in literal mode; by the pattern finding a
/// match anywhere in the name in pattern mode.
pub open spec fn name_allowed(nf: NameFilter, name: Seq<char>) -> bool {
    match nf {
        NameFilter::Any => true,
        NameFilter::Literal(s) => contains_seq(name, s@),
        NameFilter::Pattern(p) => pattern_found(p.pattern(), name),
    }
}

/// The extension criterion accepts the base name: always when none is set;
/// otherwise the name must have an extension equal to the wanted one under
/// case-insensitive ASCII comparison. A name without an extension is always
/// rejected while the criterion is set.
pub open spec fn ext_allowed(ext: Option<String>, name: Seq<char>) -> bool {
    match ext {
        None => true,
        Some(want) => match extension_of(name) {
            Some(e) => lower_seq(e) == lower_seq(want@),
            None => false,
        },
    }
}

/// The depth bound accepts the depth: always when none is set, otherwise the
/// depth must not exceed the bound.
pub open spec fn depth_allowed(max_depth: Option<usize>, depth: usize) -> bool {
    match max_depth {
        None => true,
        Some(d) => depth <= d,
    }
}

/// An entry is reported exactly when every active filter accepts it: hidden
/// visibility, type, name criterion, extension, and depth bound.
pub open spec fn entry_allowed(fs: FilterSpec, e: Entry) -> bool {
    &&& fs.include_hidden || !hidden_name(e.name@)
    &&& type_allowed(fs.type_filter, e.kind)
    &&& name_allowed(fs.name_filter, e.name@)
    &&& ext_allowed(fs.ext, e.name@)
    &&& depth_allowed(fs.max_depth, e.depth)
}

/// The paths of the entries of `entries` that pass every filter of `fs`, in
/// the order in which they stand in `entries`.
pub open spec fn matching_paths(fs: FilterSpec, entries: Seq<Entry>) -> Seq<Seq<char>>
    decreases entries.len(),
{
    if entries.len() == 0 {
        Seq::empty()
    } else if entry_allowed(fs, entries.last()) {
        matching_paths(fs, entries.drop_last()).push(entries.last().path@)
    } else {
        matching_paths(fs, entries.drop_last())
    }
}

impl FilterSpec {
    /// Resolves the user's criteria into a filter set, compiling the name
    /// pattern when pattern mode is requested. Fails exactly when pattern
    /// mode is requested with a name the pattern engine rejects, and then
    /// reports the offending pattern with the engine's diagnostic.
    pub fn new(
        name: Option<String>,
        use_regex: bool,
        ext: Option<String>,
        type_filter: TypeFilter,
        max_depth: Option<usize>,
        include_hidden: bool,
    ) -> (r: Result<FilterSpec, PatternError>)
        ensures
            r is Ok <==> (name is Some && use_regex ==> pattern_accepted(name->Some_0@)),
            r is Ok ==> {
                let fs = r->Ok_0;
                &&& fs.ext == ext
                &&& fs.type_filter == type_filter
                &&& fs.max_depth == max_depth
                &&& fs.include_hidden == include_hidden
                &&& match name {
                    None => fs.name_filter is Any,
                    Some(n) => if use_regex {
                        fs.name_filter matches NameFilter::Pattern(p) && p.pattern() == n@
                    } else {
                        fs.name_filter matches NameFilter::Literal(s) && s@ == n@
                    },
                }
            },
            r is Err ==> {
                &&& name is Some
                &&& use_regex
                &&& !pattern_accepted(name->Some_0@)
                &&& (r->Err_0).pattern@ == name->Some_0@
            },
    {
        let name_filter = match name {
            None => NameFilter::Any,
            Some(n) => {
                if use_regex {
                    match CompiledPattern::compile(n.as_str()) {
                        Ok(p) => NameFilter::Pattern(p),
                        Err(detail) => {
                            return Err(PatternError { pattern: n, detail });
                        },
                    }
                } else {
                    NameFilter::Literal(n)
                }
            },
        };
        Ok(
            FilterSpec {
                name_filter,
                ext,
                type_filter,
                max_depth,
                include_hidden,
            },
        )
    }

    /// Decides one entry's fate: true exactly when every active filter
    /// accepts it. Filters short-circuit in a fixed order; the order never
    /// changes the outcome, since each filter is an independent predicate.
    pub fn entry_matches(&self, e: &Entry) -> (r: bool)
        ensures
            r == entry_allowed(*self, *e),
    {
        if !self.include_hidden && is_hidden(e.name.as_str()) {
            return false;
        }
        let type_ok = match self.type_filter {
            TypeFilter::File => e.kind == EntryKind::File,
            TypeFilter::Dir => e.kind == EntryKind::Dir,
            TypeFilter::Any => true,
        };
        if !type_ok {
            return false;
        }
        let name_ok = match &self.name_filter {
            NameFilter::Any => true,
            NameFilter::Literal(s) => contains_substring(e.name.as_str(), s.as_str()),
            NameFilter::Pattern(p) => p.is_match(e.name.as_str()),
        };
        if !name_ok {
            return false;
        }
        let ext_ok = match &self.ext {
            None => true,
            Some(want) => match extension_str(e.name.as_str()) {
                Some(ex) => eq_ignore_ascii_case(ex, want.as_str()),
                None => false,
            },
        };
        if !ext_ok {
            return false;
        }
        match self.max_depth {
            None => true,
            Some(d) => e.depth <= d,
        }
    }

    /// Reports, in their given order, the paths of the entries that pass
    /// every active filter.
    pub fn filter_entries(&self, entries: &Vec<Entry>) -> (r: Vec<String>)
        ensures
            r@.map_values(|p: String| p@) == matching_paths(*self, entries@),
    {
        let mut out: Vec<String> = Vec::new();
        let mut i: usize = 0;
        while i < entries.len()
            invariant
                i <= entries@.len(),
                out@.map_values(|p: String| p@) == matching_paths(*self, entries@.take(i as int)),
            decreases entries@.len() - i,
        {
            let e = &entries[i];
            proof {
                assert(entries@.take(i + 1).drop_last() =~= entries@.take(i as int));
                assert(entries@.take(i + 1).last() == entries@[i as int]);
            }
            if self.entry_matches(e) {
                out.push(e.path.clone());
                proof {
                    assert(out@.map_values(|p: String| p@) =~= matching_paths(
                        *self,
                        entries@.take(i + 1),
                    ));
                }
            }
            i += 1;
        }
        proof {
            assert(entries@.take(entries@.len() as int) =~= entries@);
        }
        out
    }
}

/// While hidden visibility is off, an entry whose base name starts with "."
/// is never reported, whatever the other filters say.
pub proof fn lemma_hidden_never_reported(fs: FilterSpec, e: Entry)
    requires
        !fs.include_hidden,
        hidden_name(e.name@),
    ensures
        !entry_allowed(fs, e),
{
}

/// Under the "file" type filter only regular files are ever reported, and
/// under "dir" only directories.
pub proof fn lemma_type_filter_respected(fs: FilterSpec, e: Entry)
    requires
        entry_allowed(fs, e),
    ensures
        fs.type_filter == TypeFilter::File ==> e.kind == EntryKind::File,
        fs.type_filter == TypeFilter::Dir ==> e.kind == EntryKind::Dir,
{
}

/// Under the "any" type filter an entry's kind never decides its fate: two
/// entries alike in name and depth fare alike, whatever their kinds.
pub proof fn lemma_any_type_ignores_kind(fs: FilterSpec, e1: Entry, e2: Entry)
    requires
        fs.type_filter == TypeFilter::Any,
        e1.name@ == e2.name@,
        e1.depth == e2.depth,
    ensures
        entry_allowed(fs, e1) == entry_allowed(fs, e2),
{
}

/// With a depth bound configured, no reported entry lies deeper than the
/// bound.
pub proof fn lemma_depth_bound_respected(fs: FilterSpec, e: Entry, d: usize)
    requires
        fs.max_depth == Some(d),
        entry_allowed(fs, e),
    ensures
        e.depth <= d,
{
}

/// The extension filter is case-insensitive in the wanted extension: two
/// wanted extensions that agree up to ASCII case accept the same names.
pub proof fn lemma_ext_filter_case_insensitive(x: String, y: String, name: Seq<char>)
    requires
        lower_seq(x@) == lower_seq(y@),
    ensures
        ext_allowed(Some(x), name) == ext_allowed(Some(y), name),
{
}

/// The extension filter is case-insensitive in the name: two names whose
/// extensions agree up to ASCII case fare alike under every wanted extension.
pub proof fn lemma_ext_name_case_insensitive(x: String, n1: Seq<char>, n2: Seq<char>)
    requires
        extension_of(n1) is Some,
        extension_of(n2) is Some,
        lower_seq(extension_of(n1)->Some_0) == lower_seq(extension_of(n2)->Some_0),
    ensures
        ext_allowed(Some(x), n1) == ext_allowed(Some(x), n2),
{
}

/// A name without an extension never passes an active extension filter.
pub proof fn lemma_no_extension_never_matches(x: String, name: Seq<char>)
    requires
        extension_of(name) is None,
    ensures
        !ext_allowed(Some(x), name),
{
}

} // verus!
