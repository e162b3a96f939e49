use vstd::prelude::*;

pub mod filter;
pub mod pattern;
pub mod text;

pub use filter::Entry;
pub use filter::EntryKind;
pub use filter::FilterSpec;
pub use filter::NameFilter;
pub use filter::PatternError;
pub use filter::TypeFilter;

verus! {

/// True when a base name marks a hidden entry: it starts with a "." character.
pub open spec fn hidden_name(name: Seq<char>) -> bool {
    name.len() > 0 && name[0] == '.'
}

/// Decides whether a base name marks a hidden entry (one starting with ".").
pub fn is_hidden(name: &str) -> (r: bool)
    ensures
        r == hidden_name(name@),
{
    if name.unicode_len() == 0 {
        false
    } else {
        name.get_char(0) == '.'
    }
}

} // verus!
