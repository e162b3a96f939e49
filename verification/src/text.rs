use vstd::prelude::*;

verus! {

/// ASCII-lowercases one character: 'A'..'Z' map to 'a'..'z', all others stay.
pub open spec fn lower_char(c: char) -> char {
    if 65 <= c as u32 && c as u32 <= 90 {
        (((c as u32) + 32) as u8) as char
    } else {
        c
    }
}

/// ASCII-lowercases a whole character sequence.
pub open spec fn lower_seq(s: Seq<char>) -> Seq<char> {
    s.map_values(|c: char| lower_char(c))
}

/// ASCII-lowercases one character.
pub fn to_lower(c: char) -> (r: char)
    ensures
        r == lower_char(c),
{
    let u = c as u32;
    if 65 <= u && u <= 90 {
        ((u + 32) as u8) as char
    } else {
        c
    }
}

/// Two strings are equal under case-insensitive ASCII comparison.
pub fn eq_ignore_ascii_case(a: &str, b: &str) -> (r: bool)
    ensures
        r == (lower_seq(a@) == lower_seq(b@)),
{
    let a_len = a.unicode_len();
    let b_len = b.unicode_len();
    if a_len != b_len {
        assert(lower_seq(a@).len() == a@.len());
        assert(lower_seq(b@).len() == b@.len());
        return false;
    }
    let mut i: usize = 0;
    while i < a_len
        invariant
            a_len == a@.len(),
            b_len == b@.len(),
            a_len == b_len,
            i <= a_len,
            forall|j: int| 0 <= j < i ==> lower_char(a@[j]) == lower_char(b@[j]),
        decreases a_len - i,
    {
        if to_lower(a.get_char(i)) != to_lower(b.get_char(i)) {
            assert(lower_seq(a@)[i as int] != lower_seq(b@)[i as int]);
            return false;
        }
        i += 1;
    }
    assert(lower_seq(a@) =~= lower_seq(b@));
    true
}

/// `needle` occurs in `hay` as a contiguous run starting at index `i`.
pub open spec fn contains_at(hay: Seq<char>, needle: Seq<char>, i: int) -> bool {
    &&& 0 <= i
    &&& i + needle.len() <= hay.len()
    &&& hay.subrange(i, i + needle.len()) == needle
}

/// `needle` occurs somewhere in `hay` as a contiguous run.
pub open spec fn contains_seq(hay: Seq<char>, needle: Seq<char>) -> bool {
    exists|i: int| contains_at(hay, needle, i)
}

fn match_at(hay: &str, needle: &str, i: usize) -> (r: bool)
    requires
        hay@.len() <= usize::MAX,
        i + needle@.len() <= hay@.len(),
    ensures
        r == contains_at(hay@, needle@, i as int),
{
    let n_len = needle.unicode_len();
    let mut j: usize = 0;
    while j < n_len
        invariant
            n_len == needle@.len(),
            hay@.len() <= usize::MAX,
            i + n_len <= hay@.len(),
            j <= n_len,
            forall|t: int| 0 <= t < j ==> hay@[i + t] == needle@[t],
        decreases n_len - j,
    {
        if hay.get_char(i + j) != needle.get_char(j) {
            assert(!contains_at(hay@, needle@, i as int)) by {
                if contains_at(hay@, needle@, i as int) {
                    assert(hay@.subrange(i as int, i + needle@.len())[j as int] == needle@[j as int]);
                }
            }
            return false;
        }
        j += 1;
    }
    assert(hay@.subrange(i as int, i + needle@.len()) =~= needle@);
    true
}

/// `needle` occurs in `hay` as a contiguous, case-sensitive substring.
pub fn contains_substring(hay: &str, needle: &str) -> (r: bool)
    ensures
        r == contains_seq(hay@, needle@),
{
    let h_len = hay.unicode_len();
    let n_len = needle.unicode_len();
    if n_len > h_len {
        assert(forall|k: int| !contains_at(hay@, needle@, k));
        return false;
    }
    let mut i: usize = 0;
    while i <= h_len - n_len
        invariant
            h_len == hay@.len(),
            n_len == needle@.len(),
            n_len <= h_len,
            i <= h_len - n_len + 1,
            forall|k: int| 0 <= k < i ==> !contains_at(hay@, needle@, k),
        decreases h_len - n_len - i + 1,
    {
        if match_at(hay, needle, i) {
            return true;
        }
        if i == h_len - n_len {
            assert forall|k: int| !contains_at(hay@, needle@, k) by {
                if k > i {
                    assert(k + needle@.len() > hay@.len());
                }
            }
            return false;
        }
        i += 1;
    }
    assert forall|k: int| !contains_at(hay@, needle@, k) by {
        if 0 <= k < i {
        } else if k >= i {
            assert(k + needle@.len() > hay@.len());
        }
    }
    false
}

/// The index of the last "." in `name`, or -1 when none occurs.
pub open spec fn last_dot(name: Seq<char>) -> int
    decreases name.len(),
{
    if name.len() == 0 {
        -1
    } else if name[name.len() - 1] == '.' {
        name.len() - 1
    } else {
        last_dot(name.drop_last())
    }
}

/// The extension of a base name: the part after the last ".", except that a
/// name whose only "." leads it (a hidden file such as ".profile") and a name
/// without any "." have none.
pub open spec fn extension_of(name: Seq<char>) -> Option<Seq<char>> {
    if last_dot(name) <= 0 {
        None
    } else {
        Some(name.subrange(last_dot(name) + 1, name.len() as int))
    }
}

proof fn lemma_last_dot_found(name: Seq<char>, k: int)
    requires
        0 <= k < name.len(),
        name[k] == '.',
        forall|j: int| k < j < name.len() ==> name[j] != '.',
    ensures
        last_dot(name) == k,
    decreases name.len(),
{
    if k < name.len() - 1 {
        assert(forall|j: int| k < j < name.drop_last().len() ==> name.drop_last()[j] == name[j]);
        lemma_last_dot_found(name.drop_last(), k);
    }
}

proof fn lemma_last_dot_none(name: Seq<char>)
    requires
        forall|j: int| 0 <= j < name.len() ==> name[j] != '.',
    ensures
        last_dot(name) == -1,
    decreases name.len(),
{
    if name.len() > 0 {
        assert(forall|j: int| 0 <= j < name.drop_last().len() ==> name.drop_last()[j] == name[j]);
        lemma_last_dot_none(name.drop_last());
    }
}

/// The extension of `name`, as `extension_of` describes it.
pub fn extension_str(name: &str) -> (r: Option<&str>)
    ensures
        r is Some <==> extension_of(name@) is Some,
        r is Some ==> (r->Some_0)@ == extension_of(name@)->Some_0,
{
    let len = name.unicode_len();
    let mut i: usize = len;
    while i > 0
        invariant
            len == name@.len(),
            i <= len,
            forall|j: int| i <= j < len ==> name@[j] != '.',
        decreases i,
    {
        i -= 1;
        if name.get_char(i) == '.' {
            proof {
                lemma_last_dot_found(name@, i as int);
            }
            if i == 0 {
                return None;
            }
            let e = name.substring_char(i + 1, len);
            return Some(e);
        }
    }
    proof {
        lemma_last_dot_none(name@);
    }
    None
}

} // verus!
