//! Character-level helpers on names: ASCII case folding, the last path
//! segment, and the positions of dots.
use vstd::prelude::*;

verus! {

/// ASCII case folding of one character: `A`..=`Z` become `a`..=`z`, every
/// other character stays as it is.
pub open spec fn lower_char(c: char) -> char {
    if 'A' <= c && c <= 'Z' {
        ((c as u32) + 32) as char
    } else {
        c
    }
}

/// ASCII case folding of a whole name.
pub open spec fn ascii_lower(s: Seq<char>) -> Seq<char> {
    s.map_values(|c: char| lower_char(c))
}

/// Relies on `str::to_ascii_lowercase`: ASCII letters `A`..=`Z` are mapped to
/// `a`..=`z`, all other characters are unchanged.
#[verifier::external_body]
pub(crate) fn to_ascii_lower(s: &str) -> (r: String)
    ensures
        r@ == ascii_lower(s@),
{
    s.to_ascii_lowercase()
}

/// Folding twice is folding once.
pub proof fn lemma_ascii_lower_idempotent(s: Seq<char>)
    ensures
        ascii_lower(ascii_lower(s)) == ascii_lower(s),
{
    assert(ascii_lower(ascii_lower(s)) =~= ascii_lower(s));
}

/// A path separator: forward or back slash.
pub open spec fn is_sep(c: char) -> bool {
    c == '/' || c == '\\'
}

/// Index of the last separator in `s`, or -1 when there is none.
pub open spec fn last_sep(s: Seq<char>) -> int
    decreases s.len(),
{
    if s.len() == 0 {
        -1
    } else if is_sep(s.last()) {
        s.len() - 1
    } else {
        last_sep(s.drop_last())
    }
}

/// The final segment of a path split on both separators; the whole string
/// when it holds no separator.
pub open spec fn basename_spec(s: Seq<char>) -> Seq<char> {
    s.subrange(last_sep(s) + 1, s.len() as int)
}

pub(crate) proof fn lemma_last_sep_unique(s: Seq<char>, i: int)
    requires
        -1 <= i < s.len(),
        i >= 0 ==> is_sep(s[i]),
        forall|j: int| i < j < s.len() ==> !is_sep(#[trigger] s[j]),
    ensures
        last_sep(s) == i,
    decreases s.len(),
{
    if s.len() > 0 && i < s.len() - 1 {
        assert(!is_sep(s[s.len() - 1]));
        lemma_last_sep_unique(s.drop_last(), i);
    }
}

/// The final segment of `path`: the text after its last `/` or `\`.
pub fn basename(path: &str) -> (r: &str)
    ensures
        r@ == basename_spec(path@),
{
    let n = path.unicode_len();
    let mut i: usize = n;
    while i > 0
        invariant
            i <= n,
            n == path@.len(),
            forall|j: int| i <= j < n ==> !is_sep(#[trigger] path@[j]),
        ensures
            i == 0 || is_sep(path@[i - 1]),
        decreases i,
    {
        let c = path.get_char(i - 1);
        if c == '/' || c == '\\' {
            break;
        }
        i = i - 1;
    }
    proof {
        lemma_last_sep_unique(path@, i - 1);
    }
    path.substring_char(i, n)
}


/// Index of the last `.` in `s`, or -1 when there is none.
pub open spec fn last_dot(s: Seq<char>) -> int
    decreases s.len(),
{
    if s.len() == 0 {
        -1
    } else if s.last() == '.' {
        s.len() - 1
    } else {
        last_dot(s.drop_last())
    }
}

proof fn lemma_last_dot_unique(s: Seq<char>, i: int)
    requires
        -1 <= i < s.len(),
        i >= 0 ==> s[i] == '.',
        forall|j: int| i < j < s.len() ==> #[trigger] s[j] != '.',
    ensures
        last_dot(s) == i,
    decreases s.len(),
{
    if s.len() > 0 && i < s.len() - 1 {
        assert(s[s.len() - 1] != '.');
        lemma_last_dot_unique(s.drop_last(), i);
    }
}

/// The extension of a file name: the text after its last `.`, empty when
/// the name has no `.` or its only `.` is the first character.
pub open spec fn extension_spec(s: Seq<char>) -> Seq<char> {
    if last_dot(s) <= 0 {
        Seq::empty()
    } else {
        s.subrange(last_dot(s) + 1, s.len() as int)
    }
}

/// The extension of the file name `name`, as `extension_spec` gives it.
pub fn extension(name: &str) -> (r: &str)
    ensures
        r@ == extension_spec(name@),
{
    let n = name.unicode_len();
    let mut i: usize = n;
    while i > 0
        invariant
            i <= n,
            n == name@.len(),
            forall|j: int| i <= j < n ==> #[trigger] name@[j] != '.',
        ensures
            i == 0 || name@[i - 1] == '.',
        decreases i,
    {
        if name.get_char(i - 1) == '.' {
            break;
        }
        i = i - 1;
    }
    proof {
        lemma_last_dot_unique(name@, i - 1);
    }
    if i <= 1 {
        name.substring_char(n, n)
    } else {
        name.substring_char(i, n)
    }
}

/// A path that every platform reads as a single file name: not empty, not
/// `.` or `..`, and free of `/`, `\` and `:`.
pub open spec fn plain_file_name(s: Seq<char>) -> bool {
    &&& s.len() > 0
    &&& s != seq!['.']
    &&& s != seq!['.', '.']
    &&& forall|i: int| 0 <= i < s.len() ==> #[trigger] s[i] != '/' && s[i] != '\\' && s[i] != ':'
}

/// Relies on `std::path::Path::file_name` for the final component of a path,
/// empty where there is none. Beyond a path that is a plain file name, which
/// is its own final component, the result depends on the platform's rules
/// for paths, so nothing more is stated of it.
#[verifier::external_body]
pub(crate) fn path_file_name(path: &str) -> (r: &str)
    ensures
        plain_file_name(path@) ==> r@ == path@,
{
    match std::path::Path::new(path).file_name() {
        Some(n) => n.to_str().unwrap_or(""),
        None => "",
    }
}

/// Relies on `str == str`: two string slices are equal exactly when they hold
/// the same characters.
pub assume_specification[ <str as PartialEq>::eq ](a: &str, b: &str) -> (r: bool)
    ensures
        r == (a@ == b@),
;

} // verus!
