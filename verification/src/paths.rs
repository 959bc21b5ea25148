//! Windows-style path strings: separators, file names, extensions, joining,
//! and the shape checks that guard every cleanup target.
//!
//! Paths are plain `String` values throughout the engine; these functions
//! define their meaning over `Seq<char>` views.

use vstd::prelude::*;

verus! {

/// A character that separates path segments.
pub open spec fn is_sep(c: char) -> bool {
    c == '\\' || c == '/'
}

/// The final segment of a path: everything after the last separator.
/// A path that ends in a separator has an empty final segment.
pub open spec fn file_name_of(p: Seq<char>) -> Seq<char>
    decreases p.len(),
{
    if p.len() == 0 {
        Seq::empty()
    } else if is_sep(p.last()) {
        Seq::empty()
    } else {
        file_name_of(p.drop_last()).push(p.last())
    }
}

/// The extension of a file name: what follows its last dot, provided that
/// dot is present and is not the name's first character.
pub open spec fn ext_of_name(n: Seq<char>) -> Option<Seq<char>>
    decreases n.len(),
{
    if n.len() <= 1 {
        None
    } else if n.last() == '.' {
        Some(Seq::empty())
    } else {
        match ext_of_name(n.drop_last()) {
            Some(e) => Some(e.push(n.last())),
            None => None,
        }
    }
}

/// The extension of the path's final segment.
pub open spec fn extension_of(p: Seq<char>) -> Option<Seq<char>> {
    ext_of_name(file_name_of(p))
}

/// How the engine joins an anchor with a relative catalog path: a rooted
/// relative path is appended as-is (the anchor is a bare drive prefix in
/// every such row), otherwise a single backslash is inserted unless the
/// anchor already ends in a separator.
pub open spec fn spec_join(a: Seq<char>, b: Seq<char>) -> Seq<char> {
    if b.len() > 0 && is_sep(b[0]) {
        a + b
    } else if a.len() > 0 && is_sep(a.last()) {
        a + b
    } else {
        a + seq!['\\'] + b
    }
}

/// The path shortened by its final backslash-separated segment; empty when
/// the path holds no backslash at all.
pub open spec fn parent_of(p: Seq<char>) -> Seq<char>
    decreases p.len(),
{
    if p.len() == 0 {
        Seq::empty()
    } else if p.last() == '\\' {
        p.drop_last()
    } else {
        parent_of(p.drop_last())
    }
}

/// An ASCII letter, as Windows drive designators use them.
pub open spec fn is_drive_letter(c: char) -> bool {
    ('a' <= c && c <= 'z') || ('A' <= c && c <= 'Z')
}

/// The shape of an absolute Windows path: a drive-rooted path such as
/// `C:\...`, or a UNC path beginning with two separators.
pub open spec fn path_shape_absolute(p: Seq<char>) -> bool {
    ||| (p.len() >= 3 && is_drive_letter(p[0]) && p[1] == ':' && is_sep(p[2]))
    ||| (p.len() >= 2 && is_sep(p[0]) && is_sep(p[1]))
}

/// The path with its trailing separators removed, so that the final
/// segment of a directory path written with a trailing separator is still
/// its last named segment.
pub open spec fn strip_trailing_seps(p: Seq<char>) -> Seq<char>
    decreases p.len(),
{
    if p.len() > 0 && is_sep(p.last()) {
        strip_trailing_seps(p.drop_last())
    } else {
        p
    }
}

/// `p` lies strictly below `root`: it begins with `root` and is longer.
pub open spec fn path_extends(root: Seq<char>, p: Seq<char>) -> bool {
    p.len() > root.len() && p.subrange(0, root.len() as int) == root
}

/// The final named segment (trailing separators ignored) is one of the
/// accepted spellings of a temporary directory; the extra guard applied
/// to the variable-derived temp path.
pub open spec fn temp_file_name(p: Seq<char>) -> bool {
    ||| file_name_of(strip_trailing_seps(p)) == "Temp"@
    ||| file_name_of(strip_trailing_seps(p)) == "Tmp"@
    ||| file_name_of(strip_trailing_seps(p)) == "temp"@
    ||| file_name_of(strip_trailing_seps(p)) == "tmp"@
}

/// Appending a non-separator extends the final segment; a separator
/// empties it.
pub proof fn lemma_file_name_push(p: Seq<char>, c: char)
    ensures
        is_sep(c) ==> file_name_of(p.push(c)) == Seq::<char>::empty(),
        !is_sep(c) ==> file_name_of(p.push(c)) == file_name_of(p).push(c),
{
    assert(p.push(c).last() == c);
    assert(p.push(c).drop_last() =~= p);
}

/// How the extension of a name evolves as characters are appended.
pub proof fn lemma_ext_push(n: Seq<char>, c: char)
    ensures
        n.len() == 0 ==> ext_of_name(n.push(c)) is None,
        n.len() >= 1 && c == '.' ==> ext_of_name(n.push(c)) == Some(Seq::<char>::empty()),
        n.len() >= 1 && c != '.' ==> ext_of_name(n.push(c)) == (match ext_of_name(n) {
            Some(e) => Some(e.push(c)),
            None => None::<Seq<char>>,
        }),
{
    assert(n.push(c).last() == c);
    assert(n.push(c).drop_last() =~= n);
}

/// Appending a backslash makes everything before it the parent; appending
/// anything else leaves the parent alone.
pub proof fn lemma_parent_push(p: Seq<char>, c: char)
    ensures
        c == '\\' ==> parent_of(p.push(c)) == p,
        c != '\\' ==> parent_of(p.push(c)) == parent_of(p),
{
    assert(p.push(c).last() == c);
    assert(p.push(c).drop_last() =~= p);
}

/// The characters of `s`, in order.
pub fn str_chars(s: &str) -> (r: Vec<char>)
    ensures
        r@ == s@,
{
    let n = s.unicode_len();
    let mut r: Vec<char> = Vec::new();
    for i in 0..n
        invariant
            n == s@.len(),
            r@ =~= s@.subrange(0, i as int),
    {
        r.push(s.get_char(i));
        assert(r@ =~= s@.subrange(0, i + 1 as int));
    }
    assert(s@.subrange(0, n as int) =~= s@);
    r
}

/// Whether the final segment of `path` carries the extension `ext`
/// (case-sensitively, not counting the dot).
pub fn extension_matches(path: &str, ext: &str) -> (b: bool)
    ensures
        b == (extension_of(path@) == Some(ext@)),
{
    let n = path.unicode_len();
    let mut name_len: usize = 0;
    let mut cur: Option<Vec<char>> = None;
    for i in 0..n
        invariant
            n == path@.len(),
            name_len == file_name_of(path@.subrange(0, i as int)).len(),
            name_len <= i,
            (match cur {
                Some(e) => ext_of_name(file_name_of(path@.subrange(0, i as int))) == Some(e@),
                None => ext_of_name(file_name_of(path@.subrange(0, i as int))) is None,
            }),
    {
        let c = path.get_char(i);
        proof {
            assert(path@.subrange(0, i + 1 as int) =~= path@.subrange(0, i as int).push(
                path@[i as int],
            ));
            lemma_file_name_push(path@.subrange(0, i as int), path@[i as int]);
            lemma_ext_push(file_name_of(path@.subrange(0, i as int)), path@[i as int]);
        }
        if c == '\\' || c == '/' {
            name_len = 0;
            cur = None;
        } else {
            if c == '.' && name_len >= 1 {
                cur = Some(Vec::new());
            } else {
                match &mut cur {
                    Some(e) => e.push(c),
                    None => (),
                }
            }
            name_len = name_len + 1;
        }
    }
    assert(path@.subrange(0, n as int) =~= path@);
    match cur {
        Some(e) => chars_eq_str(&e, ext),
        None => false,
    }
}

/// Whether the characters of `v` spell exactly `s`.
pub fn chars_eq_str(v: &Vec<char>, s: &str) -> (b: bool)
    ensures
        b == (v@ == s@),
{
    let n = s.unicode_len();
    if v.len() != n {
        return false;
    }
    for i in 0..n
        invariant
            n == s@.len(),
            v@.len() == n,
            forall|j: int| 0 <= j < i ==> v@[j] == s@[j],
    {
        if v[i] != s.get_char(i) {
            return false;
        }
    }
    assert(v@ =~= s@);
    true
}

/// Join an anchor and a relative path as `spec_join` describes.
pub fn join_path(a: &str, b: &str) -> (r: String)
    ensures
        r@ == spec_join(a@, b@),
{
    let na = a.unicode_len();
    let nb = b.unicode_len();
    if nb > 0 {
        let c0 = b.get_char(0);
        if c0 == '\\' || c0 == '/' {
            return String::from_str(a).concat(b);
        }
    }
    if na > 0 {
        let cl = a.get_char(na - 1);
        if cl == '\\' || cl == '/' {
            assert(a@.last() == a@[na - 1]);
            return String::from_str(a).concat(b);
        }
    }
    let mut r = String::from_str(a);
    r.append("\\");
    r.append(b);
    proof {
        reveal_strlit("\\");
        assert(r@ =~= a@ + seq!['\\'] + b@);
    }
    r
}

/// The path shortened by its final backslash-separated segment.
pub fn parent_path(p: &str) -> (r: String)
    ensures
        r@ == parent_of(p@),
{
    let n = p.unicode_len();
    let mut last: Option<usize> = None;
    for i in 0..n
        invariant
            n == p@.len(),
            (match last {
                Some(j) => {
                    &&& j < i
                    &&& p@[j as int] == '\\'
                    &&& parent_of(p@.subrange(0, i as int)) == p@.subrange(0, j as int)
                },
                None => parent_of(p@.subrange(0, i as int)) == Seq::<char>::empty(),
            }),
    {
        proof {
            assert(p@.subrange(0, i + 1 as int) =~= p@.subrange(0, i as int).push(p@[i as int]));
            lemma_parent_push(p@.subrange(0, i as int), p@[i as int]);
        }
        if p.get_char(i) == '\\' {
            last = Some(i);
        }
    }
    assert(p@.subrange(0, n as int) =~= p@);
    match last {
        Some(j) => String::from_str(p.substring_char(0, j)),
        None => String::new(),
    }
}

/// Whether `p` has the shape of an absolute Windows path.
pub fn is_absolute_path(p: &str) -> (b: bool)
    ensures
        b == path_shape_absolute(p@),
{
    let n = p.unicode_len();
    if n >= 3 {
        let c0 = p.get_char(0);
        let c1 = p.get_char(1);
        let c2 = p.get_char(2);
        if (('a' <= c0 && c0 <= 'z') || ('A' <= c0 && c0 <= 'Z')) && c1 == ':' && (c2 == '\\'
            || c2 == '/') {
            return true;
        }
    }
    if n >= 2 {
        let c0 = p.get_char(0);
        let c1 = p.get_char(1);
        if (c0 == '\\' || c0 == '/') && (c1 == '\\' || c1 == '/') {
            return true;
        }
    }
    false
}

/// The final segment of `p`.
pub fn file_name_chars(p: &str) -> (r: Vec<char>)
    ensures
        r@ == file_name_of(p@),
{
    let n = p.unicode_len();
    let mut r: Vec<char> = Vec::new();
    for i in 0..n
        invariant
            n == p@.len(),
            r@ == file_name_of(p@.subrange(0, i as int)),
    {
        proof {
            assert(p@.subrange(0, i + 1 as int) =~= p@.subrange(0, i as int).push(p@[i as int]));
            lemma_file_name_push(p@.subrange(0, i as int), p@[i as int]);
        }
        let c = p.get_char(i);
        if c == '\\' || c == '/' {
            r = Vec::new();
        } else {
            r.push(c);
        }
    }
    assert(p@.subrange(0, n as int) =~= p@);
    r
}

/// The longest prefix of `p` that does not end in a separator.
pub fn strip_trailing_separators<'a>(p: &'a str) -> (r: &'a str)
    ensures
        r@ == strip_trailing_seps(p@),
{
    let n = p.unicode_len();
    let mut end: usize = 0;
    for i in 0..n
        invariant
            n == p@.len(),
            end <= i,
            strip_trailing_seps(p@.subrange(0, i as int)) == p@.subrange(0, end as int),
    {
        proof {
            assert(p@.subrange(0, i + 1 as int).drop_last() =~= p@.subrange(0, i as int));
            assert(p@.subrange(0, i + 1 as int).last() == p@[i as int]);
        }
        let c = p.get_char(i);
        if !(c == '\\' || c == '/') {
            end = i + 1;
        }
    }
    assert(p@.subrange(0, n as int) =~= p@);
    p.substring_char(0, end)
}

/// Whether the final named segment of `p` is an accepted temp-directory
/// name.
pub fn has_temp_file_name(p: &str) -> (b: bool)
    ensures
        b == temp_file_name(p@),
{
    let stripped = strip_trailing_separators(p);
    let name = file_name_chars(stripped);
    let b = chars_eq_str(&name, "Temp") || chars_eq_str(&name, "Tmp") || chars_eq_str(
        &name,
        "temp",
    ) || chars_eq_str(&name, "tmp");
    b
}

} // verus!
