use vstd::prelude::*;

verus! {

/// Whether `line` is the first line of `s`: the longest prefix of `s` that
/// holds no line feed.
pub open spec fn is_first_line(s: Seq<char>, line: Seq<char>) -> bool {
    &&& line.len() <= s.len()
    &&& line == s.subrange(0, line.len() as int)
    &&& forall|j: int| 0 <= j < line.len() ==> line[j] != '\n'
    &&& (line.len() == s.len() || s[line.len() as int] == '\n')
}

/// The first line of a text is unique.
pub proof fn lemma_first_line_unique(s: Seq<char>, a: Seq<char>, b: Seq<char>)
    requires
        is_first_line(s, a),
        is_first_line(s, b),
    ensures
        a == b,
{
    if a.len() < b.len() {
        assert(b[a.len() as int] == s[a.len() as int]);
    } else if b.len() < a.len() {
        assert(a[b.len() as int] == s[b.len() as int]);
    }
}

/// Character-wise equality of two strings.
pub fn str_eq(a: &str, b: &str) -> (r: bool)
    ensures
        r == (a@ == b@),
{
    let n = a.unicode_len();
    if n != b.unicode_len() {
        return false;
    }
    let mut i: usize = 0;
    while i < n
        invariant
            n == a@.len(),
            n == b@.len(),
            0 <= i <= n,
            forall|j: int| 0 <= j < i ==> a@[j] == b@[j],
        decreases n - i,
    {
        if a.get_char(i) != b.get_char(i) {
            return false;
        }
        i = i + 1;
    }
    assert(a@ =~= b@);
    true
}

/// The path `child` placed below the directory `parent`.
pub open spec fn join(parent: Seq<char>, child: Seq<char>) -> Seq<char> {
    parent + seq!['/'] + child
}

/// Places `child` below `parent`, separated by a slash.
pub fn join_path(parent: &str, child: &str) -> (r: String)
    ensures
        r@ == join(parent@, child@),
{
    let mut r = String::from_str(parent);
    r.append("/");
    proof {
        reveal_strlit("/");
    }
    r.append(child);
    assert(r@ =~= join(parent@, child@));
    r
}

/// The first `k` characters of `s`, as a new string.
pub fn prefix_of(s: &str, k: usize) -> (r: String)
    requires
        k <= s@.len(),
    ensures
        r@ == s@.subrange(0, k as int),
{
    String::from_str(s.substring_char(0, k))
}

} // verus!

verus! {

/// A path separator, forward or backward.
pub open spec fn is_separator(c: char) -> bool {
    c == '/' || c == '\\'
}

/// The index of the last separator in `path`, or -1 when there is none.
pub open spec fn last_separator(path: Seq<char>) -> int
    decreases path.len(),
{
    if path.len() == 0 {
        -1
    } else if is_separator(path.last()) {
        path.len() - 1
    } else {
        last_separator(path.drop_last())
    }
}

/// The directory part of `path`: all before its last separator; where that
/// would be empty, the working directory `cwd`.
pub open spec fn directory_of(cwd: Seq<char>, path: Seq<char>) -> Seq<char> {
    if last_separator(path) > 0 {
        path.subrange(0, last_separator(path))
    } else {
        cwd
    }
}

/// The directory of the file `path`, or `cwd` when `path` names none; `None`
/// for an empty path, which names no file.
pub fn get_diretory(cwd: &str, path: &str) -> (r: Option<String>)
    ensures
        path@.len() == 0 <==> r is None,
        r is Some ==> r->Some_0@ == directory_of(cwd@, path@),
{
    let n = path.unicode_len();
    if n == 0 {
        return None;
    }
    let mut i: usize = n;
    assert(path@.subrange(0, n as int) =~= path@);
    while i > 0 && !(path.get_char(i - 1) == '/' || path.get_char(i - 1) == '\\')
        invariant
            n == path@.len(),
            0 <= i <= n,
            last_separator(path@) == last_separator(path@.subrange(0, i as int)),
        decreases i,
    {
        assert(path@.subrange(0, i as int).drop_last() =~= path@.subrange(0, i - 1));
        i = i - 1;
    }
    if i == 0 {
        assert(path@.subrange(0, 0) =~= Seq::<char>::empty());
        return Some(String::from_str(cwd));
    }
    assert(path@.subrange(0, i as int).last() == path@[i - 1]);
    if i - 1 == 0 {
        return Some(String::from_str(cwd));
    }
    Some(prefix_of(path, i - 1))
}

} // verus!
