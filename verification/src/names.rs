//! File names as text: stems, extensions, suffixes, path segments.

use vstd::prelude::*;
use vstd::string::*;

verus! {

/// Index just past the last `c` in `s`, or 0 when there is none.
pub open spec fn after_last(s: Seq<char>, c: char) -> int
    decreases s.len(),
{
    if s.len() == 0 {
        0
    } else if s.last() == c {
        s.len() as int
    } else {
        after_last(s.drop_last(), c)
    }
}

/// What characterises `after_last`: it is in range, nothing from it on is
/// `c`, and the position before it holds `c` unless it is 0.
pub proof fn lemma_after_last(s: Seq<char>, c: char)
    ensures
        0 <= after_last(s, c) <= s.len(),
        forall|i: int| after_last(s, c) <= i < s.len() ==> s[i] != c,
        after_last(s, c) > 0 ==> s[after_last(s, c) - 1] == c,
    decreases s.len(),
{
    if s.len() > 0 && s.last() != c {
        let t = s.drop_last();
        lemma_after_last(t, c);
        assert forall|i: int| after_last(s, c) <= i < s.len() implies s[i] != c by {
            if i < t.len() {
                assert(s[i] == t[i]);
            }
        }
    }
}

/// A position that meets what characterises `after_last` is `after_last`.
pub proof fn lemma_after_last_unique(s: Seq<char>, c: char, k: int)
    requires
        0 <= k <= s.len(),
        forall|i: int| k <= i < s.len() ==> s[i] != c,
        k > 0 ==> s[k - 1] == c,
    ensures
        after_last(s, c) == k,
{
    lemma_after_last(s, c);
}

/// The text of `name` before its last `.`; all of it when it has none.
pub open spec fn stem(name: Seq<char>) -> Seq<char> {
    if after_last(name, '.') == 0 {
        name
    } else {
        name.take(after_last(name, '.') - 1)
    }
}

/// The part of a file name before its extension: the text before its
/// last `.`, or the whole name when it has none.
pub fn file_basename(filename: &str) -> (base: String)
    ensures
        base@ == stem(filename@),
{
    let n: usize = filename.unicode_len();
    let mut k: usize = n;
    while k > 0 && filename.get_char(k - 1) != '.'
        invariant
            n == filename@.len(),
            k <= n,
            forall|j: int| k <= j < n ==> filename@[j] != '.',
        decreases k,
    {
        k -= 1;
    }
    proof {
        lemma_after_last_unique(filename@, '.', k as int);
    }
    if k == 0 {
        assert(filename@.subrange(0, n as int) =~= filename@);
        String::from_str(filename.substring_char(0, n))
    } else {
        String::from_str(filename.substring_char(0, k - 1))
    }
}

/// `name` with `extension` in place of its own: the stem of `name`
/// followed by `extension`. An extension that holds no `.` gets one put
/// before it.
pub open spec fn with_extension(name: Seq<char>, extension: Seq<char>) -> Seq<char> {
    if extension.contains('.') {
        stem(name) + extension
    } else {
        stem(name) + seq!['.'] + extension
    }
}

/// A name without a `.` is its own stem.
pub proof fn law_stem_without_dot(name: Seq<char>)
    requires
        !name.contains('.'),
    ensures
        stem(name) == name,
{
    lemma_after_last_unique(name, '.', 0);
}

/// Only the extension is replaced: for a name made of `front`, a `.` and
/// an extension without a `.`, the new name is `front` followed by the
/// new extension, whatever dots `front` holds.
pub proof fn law_extension_replaced(front: Seq<char>, extension: Seq<char>, replacement: Seq<char>)
    requires
        !extension.contains('.'),
        replacement.contains('.'),
    ensures
        with_extension(front + seq!['.'] + extension, replacement) == front + replacement,
{
    let name = front + seq!['.'] + extension;
    let k = front.len() as int + 1;
    assert forall|i: int| k <= i < name.len() implies name[i] != '.' by {
        assert(name[i] == extension[i - k]);
    }
    lemma_after_last_unique(name, '.', k);
    assert(name.take(k - 1) =~= front);
}

/// Whether `c` occurs in `text`.
pub fn contains_char(text: &str, c: char) -> (found: bool)
    ensures
        found == text@.contains(c),
{
    let n: usize = text.unicode_len();
    let mut i: usize = 0;
    while i < n
        invariant
            n == text@.len(),
            i <= n,
            forall|j: int| 0 <= j < i ==> text@[j] != c,
        decreases n - i,
    {
        if text.get_char(i) == c {
            return true;
        }
        i += 1;
    }
    false
}

/// The file name with its extension replaced: the stem of `filename`
/// followed by `extension`, with a `.` between them where `extension`
/// brings none.
pub fn filename_with_extension(filename: &str, extension: &str) -> (name: String)
    ensures
        name@ == with_extension(filename@, extension@),
{
    let mut name = file_basename(filename);
    if !contains_char(extension, '.') {
        proof {
            reveal_strlit(".");
        }
        name.append(".");
    }
    name.append(extension);
    name
}

/// Whether `text` ends with `suffix`.
pub open spec fn ends_with(text: Seq<char>, suffix: Seq<char>) -> bool {
    suffix.len() <= text.len() && text.skip(text.len() - suffix.len()) == suffix
}

/// Whether `text` ends with `suffix`, character for character.
pub fn has_suffix(text: &str, suffix: &str) -> (yes: bool)
    ensures
        yes == ends_with(text@, suffix@),
{
    let n: usize = text.unicode_len();
    let m: usize = suffix.unicode_len();
    if m > n {
        return false;
    }
    let start: usize = n - m;
    let ghost tail = text@.skip(start as int);
    let mut i: usize = 0;
    while i < m
        invariant
            n == text@.len(),
            m == suffix@.len(),
            start == n - m,
            i <= m,
            tail == text@.skip(start as int),
            forall|j: int| 0 <= j < i ==> tail[j] == suffix@[j],
        decreases m - i,
    {
        if text.get_char(start + i) != suffix.get_char(i) {
            return false;
        }
        i += 1;
    }
    assert(tail =~= suffix@);
    true
}

/// Whether two texts are the same, character for character.
pub fn same_text(a: &str, b: &str) -> (same: bool)
    ensures
        same == (a@ == b@),
{
    if a.unicode_len() != b.unicode_len() {
        return false;
    }
    assert(a@.skip(0) =~= a@);
    has_suffix(a, b)
}

/// The last segment of a `/`-separated path: what follows its last `/`,
/// or the whole path when it has none.
pub open spec fn last_segment(path: Seq<char>) -> Seq<char> {
    path.skip(after_last(path, '/'))
}

/// The file name at the end of a `/`-separated path.
pub fn path_file_name(path: &str) -> (name: String)
    ensures
        name@ == last_segment(path@),
{
    let n: usize = path.unicode_len();
    let mut k: usize = n;
    while k > 0 && path.get_char(k - 1) != '/'
        invariant
            n == path@.len(),
            k <= n,
            forall|j: int| k <= j < n ==> path@[j] != '/',
        decreases k,
    {
        k -= 1;
    }
    proof {
        lemma_after_last_unique(path@, '/', k as int);
    }
    String::from_str(path.substring_char(k, n))
}

/// `path` without the `/` characters at its end.
pub open spec fn without_trailing_slashes(path: Seq<char>) -> Seq<char>
    decreases path.len(),
{
    if path.len() > 0 && path.last() == '/' {
        without_trailing_slashes(path.drop_last())
    } else {
        path
    }
}

/// The name of the directory that `path` leads to: its last segment,
/// with any `/` at the end of the path set aside.
pub open spec fn base_name(path: Seq<char>) -> Seq<char> {
    last_segment(without_trailing_slashes(path))
}

/// A prefix of `path` that does not end in `/` and is followed by `/`
/// characters only is `path` without its trailing slashes.
pub proof fn lemma_without_trailing_slashes(path: Seq<char>, end: int)
    requires
        0 <= end <= path.len(),
        forall|i: int| end <= i < path.len() ==> path[i] == '/',
        end > 0 ==> path[end - 1] != '/',
    ensures
        without_trailing_slashes(path) == path.take(end),
    decreases path.len() - end,
{
    if end == path.len() {
        assert(path.take(end) =~= path);
    } else {
        lemma_without_trailing_slashes(path.drop_last(), end);
        assert(path.drop_last().take(end) =~= path.take(end));
    }
}

/// The name of the directory that `path` leads to.
pub fn directory_name(path: &str) -> (name: String)
    ensures
        name@ == base_name(path@),
{
    let n: usize = path.unicode_len();
    let mut end: usize = n;
    while end > 0 && path.get_char(end - 1) == '/'
        invariant
            n == path@.len(),
            end <= n,
            forall|j: int| end <= j < n ==> path@[j] == '/',
        decreases end,
    {
        end -= 1;
    }
    proof {
        lemma_without_trailing_slashes(path@, end as int);
    }
    path_file_name(path.substring_char(0, end))
}

/// `relative` placed under `base`, as paths with `/` between their parts.
/// A `relative` that starts at the root stands alone; an empty `base`, or
/// one that already ends in `/`, gets no separator added.
pub open spec fn joined(base: Seq<char>, relative: Seq<char>) -> Seq<char> {
    if relative.len() > 0 && relative[0] == '/' {
        relative
    } else if base.len() > 0 && base.last() != '/' {
        base + seq!['/'] + relative
    } else {
        base + relative
    }
}

/// The path of `relative` under `base`.
pub fn join_path(base: &str, relative: &str) -> (path: String)
    ensures
        path@ == joined(base@, relative@),
{
    let n: usize = base.unicode_len();
    let m: usize = relative.unicode_len();
    if m > 0 && relative.get_char(0) == '/' {
        return String::from_str(relative);
    }
    let mut path = String::from_str(base);
    if n > 0 && base.get_char(n - 1) != '/' {
        proof {
            reveal_strlit("/");
        }
        path.append("/");
    }
    path.append(relative);
    path
}

/// A name without a `/` is the last segment of its path under any base.
pub proof fn law_last_segment_of_joined(base: Seq<char>, name: Seq<char>)
    requires
        !name.contains('/'),
    ensures
        last_segment(joined(base, name)) == name,
{
    let path = joined(base, name);
    let k = path.len() - name.len();
    if name.len() > 0 {
        assert(name.contains(name[0]));
    }
    assert forall|i: int| k <= i < path.len() implies path[i] != '/' by {
        assert(path[i] == name[i - k]);
        assert(name.contains(name[i - k]));
    }
    lemma_after_last_unique(path, '/', k);
    assert(path.skip(k) =~= name);
}

} // verus!
