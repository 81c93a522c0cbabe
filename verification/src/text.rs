//! String algorithms used by the instructions.
//!
//! Every function here is specified over the characters of its arguments
//! (`Seq<char>`, the view of `str` and `String`) and proved against that
//! specification.

use vstd::prelude::*;
use vstd::string::*;

verus! {

/// Whether `c` is whitespace: the code points that carry the Unicode
/// `White_Space` property.
pub open spec fn is_space(c: char) -> bool {
    ||| '\u{9}' <= c <= '\u{D}'
    ||| c == ' '
    ||| c == '\u{85}'
    ||| c == '\u{A0}'
    ||| c == '\u{1680}'
    ||| '\u{2000}' <= c <= '\u{200A}'
    ||| c == '\u{2028}'
    ||| c == '\u{2029}'
    ||| c == '\u{202F}'
    ||| c == '\u{205F}'
    ||| c == '\u{3000}'
}

/// Tests a character for whitespace.
pub fn is_whitespace(c: char) -> (r: bool)
    ensures
        r == is_space(c),
{
    ('\u{9}' <= c && c <= '\u{D}') || c == ' ' || c == '\u{85}' || c == '\u{A0}' || c
        == '\u{1680}' || ('\u{2000}' <= c && c <= '\u{200A}') || c == '\u{2028}' || c
        == '\u{2029}' || c == '\u{202F}' || c == '\u{205F}' || c == '\u{3000}'
}

/// The lower-case form of an ASCII letter; every other character is itself.
pub open spec fn ascii_lower(c: char) -> char {
    if 'A' <= c <= 'Z' {
        ((c as u8) + 32) as char
    } else {
        c
    }
}

/// Maps `A`–`Z` to `a`–`z` and leaves every other character alone.
pub fn to_ascii_lower(c: char) -> (r: char)
    ensures
        r == ascii_lower(c),
{
    if 'A' <= c && c <= 'Z' {
        ((c as u8) + 32) as char
    } else {
        c
    }
}

/// Whether `a` and `b` are equal up to the case of ASCII letters.
pub open spec fn same_ignoring_ascii_case(a: Seq<char>, b: Seq<char>) -> bool {
    &&& a.len() == b.len()
    &&& forall|i: int| 0 <= i < a.len() ==> ascii_lower(#[trigger] a[i]) == ascii_lower(b[i])
}

/// The characters of `s`, one element each.
pub fn chars_of(s: &str) -> (v: Vec<char>)
    ensures
        v@ == s@,
{
    let mut v: Vec<char> = Vec::new();
    for c in it: s.chars()
        invariant
            v@ == it.seq().take(it.index()),
    {
        v.push(c);
    }
    v
}

/// Compares two strings character by character.
pub fn same_text(a: &str, b: &str) -> (r: bool)
    ensures
        r == (a@ == b@),
{
    let x = chars_of(a);
    let y = chars_of(b);
    if x.len() != y.len() {
        return false;
    }
    let mut i: usize = 0;
    while i < x.len()
        invariant
            i <= x.len(),
            x.len() == y.len(),
            x@ == a@,
            y@ == b@,
            forall|k: int| 0 <= k < i ==> x@[k] == y@[k],
        decreases x.len() - i,
    {
        if x[i] != y[i] {
            return false;
        }
        i = i + 1;
    }
    assert(a@ =~= b@);
    true
}

/// Compares `chars[from..to]` with `word`, ignoring the case of ASCII letters.
pub fn range_matches_ignoring_case(chars: &Vec<char>, from: usize, to: usize, word: &str) -> (r:
    bool)
    requires
        from <= to <= chars.len(),
    ensures
        r == same_ignoring_ascii_case(chars@.subrange(from as int, to as int), word@),
{
    let w = chars_of(word);
    if to - from != w.len() {
        return false;
    }
    let ghost part = chars@.subrange(from as int, to as int);
    let mut i: usize = 0;
    while i < w.len()
        invariant
            i <= w.len(),
            from <= to <= chars.len(),
            to - from == w.len(),
            w@ == word@,
            part == chars@.subrange(from as int, to as int),
            forall|k: int| 0 <= k < i ==> ascii_lower(#[trigger] part[k]) == ascii_lower(w@[k]),
        decreases w.len() - i,
    {
        assert(part[i as int] == chars@[from + i]);
        if to_ascii_lower(chars[from + i]) != to_ascii_lower(w[i]) {
            return false;
        }
        i = i + 1;
    }
    true
}

/// The number of leading characters of `s` that are not whitespace.
pub open spec fn word_len(s: Seq<char>) -> nat
    decreases s.len(),
{
    if s.len() == 0 || is_space(s[0]) {
        0
    } else {
        1 + word_len(s.skip(1))
    }
}

/// The words of `s`: its maximal runs of characters that are not whitespace,
/// in the order in which they occur.
pub open spec fn words(s: Seq<char>) -> Seq<Seq<char>>
    decreases s.len(),
{
    if s.len() == 0 {
        Seq::empty()
    } else if is_space(s[0]) {
        words(s.skip(1))
    } else {
        proof {
            lemma_word_len(s);
        }
        seq![s.take(word_len(s) as int)] + words(s.skip(word_len(s) as int))
    }
}

/// `word_len` never runs past the end, and stops at whitespace or at the end.
pub proof fn lemma_word_len(s: Seq<char>)
    ensures
        word_len(s) <= s.len(),
        forall|k: int| 0 <= k < word_len(s) ==> !is_space(#[trigger] s[k]),
        word_len(s) < s.len() ==> is_space(s[word_len(s) as int]),
    decreases s.len(),
{
    if s.len() == 0 || is_space(s[0]) {
    } else {
        let t = s.skip(1);
        lemma_word_len(t);
        assert forall|k: int| 0 <= k < word_len(s) implies !is_space(#[trigger] s[k]) by {
            if k > 0 {
                assert(s[k] == t[k - 1]);
            }
        }
        if word_len(s) < s.len() {
            assert(s[word_len(s) as int] == t[word_len(t) as int]);
        }
    }
}

/// A run of `n` non-whitespace characters that ends at whitespace or at the
/// end of `s` is the first word of `s`.
pub proof fn lemma_word_len_is(s: Seq<char>, n: nat)
    requires
        n <= s.len(),
        forall|k: int| 0 <= k < n ==> !is_space(#[trigger] s[k]),
        n < s.len() ==> is_space(s[n as int]),
    ensures
        word_len(s) == n,
    decreases s.len(),
{
    if s.len() == 0 || is_space(s[0]) {
    } else {
        let t = s.skip(1);
        assert forall|k: int| 0 <= k < n - 1 implies !is_space(#[trigger] t[k]) by {
            assert(t[k] == s[k + 1]);
        }
        lemma_word_len_is(t, (n - 1) as nat);
    }
}

/// Whether `w` is non-empty and free of whitespace.
pub open spec fn is_word(w: Seq<char>) -> bool {
    &&& w.len() > 0
    &&& forall|k: int| 0 <= k < w.len() ==> !is_space(#[trigger] w[k])
}

/// Every element of `words(s)` is non-empty and free of whitespace.
pub proof fn lemma_words_are_words(s: Seq<char>)
    ensures
        forall|i: int| 0 <= i < words(s).len() ==> is_word(#[trigger] words(s)[i]),
    decreases s.len(),
{
    if s.len() == 0 {
        assert(words(s).len() == 0);
    } else if is_space(s[0]) {
        lemma_words_are_words(s.skip(1));
        assert(words(s) == words(s.skip(1)));
    } else {
        let n = word_len(s);
        lemma_word_len(s);
        lemma_words_are_words(s.skip(n as int));
        let first = s.take(n as int);
        let rest = words(s.skip(n as int));
        assert(words(s) == seq![first] + rest);
        assert forall|k: int| 0 <= k < first.len() implies !is_space(#[trigger] first[k]) by {
            assert(first[k] == s[k]);
        }
        assert(is_word(first));
        assert forall|i: int| 0 <= i < words(s).len() implies is_word(#[trigger] words(s)[i]) by {
            if i > 0 {
                assert(words(s)[i] == rest[i - 1]);
            }
        }
    }
}

/// Splits `s` on whitespace.
pub fn split_whitespace(s: &str) -> (out: Vec<String>)
    ensures
        out.deep_view() == words(s@),
{
    let chars = chars_of(s);
    let n = chars.len();
    let mut out: Vec<String> = Vec::new();
    let mut i: usize = 0;
    assert(s@.skip(0) =~= s@);
    while i < n
        invariant
            i <= n,
            n == chars.len(),
            chars@ == s@,
            words(s@) == out.deep_view() + words(s@.skip(i as int)),
        decreases n - i,
    {
        let ghost rest = s@.skip(i as int);
        assert(rest[0] == s@[i as int]);
        assert(rest.skip(1) =~= s@.skip(i + 1));
        if is_whitespace(chars[i]) {
            i = i + 1;
        } else {
            let mut j: usize = i + 1;
            while j < n && !is_whitespace(chars[j])
                invariant
                    i < j <= n,
                    n == chars.len(),
                    chars@ == s@,
                    forall|k: int| i <= k < j ==> !is_space(#[trigger] s@[k]),
                decreases n - j,
            {
                j = j + 1;
            }
            proof {
                assert forall|k: int| 0 <= k < j - i implies !is_space(#[trigger] rest[k]) by {
                    assert(rest[k] == s@[i + k]);
                }
                if j - i < rest.len() {
                    assert(rest[j - i] == s@[j as int]);
                }
                lemma_word_len_is(rest, (j - i) as nat);
                assert(rest.take(j - i) =~= s@.subrange(i as int, j as int));
                assert(rest.skip(j - i) =~= s@.skip(j as int));
            }
            let word = s.substring_char(i, j);
            let ghost before = out.deep_view();
            out.push(String::from_str(word));
            assert(out.deep_view() =~= before.push(word@));
            assert(before + (seq![word@] + words(s@.skip(j as int))) =~= before.push(word@)
                + words(s@.skip(j as int)));
            i = j;
        }
    }
    assert(s@.skip(n as int) =~= Seq::<char>::empty());
    assert(out.deep_view() + Seq::<Seq<char>>::empty() =~= out.deep_view());
    out
}

/// `words` joined by `sep`.
pub open spec fn joined(words: Seq<Seq<char>>, sep: Seq<char>) -> Seq<char>
    decreases words.len(),
{
    if words.len() == 0 {
        Seq::empty()
    } else if words.len() == 1 {
        words[0]
    } else {
        joined(words.drop_last(), sep) + sep + words.last()
    }
}

/// Joins `words` with `sep` between neighbours.
pub fn join(words: &Vec<String>, sep: &str) -> (out: String)
    ensures
        out@ == joined(words.deep_view(), sep@),
{
    let mut out = String::new();
    let mut i: usize = 0;
    let ghost all = words.deep_view();
    while i < words.len()
        invariant
            i <= words.len(),
            all == words.deep_view(),
            out@ == joined(all.take(i as int), sep@),
        decreases words.len() - i,
    {
        let ghost before = all.take(i as int);
        let ghost after = all.take(i + 1);
        assert(after.drop_last() =~= before);
        assert(after.last() == words@[i as int]@);
        if i > 0 {
            out.append(sep);
        }
        out.append(words[i].as_str());
        assert(out@ =~= joined(after, sep@));
        i = i + 1;
    }
    assert(all.take(words.len() as int) =~= all);
    out
}

/// A copy of `words`.
pub fn copy_words(words: &Vec<String>) -> (out: Vec<String>)
    ensures
        out.deep_view() == words.deep_view(),
{
    let mut out: Vec<String> = Vec::new();
    let mut i: usize = 0;
    while i < words.len()
        invariant
            i <= words.len(),
            out.deep_view() == words.deep_view().take(i as int),
        decreases words.len() - i,
    {
        let ghost before = out.deep_view();
        out.push(words[i].clone());
        assert(out.deep_view() =~= before.push(words@[i as int]@));
        assert(words.deep_view().take(i + 1) =~= before.push(words@[i as int]@));
        i = i + 1;
    }
    assert(words.deep_view().take(words.len() as int) =~= words.deep_view());
    out
}

/// Whether `needle` occurs in `hay` at offset `i`.
pub open spec fn occurs_at(hay: Seq<char>, needle: Seq<char>, i: int) -> bool {
    &&& 0 <= i
    &&& i + needle.len() <= hay.len()
    &&& hay.subrange(i, i + needle.len()) == needle
}

/// Whether `needle` occurs somewhere in `hay`.
pub open spec fn contains_text(hay: Seq<char>, needle: Seq<char>) -> bool {
    exists|i: int| occurs_at(hay, needle, i)
}

/// Tests whether `needle` occurs in `hay` at offset `at`.
pub fn matches_at(hay: &Vec<char>, needle: &Vec<char>, at: usize) -> (r: bool)
    ensures
        r == occurs_at(hay@, needle@, at as int),
{
    if needle.len() > hay.len() || at > hay.len() - needle.len() {
        return false;
    }
    let ghost part = hay@.subrange(at as int, at + needle.len());
    let mut k: usize = 0;
    while k < needle.len()
        invariant
            k <= needle.len(),
            at + needle.len() <= hay.len(),
            part == hay@.subrange(at as int, at + needle.len()),
            forall|j: int| 0 <= j < k ==> part[j] == needle@[j],
        decreases needle.len() - k,
    {
        assert(part[k as int] == hay@[at + k]);
        if hay[at + k] != needle[k] {
            return false;
        }
        k = k + 1;
    }
    assert(part =~= needle@);
    true
}

/// Substring test.
pub fn contains(hay: &str, needle: &str) -> (r: bool)
    ensures
        r == contains_text(hay@, needle@),
{
    let h = chars_of(hay);
    let n = chars_of(needle);
    if n.len() > h.len() {
        return false;
    }
    let last = h.len() - n.len();
    let mut i: usize = 0;
    while i < last
        invariant
            i <= last,
            last == h.len() - n.len(),
            h@ == hay@,
            n@ == needle@,
            forall|k: int| 0 <= k < i ==> !occurs_at(hay@, needle@, k),
        decreases last - i,
    {
        if matches_at(&h, &n, i) {
            return true;
        }
        i = i + 1;
    }
    matches_at(&h, &n, last)
}

/// The index of the last `c` in `s`, or `-1` where `s` holds none.
pub open spec fn last_index_of(s: Seq<char>, c: char) -> int
    decreases s.len(),
{
    if s.len() == 0 {
        -1
    } else if s.last() == c {
        s.len() - 1
    } else {
        last_index_of(s.drop_last(), c)
    }
}

/// `last_index_of` points at an occurrence after which no other follows.
pub proof fn lemma_last_index_of(s: Seq<char>, c: char)
    ensures
        -1 <= last_index_of(s, c) < s.len(),
        last_index_of(s, c) >= 0 ==> s[last_index_of(s, c)] == c,
        forall|k: int| last_index_of(s, c) < k < s.len() ==> s[k] != c,
    decreases s.len(),
{
    if s.len() > 0 && s.last() != c {
        lemma_last_index_of(s.drop_last(), c);
        assert forall|k: int| last_index_of(s, c) < k < s.len() implies s[k] != c by {
            if k < s.len() - 1 {
                assert(s.drop_last()[k] == s[k]);
            }
        }
    }
}

/// An occurrence of `c` at `i` with none after it is the last one.
pub proof fn lemma_last_index_is(s: Seq<char>, c: char, i: int)
    requires
        -1 <= i < s.len(),
        i >= 0 ==> s[i] == c,
        forall|k: int| i < k < s.len() ==> s[k] != c,
    ensures
        last_index_of(s, c) == i,
    decreases s.len(),
{
    if s.len() > 0 && s.last() != c {
        lemma_last_index_is(s.drop_last(), c, i);
    }
}

/// Finds the last `c` in `chars[..end]`: the index behind it, or 0.
fn after_last(chars: &Vec<char>, end: usize, c: char) -> (r: usize)
    requires
        end <= chars.len(),
    ensures
        r == last_index_of(chars@.take(end as int), c) + 1,
{
    let mut i: usize = end;
    while i > 0 && chars[i - 1] != c
        invariant
            i <= end <= chars.len(),
            forall|k: int| i <= k < end ==> chars@[k] != c,
        decreases i,
    {
        i = i - 1;
    }
    proof {
        lemma_last_index_is(chars@.take(end as int), c, i - 1);
    }
    i
}

/// The last segment of `s`: what follows its last `/`, or all of `s`.
pub open spec fn last_segment_of(s: Seq<char>) -> Seq<char> {
    s.skip(last_index_of(s, '/') + 1)
}

/// The part of `s` behind its last `/`.
pub fn last_segment(s: &str) -> (r: &str)
    ensures
        r@ == last_segment_of(s@),
{
    let chars = chars_of(s);
    assert(chars@.take(chars.len() as int) =~= s@);
    let start = after_last(&chars, chars.len(), '/');
    proof {
        lemma_last_index_of(s@, '/');
        assert(s@.subrange(start as int, s@.len() as int) =~= s@.skip(start as int));
    }
    s.substring_char(start, chars.len())
}

/// `path` without the `/` characters at its end.
pub open spec fn without_trailing_slashes(path: Seq<char>) -> Seq<char>
    decreases path.len(),
{
    if path.len() > 0 && path.last() == '/' {
        without_trailing_slashes(path.drop_last())
    } else {
        path
    }
}

/// The name of the file that `path` ends in: its last segment, `/`
/// characters at the end of the path set aside.
pub open spec fn file_name_of(path: Seq<char>) -> Seq<char> {
    last_segment_of(without_trailing_slashes(path))
}

/// The extension of the file that `path` names: what follows the last `.`
/// of its file name. There is none where the name has no `.` or only a
/// leading one, and none where the name is `..`, which names no file.
pub open spec fn extension_of(path: Seq<char>) -> Option<Seq<char>> {
    let name = file_name_of(path);
    let dot = last_index_of(name, '.');
    if dot <= 0 || name == seq!['.', '.'] {
        None
    } else {
        Some(name.skip(dot + 1))
    }
}

/// Locates the extension of `chars` as a range of indices.
pub fn extension_range(chars: &Vec<char>) -> (r: Option<(usize, usize)>)
    ensures
        match r {
            Some((from, to)) => from <= to <= chars.len() && extension_of(chars@) == Some(
                chars@.subrange(from as int, to as int),
            ),
            None => extension_of(chars@) is None,
        },
{
    let mut end = chars.len();
    assert(chars@.take(end as int) =~= chars@);
    while end > 0 && chars[end - 1] == '/'
        invariant
            end <= chars.len(),
            without_trailing_slashes(chars@) == without_trailing_slashes(chars@.take(end as int)),
        decreases end,
    {
        assert(chars@.take(end as int).drop_last() =~= chars@.take(end - 1));
        end = end - 1;
    }
    let start = after_last(chars, end, '/');
    let behind_dot = after_last(chars, end, '.');
    let ghost s = chars@.take(end as int);
    let ghost name = file_name_of(chars@);
    proof {
        assert(without_trailing_slashes(chars@) == s);
        lemma_last_index_of(s, '/');
        lemma_last_index_of(s, '.');
        assert(name =~= s.skip(start as int));
        if behind_dot > start {
            // the last dot of the whole path lies in the file name
            assert forall|k: int| behind_dot - 1 - start < k < name.len() implies name[k]
                != '.' by {
                assert(name[k] == s[start + k]);
            }
            assert(name[behind_dot - 1 - start] == s[behind_dot - 1]);
            lemma_last_index_is(name, '.', behind_dot - 1 - start);
            assert(name.skip(behind_dot - start) =~= chars@.subrange(
                behind_dot as int,
                end as int,
            ));
        } else {
            assert forall|k: int| -1 < k < name.len() implies name[k] != '.' by {
                assert(name[k] == s[start + k]);
            }
            lemma_last_index_is(name, '.', -1);
        }
    }
    if behind_dot > start && behind_dot - start > 1 {
        let two_dots = end - start == 2 && chars[start] == '.';
        proof {
            if end - start == 2 {
                assert(name[0] == s[start as int]);
                assert(name[1] == s[start + 1]);
                assert(name[1] == '.');
                if two_dots {
                    assert(name =~= seq!['.', '.']);
                } else {
                    assert(seq!['.', '.'][0] == '.');
                }
            } else {
                assert(seq!['.', '.'].len() == 2);
            }
        }
        if two_dots {
            None
        } else {
            Some((behind_dot, end))
        }
    } else {
        None
    }
}

/// `s` with every occurrence of `find` replaced by `with`, scanning from the
/// left and never re-reading what was replaced. An empty `find` occurs before
/// every character and at the end.
pub open spec fn replaced(s: Seq<char>, find: Seq<char>, with: Seq<char>) -> Seq<char>
    decreases s.len(),
{
    if find.len() == 0 {
        if s.len() == 0 {
            with
        } else {
            with + seq![s[0]] + replaced(s.skip(1), find, with)
        }
    } else if occurs_at(s, find, 0) {
        with + replaced(s.skip(find.len() as int), find, with)
    } else if s.len() == 0 {
        Seq::empty()
    } else {
        seq![s[0]] + replaced(s.skip(1), find, with)
    }
}

/// Replaces every occurrence of `find` in `s` by `with`.
pub fn replace_all(s: &str, find: &str, with: &str) -> (out: String)
    ensures
        out@ == replaced(s@, find@, with@),
{
    let chars = chars_of(s);
    let pattern = chars_of(find);
    let n = chars.len();
    let m = pattern.len();
    let mut out = String::new();
    let mut i: usize = 0;
    let mut copied: usize = 0;
    assert(s@.skip(0) =~= s@);
    assert(s@.subrange(0, 0) =~= Seq::<char>::empty());
    while i < n
        invariant
            copied <= i <= n,
            n == chars.len(),
            m == pattern.len(),
            chars@ == s@,
            pattern@ == find@,
            replaced(s@, find@, with@) == out@ + s@.subrange(copied as int, i as int) + replaced(
                s@.skip(i as int),
                find@,
                with@,
            ),
        decreases n - i,
    {
        let ghost rest = s@.skip(i as int);
        let ghost done = out@;
        let ghost gap = s@.subrange(copied as int, i as int);
        assert(rest[0] == s@[i as int]);
        assert(rest.skip(1) =~= s@.skip(i + 1));
        if m == 0 {
            out.append(s.substring_char(copied, i));
            out.append(with);
            assert(s@.subrange(i as int, i as int) =~= Seq::<char>::empty());
            assert(done + gap + (with@ + seq![rest[0]] + replaced(rest.skip(1), find@, with@))
                =~= (done + gap + with@) + s@.subrange(i as int, i + 1) + replaced(
                rest.skip(1),
                find@,
                with@,
            ));
            copied = i;
            i = i + 1;
        } else {
            let hit = matches_at(&chars, &pattern, i);
            proof {
                if i + m <= n {
                    assert(rest.subrange(0, m as int) =~= s@.subrange(i as int, i + m));
                }
                assert(hit == occurs_at(rest, find@, 0));
            }
            if hit {
                out.append(s.substring_char(copied, i));
                out.append(with);
                assert(rest.skip(m as int) =~= s@.skip(i + m));
                assert(s@.subrange(i + m, i + m) =~= Seq::<char>::empty());
                assert(done + gap + (with@ + replaced(rest.skip(m as int), find@, with@)) =~= (
                done + gap + with@) + s@.subrange(i + m, i + m) + replaced(
                    s@.skip(i + m),
                    find@,
                    with@,
                ));
                i = i + m;
                copied = i;
            } else {
                assert(gap + seq![rest[0]] =~= s@.subrange(copied as int, i + 1));
                assert(done + gap + (seq![rest[0]] + replaced(rest.skip(1), find@, with@)) =~= done
                    + (gap + seq![rest[0]]) + replaced(rest.skip(1), find@, with@));
                i = i + 1;
            }
        }
    }
    out.append(s.substring_char(copied, n));
    proof {
        let tail = s@.skip(n as int);
        assert(tail =~= Seq::<char>::empty());
        if m > 0 {
            assert(!occurs_at(tail, find@, 0));
        }
    }
    if m == 0 {
        out.append(with);
    }
    assert(out@ =~= replaced(s@, find@, with@));
    out
}

/// The character that writes the digit `d`.
pub open spec fn digit_char(d: nat) -> char {
    if d == 0 {
        '0'
    } else if d == 1 {
        '1'
    } else if d == 2 {
        '2'
    } else if d == 3 {
        '3'
    } else if d == 4 {
        '4'
    } else if d == 5 {
        '5'
    } else if d == 6 {
        '6'
    } else if d == 7 {
        '7'
    } else if d == 8 {
        '8'
    } else {
        '9'
    }
}

/// `n` written in decimal, without leading zeros.
pub open spec fn decimal(n: nat) -> Seq<char>
    decreases n,
{
    if n < 10 {
        seq![digit_char(n)]
    } else {
        decimal(n / 10).push(digit_char(n % 10))
    }
}

/// `n` written in decimal and filled with zeros on the left to at least
/// `width` characters.
pub open spec fn padded_decimal(n: nat, width: nat) -> Seq<char>
    decreases width,
{
    if width <= 1 || n >= pow10((width - 1) as nat) {
        decimal(n)
    } else {
        seq!['0'] + padded_decimal(n, (width - 1) as nat)
    }
}

/// Ten to the power `e`.
pub open spec fn pow10(e: nat) -> nat
    decreases e,
{
    if e == 0 {
        1
    } else {
        10 * pow10((e - 1) as nat)
    }
}

/// The text of one digit.
fn digit_text(d: u64) -> (r: &'static str)
    requires
        d < 10,
    ensures
        r@ == seq![digit_char(d as nat)],
{
    proof {
        reveal_strlit("0");
        reveal_strlit("1");
        reveal_strlit("2");
        reveal_strlit("3");
        reveal_strlit("4");
        reveal_strlit("5");
        reveal_strlit("6");
        reveal_strlit("7");
        reveal_strlit("8");
        reveal_strlit("9");
    }
    let r = if d == 0 {
        "0"
    } else if d == 1 {
        "1"
    } else if d == 2 {
        "2"
    } else if d == 3 {
        "3"
    } else if d == 4 {
        "4"
    } else if d == 5 {
        "5"
    } else if d == 6 {
        "6"
    } else if d == 7 {
        "7"
    } else if d == 8 {
        "8"
    } else {
        "9"
    };
    assert(r@ =~= seq![digit_char(d as nat)]);
    r
}

/// Writes `n` in decimal.
pub fn to_decimal(n: u64) -> (out: String)
    ensures
        out@ == decimal(n as nat),
    decreases n,
{
    if n < 10 {
        String::from_str(digit_text(n))
    } else {
        let mut out = to_decimal(n / 10);
        out.append(digit_text(n % 10));
        assert(out@ =~= decimal(n as nat));
        out
    }
}

/// Writes `n` in decimal with at least two digits.
pub fn to_decimal_2(n: u64) -> (out: String)
    ensures
        out@ == padded_decimal(n as nat, 2),
{
    assert(pow10(1) == 10) by {
        assert(pow10(0) == 1);
    }
    assert(padded_decimal(n as nat, 1) == decimal(n as nat));
    if n < 10 {
        let mut out = String::from_str(digit_text(0));
        out.append(to_decimal(n).as_str());
        assert(out@ =~= padded_decimal(n as nat, 2));
        out
    } else {
        to_decimal(n)
    }
}

/// Writes `n` in decimal with at least three digits.
pub fn to_decimal_3(n: u64) -> (out: String)
    ensures
        out@ == padded_decimal(n as nat, 3),
{
    assert(pow10(2) == 100) by {
        assert(pow10(0) == 1);
        assert(pow10(1) == 10);
    }
    if n < 100 {
        let mut out = String::from_str(digit_text(0));
        out.append(to_decimal_2(n).as_str());
        assert(out@ =~= padded_decimal(n as nat, 3));
        out
    } else {
        assert(pow10(1) == 10) by {
            assert(pow10(0) == 1);
        }
        assert(padded_decimal(n as nat, 2) == decimal(n as nat));
        assert(padded_decimal(n as nat, 1) == decimal(n as nat));
        to_decimal(n)
    }
}

/// `n` written in decimal, with a minus sign where it is negative.
pub open spec fn signed_decimal(n: int) -> Seq<char> {
    if n < 0 {
        seq!['-'] + decimal((-n) as nat)
    } else {
        decimal(n as nat)
    }
}

/// Writes `n` in decimal, with a minus sign where it is negative.
pub fn to_signed_decimal(n: i32) -> (out: String)
    ensures
        out@ == signed_decimal(n as int),
{
    if n < 0 {
        let magnitude: u64 = (-(n as i64)) as u64;
        proof {
            reveal_strlit("-");
        }
        let mut out = String::from_str("-");
        out.append(to_decimal(magnitude).as_str());
        assert(out@ =~= signed_decimal(n as int));
        out
    } else {
        to_decimal(n as u64)
    }
}

} // verus!
