//! Plain-text helpers shared by the repository and pull logic: character
//! access, line splitting as `str::lines` does it, and repository entry
//! filtering.
use vstd::prelude::*;

verus! {

/// `String::push`. The contract claims that the string's characters gain
/// `c` at the end and are otherwise unchanged.
#[verifier::external_body]
pub(crate) fn push_char(s: &mut String, c: char)
    ensures
        final(s)@ == old(s)@.push(c),
{
    s.push(c);
}

/// The characters of `s`, in order.
pub fn chars_of(s: &str) -> (r: Vec<char>)
    ensures
        r@ == s@,
{
    let mut r: Vec<char> = Vec::new();
    for c in it: s.chars()
        invariant
            r@ == it.seq().take(it.index() as int),
            it.seq() == s@,
    {
        r.push(c);
    }
    r
}


/// Builds a string from `chars[from..to]`.
pub fn string_from_chars(chars: &Vec<char>, from: usize, to: usize) -> (r: String)
    requires
        from <= to <= chars@.len(),
    ensures
        r@ == chars@.subrange(from as int, to as int),
{
    let mut r = String::new();
    let mut i = from;
    while i < to
        invariant
            from <= i <= to <= chars@.len(),
            r@ == chars@.subrange(from as int, i as int),
        decreases to - i,
    {
        push_char(&mut r, chars[i]);
        i = i + 1;
    }
    r
}

/// Index of the first occurrence of `c` in `s`.
pub open spec fn find_char(s: Seq<char>, c: char) -> Option<int>
    decreases s.len(),
{
    if s.len() == 0 {
        None
    } else if s[0] == c {
        Some(0)
    } else {
        match find_char(s.drop_first(), c) {
            Some(i) => Some(i + 1),
            None => None,
        }
    }
}

/// Index of the last occurrence of `c` in `s`.
pub open spec fn rfind_char(s: Seq<char>, c: char) -> Option<int>
    decreases s.len(),
{
    if s.len() == 0 {
        None
    } else if s.last() == c {
        Some(s.len() - 1)
    } else {
        rfind_char(s.drop_last(), c)
    }
}

pub proof fn lemma_find_char(s: Seq<char>, c: char)
    ensures
        match find_char(s, c) {
            Some(i) => 0 <= i < s.len() && s[i] == c && forall|j: int| 0 <= j < i ==> s[j] != c,
            None => forall|j: int| 0 <= j < s.len() ==> s[j] != c,
        },
    decreases s.len(),
{
    if s.len() > 0 && s[0] != c {
        lemma_find_char(s.drop_first(), c);
        match find_char(s.drop_first(), c) {
            Some(i) => {
                assert forall|j: int| 0 <= j < i + 1 implies s[j] != c by {
                    if j > 0 {
                        assert(s[j] == s.drop_first()[j - 1]);
                    }
                }
            },
            None => {
                assert forall|j: int| 0 <= j < s.len() implies s[j] != c by {
                    if j > 0 {
                        assert(s[j] == s.drop_first()[j - 1]);
                    }
                }
            },
        }
    }
}

pub proof fn lemma_rfind_char(s: Seq<char>, c: char)
    ensures
        match rfind_char(s, c) {
            Some(i) => 0 <= i < s.len() && s[i] == c && forall|j: int| i < j < s.len() ==> s[j] != c,
            None => forall|j: int| 0 <= j < s.len() ==> s[j] != c,
        },
    decreases s.len(),
{
    if s.len() > 0 && s.last() != c {
        lemma_rfind_char(s.drop_last(), c);
        assert forall|j: int| 0 <= j < s.len() - 1 implies s[j] == s.drop_last()[j] by {}
    }
}

/// A line without its `'\r'` when it ends in one.
pub open spec fn strip_cr(l: Seq<char>) -> Seq<char> {
    if l.len() > 0 && l.last() == '\r' {
        l.drop_last()
    } else {
        l
    }
}

/// Splits `s` as `str::lines` reads it: the lines ended by a `'\n'`
/// (without the terminator, and without a `'\r'` just before it), and the
/// characters after the last `'\n'`.
pub open spec fn line_split(s: Seq<char>) -> (Seq<Seq<char>>, Seq<char>)
    decreases s.len(),
{
    if s.len() == 0 {
        (seq![], seq![])
    } else {
        let (done, cur) = line_split(s.drop_last());
        if s.last() == '\n' {
            (done.push(strip_cr(cur)), seq![])
        } else {
            (done, cur.push(s.last()))
        }
    }
}

/// The lines of `s`, as `str::lines` yields them: a final line ending is
/// optional, and an unterminated last line keeps a trailing `'\r'`.
pub open spec fn lines(s: Seq<char>) -> Seq<Seq<char>> {
    let (done, rest) = line_split(s);
    if rest.len() == 0 {
        done
    } else {
        done.push(rest)
    }
}

/// `char::is_whitespace`: the Unicode `White_Space` property.
pub open spec fn is_whitespace(c: char) -> bool {
    ||| '\t' <= c <= '\r'
    ||| c == ' '
    ||| c == '\u{85}'
    ||| c == '\u{a0}'
    ||| c == '\u{1680}'
    ||| '\u{2000}' <= c <= '\u{200a}'
    ||| c == '\u{2028}'
    ||| c == '\u{2029}'
    ||| c == '\u{202f}'
    ||| c == '\u{205f}'
    ||| c == '\u{3000}'
}

/// A line that `trim()` makes empty.
pub open spec fn is_blank(l: Seq<char>) -> bool {
    forall|i: int| 0 <= i < l.len() ==> is_whitespace(#[trigger] l[i])
}

/// A comment line starts with `'#'`.
pub open spec fn is_comment(l: Seq<char>) -> bool {
    l.len() > 0 && l[0] == '#'
}

/// A line of a repository list that names an entry: neither a comment
/// nor blank.
pub open spec fn is_entry(l: Seq<char>) -> bool {
    !is_comment(l) && !is_blank(l)
}

/// The lines among `ls` that are entries, in order.
pub open spec fn entries_of(ls: Seq<Seq<char>>) -> Seq<Seq<char>> {
    ls.filter(|l: Seq<char>| is_entry(l))
}

/// The entries of a repository list's text.
pub open spec fn entries(content: Seq<char>) -> Seq<Seq<char>> {
    entries_of(lines(content))
}

/// The views of a vector of strings.
pub open spec fn string_views(v: Seq<String>) -> Seq<Seq<char>> {
    v.map_values(|x: String| x@)
}

pub fn is_whitespace_char(c: char) -> (r: bool)
    ensures
        r == is_whitespace(c),
{
    ('\t' <= c && c <= '\r') || c == ' ' || c == '\u{85}' || c == '\u{a0}' || c == '\u{1680}'
        || ('\u{2000}' <= c && c <= '\u{200a}') || c == '\u{2028}' || c == '\u{2029}' || c
        == '\u{202f}' || c == '\u{205f}' || c == '\u{3000}'
}

/// Whether `chars[from..to]` is an entry line.
fn is_entry_range(chars: &Vec<char>, from: usize, to: usize) -> (r: bool)
    requires
        from <= to <= chars@.len(),
    ensures
        r == is_entry(chars@.subrange(from as int, to as int)),
{
    let ghost l = chars@.subrange(from as int, to as int);
    if from < to && chars[from] == '#' {
        return false;
    }
    let mut i = from;
    while i < to
        invariant
            from <= i <= to <= chars@.len(),
            l == chars@.subrange(from as int, to as int),
            from < to ==> chars@[from as int] != '#',
            forall|j: int| 0 <= j < i - from ==> is_whitespace(#[trigger] l[j]),
        decreases to - i,
    {
        if !is_whitespace_char(chars[i]) {
            assert(!is_whitespace(l[i - from]));
            assert(l[0] == chars@[from as int]);
            return true;
        }
        i = i + 1;
    }
    false
}

proof fn lemma_entries_push(ls: Seq<Seq<char>>, l: Seq<char>)
    ensures
        entries_of(ls.push(l)) == if is_entry(l) {
            entries_of(ls).push(l)
        } else {
            entries_of(ls)
        },
{
    reveal_with_fuel(Seq::filter, 1);
    assert(ls.push(l).drop_last() == ls);
}

/// The entries of a repository list: its lines, as `str::lines` splits
/// them, without comment lines (starting with `'#'`) and blank lines.
pub fn repository_entries(content: &str) -> (r: Vec<String>)
    ensures
        string_views(r@) == entries(content@),
{
    let chars = chars_of(content);
    let mut out: Vec<String> = Vec::new();
    let mut start: usize = 0;
    let mut i: usize = 0;
    while i < chars.len()
        invariant
            chars@ == content@,
            start <= i <= chars@.len(),
            string_views(out@) == entries_of(line_split(chars@.take(i as int)).0),
            line_split(chars@.take(i as int)).1 == chars@.subrange(start as int, i as int),
        decreases chars@.len() - i,
    {
        let ghost prev = chars@.take(i as int);
        assert(chars@.take(i + 1).drop_last() == prev);
        if chars[i] == '\n' {
            let mut end = i;
            if start < i && chars[i - 1] == '\r' {
                end = i - 1;
            }
            assert(chars@.subrange(start as int, end as int) == strip_cr(
                chars@.subrange(start as int, i as int),
            ));
            proof {
                lemma_entries_push(
                    line_split(prev).0,
                    chars@.subrange(start as int, end as int),
                );
            }
            if is_entry_range(&chars, start, end) {
                let line = string_from_chars(&chars, start, end);
                let ghost before = out@;
                out.push(line);
                assert(string_views(out@) == string_views(before).push(line@));
            }
            start = i + 1;
        } else {
            assert(chars@.subrange(start as int, i + 1) == chars@.subrange(
                start as int,
                i as int,
            ).push(chars@[i as int]));
        }
        i = i + 1;
    }
    assert(chars@.take(i as int) == content@);
    if start < i {
        proof {
            lemma_entries_push(line_split(content@).0, chars@.subrange(start as int, i as int));
        }
        if is_entry_range(&chars, start, i) {
            let line = string_from_chars(&chars, start, i);
            let ghost before = out@;
            out.push(line);
            assert(string_views(out@) == string_views(before).push(line@));
        }
    }
    out
}


/// The view of an optional string.
pub open spec fn opt_view(o: Option<String>) -> Option<Seq<char>> {
    match o {
        Some(s) => Some(s@),
        None => None,
    }
}

/// Position of the first `c` in `chars[..end]`.
pub fn find_first(chars: &Vec<char>, c: char, end: usize) -> (r: Option<usize>)
    requires
        end <= chars@.len(),
    ensures
        match r {
            Some(i) => i < end && find_char(chars@.take(end as int), c) == Some(i as int),
            None => find_char(chars@.take(end as int), c) is None,
        },
{
    let ghost s = chars@.take(end as int);
    proof {
        lemma_find_char(s, c);
    }
    let mut i: usize = 0;
    while i < end
        invariant
            i <= end <= chars@.len(),
            s == chars@.take(end as int),
            forall|j: int| 0 <= j < i ==> s[j] != c,
        decreases end - i,
    {
        if chars[i] == c {
            proof {
                // No `c` comes before `i`, so `i` is the first one.
                lemma_find_char(s, c);
                match find_char(s, c) {
                    Some(k) => {
                        if k < i as int {
                            assert(s[k] != c);
                        }
                        if k > i as int {
                            assert(s[i as int] != c);
                        }
                    },
                    None => assert(s[i as int] != c),
                }
            }
            return Some(i);
        }
        i = i + 1;
    }
    None
}

/// Position of the last `c` in `chars[..end]`.
pub fn find_last(chars: &Vec<char>, c: char, end: usize) -> (r: Option<usize>)
    requires
        end <= chars@.len(),
    ensures
        match r {
            Some(i) => i < end && rfind_char(chars@.take(end as int), c) == Some(i as int),
            None => rfind_char(chars@.take(end as int), c) is None,
        },
{
    let ghost s = chars@.take(end as int);
    proof {
        lemma_rfind_char(s, c);
    }
    let mut i: usize = end;
    while i > 0
        invariant
            i <= end <= chars@.len(),
            s == chars@.take(end as int),
            forall|j: int| i <= j < end ==> s[j] != c,
        decreases i,
    {
        if chars[i - 1] == c {
            proof {
                // No `c` comes after `i - 1`, so it is the last one.
                lemma_rfind_char(s, c);
                match rfind_char(s, c) {
                    Some(k) => {
                        if k < i - 1 {
                            assert(s[i - 1] != c);
                        }
                        if k > i - 1 {
                            assert(s[k] != c);
                        }
                    },
                    None => assert(s[i - 1] != c),
                }
            }
            return Some(i - 1);
        }
        i = i - 1;
    }
    None
}

/// Whether `chars[from..to]` spells `word`.
pub fn range_is(chars: &Vec<char>, from: usize, to: usize, word: &str) -> (r: bool)
    requires
        from <= to <= chars@.len(),
    ensures
        r == (chars@.subrange(from as int, to as int) == word@),
{
    let w = chars_of(word);
    if to - from != w.len() {
        return false;
    }
    let mut i: usize = 0;
    while i < w.len()
        invariant
            from <= to <= chars@.len(),
            to - from == w@.len(),
            w@ == word@,
            forall|j: int| 0 <= j < i ==> chars@[from + j] == w@[j],
        decreases w@.len() - i,
    {
        if chars[from + i] != w[i] {
            assert(chars@.subrange(from as int, to as int)[i as int] != word@[i as int]);
            return false;
        }
        i = i + 1;
    }
    assert(chars@.subrange(from as int, to as int) =~= word@);
    true
}


proof fn lemma_line_split_no_newline(s: Seq<char>)
    ensures
        forall|i: int, j: int|
            0 <= i < line_split(s).0.len() && 0 <= j < line_split(s).0[i].len() ==> line_split(s).0[i][j]
                != '\n',
        forall|j: int| 0 <= j < line_split(s).1.len() ==> line_split(s).1[j] != '\n',
    decreases s.len(),
{
    if s.len() > 0 {
        lemma_line_split_no_newline(s.drop_last());
        let (done, cur) = line_split(s.drop_last());
        let (d2, c2) = line_split(s);
        if s.last() == '\n' {
            let l = strip_cr(cur);
            assert forall|j: int| 0 <= j < l.len() implies l[j] != '\n' by {
                assert(l[j] == cur[j]);
            }
            assert forall|i: int, j: int| 0 <= i < d2.len() && 0 <= j < d2[i].len() implies d2[i][j]
                != '\n' by {
                if i < done.len() {
                    assert(d2[i] == done[i]);
                } else {
                    assert(d2[i] == l);
                }
            }
        } else {
            assert forall|j: int| 0 <= j < c2.len() implies c2[j] != '\n' by {
                if j < cur.len() {
                    assert(c2[j] == cur[j]);
                }
            }
        }
    }
}

/// No line holds a line break, and the entries of a repository list are
/// lines of it that are neither comments nor blank.
pub proof fn law_entries_are_clean_lines(content: Seq<char>)
    ensures
        forall|i: int, j: int|
            0 <= i < lines(content).len() && 0 <= j < lines(content)[i].len() ==> lines(content)[i][j]
                != '\n',
        forall|i: int| 0 <= i < entries(content).len() ==> is_entry(#[trigger] entries(content)[i]),
        forall|i: int|
            0 <= i < entries(content).len() ==> lines(content).contains(#[trigger] entries(content)[i]),
{
    lemma_line_split_no_newline(content);
    let ls = lines(content);
    let pred = |l: Seq<char>| is_entry(l);
    assert forall|i: int| 0 <= i < entries(content).len() implies is_entry(
        #[trigger] entries(content)[i],
    ) by {
        ls.lemma_filter_pred(pred, i);
    }
    assert forall|i: int| 0 <= i < entries(content).len() implies ls.contains(
        #[trigger] entries(content)[i],
    ) by {
        ls.lemma_filter_contains_rev(pred, entries(content)[i]);
        assert(ls.filter(pred).contains(entries(content)[i])) by {
            assert(ls.filter(pred)[i] == entries(content)[i]);
        }
    }
}

} // verus!
