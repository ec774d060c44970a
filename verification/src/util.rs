//! Helpers for turning reward URLs into file names and for choosing the
//! HTTP timeout.
use vstd::prelude::*;
use crate::text::{
    chars_of, find_char, find_first, find_last, lemma_find_char, lemma_rfind_char, rfind_char,
    string_from_chars,
};

verus! {

/// The part of a URL before its query string (before the first `'?'`).
pub open spec fn before_query(url: Seq<char>) -> Seq<char> {
    match find_char(url, '?') {
        Some(i) => url.take(i),
        None => url,
    }
}

/// The part of a path after its last `'/'` (the whole path when it has none).
pub open spec fn last_segment(path: Seq<char>) -> Seq<char> {
    match rfind_char(path, '/') {
        Some(i) => path.skip(i + 1),
        None => path,
    }
}

/// The name given to a reward whose URL has no usable last segment.
pub open spec fn default_reward_name() -> Seq<char> {
    "randl-reward"@
}

/// The file name under which the reward at `url` is saved: the last path
/// segment of the URL without its query string, or `randl-reward` when
/// that segment is empty.
pub open spec fn reward_file_name(url: Seq<char>) -> Seq<char> {
    let seg = last_segment(before_query(url));
    if seg.len() == 0 {
        default_reward_name()
    } else {
        seg
    }
}

/// The file name for the reward at `url` (see [`reward_file_name`]).
pub fn filename_from_url(url: &str) -> (r: String)
    ensures
        r@ == reward_file_name(url@),
{
    let chars = chars_of(url);
    let end = match find_first(&chars, '?', chars.len()) {
        Some(q) => q,
        None => chars.len(),
    };
    assert(chars@.take(chars@.len() as int) == chars@);
    let ghost path = before_query(url@);
    assert(path == chars@.take(end as int));
    let start = match find_last(&chars, '/', end) {
        Some(k) => k + 1,
        None => 0,
    };
    assert(last_segment(path) == chars@.subrange(start as int, end as int));
    if start == end {
        String::from_str("randl-reward")
    } else {
        string_from_chars(&chars, start, end)
    }
}

/// The HTTP timeout in seconds: the one given, else the configured one
/// when it is a non-negative integer, else 30.
pub open spec fn spec_agent_timeout(given: Option<u64>, configured: Option<i64>) -> u64 {
    match given {
        Some(t) => t,
        None => match configured {
            Some(c) => if c >= 0 {
                c as u64
            } else {
                30
            },
            None => 30,
        },
    }
}

/// Chooses the timeout that the HTTP agent is built with.
pub fn agent_timeout(given: Option<u64>, configured: Option<i64>) -> (r: u64)
    ensures
        r == spec_agent_timeout(given, configured),
{
    match given {
        Some(t) => t,
        None => match configured {
            Some(c) => if c >= 0 {
                c as u64
            } else {
                30
            },
            None => 30,
        },
    }
}


/// The name a reward is saved under is never empty and holds neither a
/// `'/'` nor a `'?'`.
pub proof fn law_reward_name_is_plain(url: Seq<char>)
    ensures
        reward_file_name(url).len() > 0,
        forall|i: int| 0 <= i < reward_file_name(url).len() ==> reward_file_name(url)[i] != '/' && reward_file_name(url)[i] != '?',
{
    let p = before_query(url);
    lemma_find_char(url, '?');
    lemma_rfind_char(p, '/');
    assert(forall|i: int| 0 <= i < p.len() ==> p[i] != '?');
    let seg = last_segment(p);
    match rfind_char(p, '/') {
        Some(k) => {
            assert forall|i: int| 0 <= i < seg.len() implies seg[i] != '/' && seg[i] != '?' by {
                assert(seg[i] == p[k + 1 + i]);
            }
        },
        None => {},
    }
    if seg.len() == 0 {
        reveal_strlit("randl-reward");
    }
}

} // verus!
