//! Download bookkeeping: the size a server announces, progress reports
//! while a reward is written, and how sizes are shown.
use vstd::prelude::*;
use crate::text::chars_of;

verus! {

pub open spec fn is_digit(c: char) -> bool {
    '0' <= c <= '9'
}

pub open spec fn digit_value(c: char) -> int {
    c as int - '0' as int
}

pub open spec fn all_digits(d: Seq<char>) -> bool {
    forall|i: int| 0 <= i < d.len() ==> is_digit(#[trigger] d[i])
}

/// The number that a string of decimal digits denotes.
pub open spec fn decimal_value(d: Seq<char>) -> int
    decreases d.len(),
{
    if d.len() == 0 {
        0
    } else {
        decimal_value(d.drop_last()) * 10 + digit_value(d.last())
    }
}

/// The digits of an unsigned number: the text without one leading `'+'`.
pub open spec fn unsigned_digits(s: Seq<char>) -> Seq<char> {
    if s.len() > 0 && s[0] == '+' {
        s.drop_first()
    } else {
        s
    }
}

/// `u64::from_str`: an optional `'+'` and at least one ASCII digit,
/// denoting a number that fits in 64 bits.
pub open spec fn spec_parse_u64(s: Seq<char>) -> Option<u64> {
    let d = unsigned_digits(s);
    if d.len() > 0 && all_digits(d) && decimal_value(d) <= u64::MAX {
        Some(decimal_value(d) as u64)
    } else {
        None
    }
}

proof fn lemma_decimal_prefix(d: Seq<char>, j: int, k: int)
    requires
        all_digits(d),
        0 <= j <= k <= d.len(),
    ensures
        0 <= decimal_value(d.take(j)) <= decimal_value(d.take(k)),
    decreases k - j,
{
    if j < k {
        lemma_decimal_prefix(d, j, k - 1);
        assert(d.take(k).drop_last() == d.take(k - 1));
        assert(is_digit(d[k - 1]));
    } else {
        lemma_decimal_nonneg(d.take(j));
    }
}

proof fn lemma_decimal_nonneg(d: Seq<char>)
    requires
        all_digits(d),
    ensures
        decimal_value(d) >= 0,
    decreases d.len(),
{
    if d.len() > 0 {
        assert(all_digits(d.drop_last())) by {
            assert forall|i: int| 0 <= i < d.len() - 1 implies is_digit(#[trigger] d.drop_last()[i]) by {
                assert(d.drop_last()[i] == d[i]);
            }
        }
        lemma_decimal_nonneg(d.drop_last());
        assert(is_digit(d[d.len() - 1]));
    }
}

/// Reads a decimal unsigned 64-bit number as `u64::from_str` does.
pub fn parse_u64(s: &str) -> (r: Option<u64>)
    ensures
        r == spec_parse_u64(s@),
{
    let chars = chars_of(s);
    let start: usize = if chars.len() > 0 && chars[0] == '+' { 1 } else { 0 };
    let ghost d = unsigned_digits(s@);
    assert(d == chars@.skip(start as int));
    if start == chars.len() {
        return None;
    }
    let mut v: u64 = 0;
    let mut i: usize = start;
    while i < chars.len()
        invariant
            chars@ == s@,
            start <= i <= chars@.len(),
            d == chars@.skip(start as int),
            d == unsigned_digits(s@),
            all_digits(d.take(i - start)),
            v == decimal_value(d.take(i - start)),
        decreases chars@.len() - i,
    {
        let c = chars[i];
        let ghost k = i - start;
        assert(d[k] == c);
        if !('0' <= c && c <= '9') {
            assert(!all_digits(d));
            return None;
        }
        assert(d.take(k + 1).drop_last() == d.take(k));
        assert(all_digits(d.take(k + 1))) by {
            assert forall|j: int| 0 <= j < k + 1 implies is_digit(#[trigger] d.take(k + 1)[j]) by {
                if j < k {
                    assert(d.take(k + 1)[j] == d.take(k)[j]);
                }
            }
        }
        let digit = (c as u32 - '0' as u32) as u64;
        assert(digit == digit_value(c));
        assert(decimal_value(d.take(k + 1)) == v * 10 + digit);
        match v.checked_mul(10) {
            Some(m) => match m.checked_add(digit) {
                Some(n) => {
                    v = n;
                },
                None => {
                    proof {
                        if all_digits(d) {
                            lemma_decimal_prefix(d, k + 1, d.len() as int);
                            assert(d.take(d.len() as int) == d);
                        }
                    }
                    return None;
                },
            },
            None => {
                proof {
                    lemma_decimal_nonneg(d.take(k + 1));
                    if all_digits(d) {
                        lemma_decimal_prefix(d, k + 1, d.len() as int);
                        assert(d.take(d.len() as int) == d);
                    }
                }
                return None;
            },
        }
        i = i + 1;
    }
    assert(d.take(i - start) == d);
    Some(v)
}

/// The size a server announces in its `content-length` header (the
/// header's text, when it has one that is visible ASCII): known only when
/// the text is a decimal number.
pub fn content_length(header: Option<&str>) -> (r: Option<u64>)
    ensures
        r == match header {
            Some(h) => spec_parse_u64(h@),
            None => None,
        },
{
    match header {
        Some(h) => parse_u64(h),
        None => None,
    }
}

/// How often a running download reports progress: every 512 KiB.
pub const REPORT_INTERVAL: u64 = 524288;

/// Bytes written so far, and the count at the last progress report.
pub struct Progress {
    pub written: u64,
    pub last_reported: u64,
}

impl Progress {
    /// Nothing written yet.
    pub fn new() -> (r: Progress)
        ensures
            r.written == 0 && r.last_reported == 0,
    {
        Progress { written: 0, last_reported: 0 }
    }

    /// Counts `n` more bytes written; tells whether progress is to be
    /// reported now, which is when at least [`REPORT_INTERVAL`] bytes were
    /// written since the last report.
    pub fn record(&mut self, n: u64) -> (report: bool)
        requires
            old(self).last_reported <= old(self).written,
            old(self).written + n <= u64::MAX,
        ensures
            final(self).written == old(self).written + n,
            report == (final(self).written - old(self).last_reported >= REPORT_INTERVAL),
            final(self).last_reported == if report {
                final(self).written
            } else {
                old(self).last_reported
            },
            final(self).last_reported <= final(self).written,
            final(self).written - final(self).last_reported < REPORT_INTERVAL,
    {
        self.written = self.written + n;
        if self.written - self.last_reported >= REPORT_INTERVAL {
            self.last_reported = self.written;
            true
        } else {
            false
        }
    }
}

/// What `size::Size::from_bytes(bytes)` displays (such as "1.50 MiB").
pub uninterp spec fn size_text(bytes: u64) -> Seq<char>;

/// `size::Size::from_bytes(bytes)`, displayed. The contract claims only
/// that the text is a function of `bytes`; its form is not stated.
#[verifier::external_body]
fn format_size(bytes: u64) -> (r: String)
    ensures
        r@ == size_text(bytes),
{
    size::Size::from_bytes(bytes).to_string()
}

/// How a progress report shows the bytes written.
pub enum ProgressDisplay {
    /// As a percentage of the announced size.
    Percent { written: u64, total: u64 },
    /// As a size, when no size was announced.
    Bytes(String),
}

/// The progress report for `written` bytes of a download whose announced
/// size is `total`.
pub fn progress_display(written: u64, total: Option<u64>) -> (r: ProgressDisplay)
    ensures
        match total {
            Some(t) => r == (ProgressDisplay::Percent { written, total: t }),
            None => r matches ProgressDisplay::Bytes(s) && s@ == size_text(written),
        },
{
    match total {
        Some(t) => ProgressDisplay::Percent { written, total: t },
        None => ProgressDisplay::Bytes(format_size(written)),
    }
}

/// A size as shown before a download: the announced size, or "unknown".
pub fn size_label(size: Option<u64>) -> (r: String)
    ensures
        r@ == match size {
            Some(s) => size_text(s),
            None => "unknown"@,
        },
{
    match size {
        Some(s) => format_size(s),
        None => String::from_str("unknown"),
    }
}

} // verus!
