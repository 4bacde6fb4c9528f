//! The decisions of the download backend: how often and how long to retry
//! the metadata request, what the response headers say about a file, and how
//! a file is split into ranges fetched at once.

use vstd::prelude::*;
use vstd::string::*;
use vstd::arithmetic::power2::pow2;
use crate::app_event::AppEvent;
use crate::job::{DownloadJob, DownloadStrategy};
use crate::text::{chars_of, decimal, digit_char, format_decimal};

verus! {

/// How many times the metadata request is tried.
pub const MAX_ATTEMPTS: u8 = 5;

/// Into how many ranges a parallel download is split.
pub const NUM_PARTS: u64 = 4;

/// The pause, in seconds, after the first failed metadata request; each
/// further failure doubles it.
pub const FIRST_RETRY_DELAY_SECS: u64 = 5;

/// The retry state of the metadata request: failed attempts so far and the
/// pause to take after the next failure.
#[derive(Clone, Copy, Debug, PartialEq, Eq, Structural)]
pub struct MetadataProbe {
    pub attempts: u8,
    pub delay_secs: u64,
}

/// What to do after a metadata request.
#[derive(Clone, Copy, Debug, PartialEq, Eq, Structural)]
pub enum ProbeStep {
    /// The request succeeded: read its headers.
    ReadHeaders,
    /// The request failed: pause this many seconds before the next try.
    RetryAfter(u64),
}

/// The pause before retrying after `k` failures.
pub open spec fn retry_delay(k: nat) -> int {
    FIRST_RETRY_DELAY_SECS * pow2(k)
}

impl MetadataProbe {
    /// The state is one reached from the start: the pause doubles with each
    /// failure.
    pub open spec fn wf(&self) -> bool {
        &&& self.attempts <= MAX_ATTEMPTS
        &&& self.delay_secs == retry_delay(self.attempts as nat)
    }

    /// No attempt made yet.
    pub fn new() -> (p: Self)
        ensures
            p.wf(),
            p.attempts == 0,
            p.delay_secs == FIRST_RETRY_DELAY_SECS,
    {
        proof {
            vstd::arithmetic::power2::lemma2_to64();
        }
        MetadataProbe { attempts: 0, delay_secs: FIRST_RETRY_DELAY_SECS }
    }

    /// Whether another request is to be made.
    pub fn should_request(&self) -> (r: bool)
        ensures
            r == (self.attempts < MAX_ATTEMPTS),
    {
        self.attempts < MAX_ATTEMPTS
    }

    /// Records the outcome of a request and says what to do next. A failure
    /// counts as an attempt and doubles the pause.
    pub fn after_request(&mut self, succeeded: bool) -> (step: ProbeStep)
        requires
            old(self).wf(),
            old(self).attempts < MAX_ATTEMPTS,
        ensures
            final(self).wf(),
            succeeded ==> step == ProbeStep::ReadHeaders && *final(self) == *old(self),
            !succeeded ==> step == ProbeStep::RetryAfter(old(self).delay_secs)
                && final(self).attempts == old(self).attempts + 1
                && final(self).delay_secs == 2 * old(self).delay_secs,
    {
        if succeeded {
            return ProbeStep::ReadHeaders;
        }
        let pause = self.delay_secs;
        proof {
            vstd::arithmetic::power2::lemma2_to64();
            assert(pow2((self.attempts + 1) as nat) == 2 * pow2(self.attempts as nat)) by {
                vstd::arithmetic::power2::lemma_pow2_unfold((self.attempts + 1) as nat);
            }
            assert(pow2(self.attempts as nat) <= 16) by {
                if self.attempts < 4 {
                    vstd::arithmetic::power2::lemma_pow2_strictly_increases(self.attempts as nat, 4);
                }
            }
        }
        self.attempts = self.attempts + 1;
        self.delay_secs = pause * 2;
        ProbeStep::RetryAfter(pause)
    }
}

/// The metadata request is made at most `MAX_ATTEMPTS` times, with pauses of
/// 5, 10, 20, 40 and 80 seconds after the failures.
pub proof fn retry_schedule()
    ensures
        retry_delay(0) == 5,
        retry_delay(1) == 10,
        retry_delay(2) == 20,
        retry_delay(3) == 40,
        retry_delay(4) == 80,
        MAX_ATTEMPTS == 5,
{
    vstd::arithmetic::power2::lemma2_to64();
}

/// Whether a character is an ASCII digit.
pub open spec fn is_digit_char(c: char) -> bool {
    48 <= (c as u32) <= 57
}

/// The value of a string of decimal digits.
pub open spec fn digits_value(s: Seq<char>) -> nat
    decreases s.len(),
{
    if s.len() == 0 {
        0
    } else {
        digits_value(s.drop_last()) * 10 + ((s.last() as u32) - 48) as nat
    }
}

/// The digits of an unsigned number: the text without one leading `+`.
pub open spec fn unsigned_digits(s: Seq<char>) -> Seq<char> {
    if s.len() > 0 && s[0] == '+' {
        s.drop_first()
    } else {
        s
    }
}

/// What parsing `s` as a `u64` gives, as `str::parse::<u64>` documents it:
/// an optional `+` followed by at least one digit and only digits, whose
/// value fits in 64 bits.
pub open spec fn parsed_u64(s: Seq<char>) -> Option<u64> {
    let d = unsigned_digits(s);
    if d.len() > 0 && (forall|i: int| 0 <= i < d.len() ==> is_digit_char(#[trigger] d[i]))
        && digits_value(d) <= u64::MAX {
        Some(digits_value(d) as u64)
    } else {
        None
    }
}

proof fn digits_value_grows(d: Seq<char>, i: int, j: int)
    requires
        0 <= i <= j <= d.len(),
        forall|k: int| 0 <= k < d.len() ==> is_digit_char(#[trigger] d[k]),
    ensures
        digits_value(d.take(i)) <= digits_value(d.take(j)),
    decreases j - i,
{
    if i < j {
        digits_value_grows(d, i, j - 1);
        assert(d.take(j).drop_last() =~= d.take(j - 1));
        assert(d.take(j).last() == d[j - 1]);
    }
}

/// Parses a decimal `u64`.
pub fn parse_u64(s: &str) -> (r: Option<u64>)
    ensures
        r == parsed_u64(s@),
{
    let chars = chars_of(s);
    let n = chars.len();
    let start: usize = if n > 0 && chars[0] == '+' {
        1
    } else {
        0
    };
    let ghost d = unsigned_digits(s@);
    assert(d =~= chars@.subrange(start as int, n as int));
    if start == n {
        return None;
    }
    let mut acc: u64 = 0;
    let mut i: usize = start;
    assert(d.take(0) =~= Seq::<char>::empty());
    while i < n
        invariant
            start <= i <= n == chars@.len(),
            chars@ == s@,
            d == unsigned_digits(s@),
            d =~= chars@.subrange(start as int, n as int),
            acc == digits_value(d.take(i - start)),
            forall|k: int| 0 <= k < i - start ==> is_digit_char(#[trigger] d[k]),
        decreases n - i,
    {
        let c = chars[i];
        assert(d[i - start] == c);
        let code = c as u32;
        if code < 48 || code > 57 {
            assert(!is_digit_char(d[i - start]));
            return None;
        }
        let digit: u64 = (code - 48) as u64;
        proof {
            let t = d.take(i - start + 1);
            assert(t.drop_last() =~= d.take(i - start));
            assert(t.last() == c);
            assert(digits_value(t) == acc * 10 + digit);
        }
        let times_ten = acc.checked_mul(10);
        match times_ten {
            None => {
                proof {
                    if forall|k: int| 0 <= k < d.len() ==> is_digit_char(#[trigger] d[k]) {
                        digits_value_grows(d, i - start + 1, d.len() as int);
                        assert(d.take(d.len() as int) =~= d);
                    }
                }
                return None;
            },
            Some(t) => match t.checked_add(digit) {
                None => {
                    proof {
                        if forall|k: int| 0 <= k < d.len() ==> is_digit_char(#[trigger] d[k]) {
                            digits_value_grows(d, i - start + 1, d.len() as int);
                            assert(d.take(d.len() as int) =~= d);
                        }
                    }
                    return None;
                },
                Some(v) => {
                    acc = v;
                },
            },
        }
        i = i + 1;
    }
    assert(d.take(d.len() as int) =~= d);
    Some(acc)
}

/// The value of an `Accept-Ranges` header that allows ranged requests.
pub open spec fn bytes_token() -> Seq<u8> {
    seq![98u8, 121u8, 116u8, 101u8, 115u8]
}

/// The strategy a response allows: ranges are fetched at once only when the
/// server accepts byte ranges.
pub open spec fn strategy_for(accept_ranges: Option<Seq<u8>>) -> DownloadStrategy {
    match accept_ranges {
        Some(v) => if v == bytes_token() {
            DownloadStrategy::Parallel
        } else {
            DownloadStrategy::Sequential
        },
        None => DownloadStrategy::Sequential,
    }
}

/// Chooses the strategy from the raw value of the `Accept-Ranges` header.
pub fn choose_strategy(accept_ranges: Option<&[u8]>) -> (s: DownloadStrategy)
    ensures
        s == strategy_for(
            match accept_ranges {
                Some(v) => Some(v@),
                None => None,
            },
        ),
{
    match accept_ranges {
        None => DownloadStrategy::Sequential,
        Some(v) => {
            if v.len() == 5 && v[0] == 98 && v[1] == 121 && v[2] == 116 && v[3] == 101 && v[4] == 115 {
                assert(v@ =~= bytes_token());
                DownloadStrategy::Parallel
            } else {
                assert(v@ != bytes_token()) by {
                    if v@ == bytes_token() {
                        assert(v@[0] == 98u8);
                    }
                }
                DownloadStrategy::Sequential
            }
        },
    }
}

/// Reads what a successful metadata response says of the job's file: its
/// size, from `Content-Length` (given when present and readable as text),
/// and its strategy, from `Accept-Ranges` (raw bytes). Updates the job and
/// returns the events that tell the table.
pub fn parse_header(
    job: &mut DownloadJob,
    content_length: Option<&str>,
    accept_ranges: Option<&[u8]>,
) -> (events: Vec<AppEvent>)
    ensures
        ({
            let size = match content_length {
                Some(t) => parsed_u64(t@),
                None => None,
            };
            let strategy = strategy_for(
                match accept_ranges {
                    Some(v) => Some(v@),
                    None => None,
                },
            );
            &&& *final(job) == DownloadJob {
                size: match size {
                    Some(n) => n,
                    None => old(job).size,
                },
                strategy,
                ..*old(job)
            }
            &&& events@ == match size {
                Some(n) => seq![
                    AppEvent::JobSize(old(job).id, n),
                    AppEvent::JobStrategy(old(job).id, strategy),
                ],
                None => seq![AppEvent::JobStrategy(old(job).id, strategy)],
            }
        }),
{
    let mut events: Vec<AppEvent> = Vec::new();
    if let Some(text) = content_length {
        if let Some(length) = parse_u64(text) {
            job.size = length;
            events.push(AppEvent::JobSize(job.id, length));
        }
    }
    let strategy = choose_strategy(accept_ranges);
    events.push(AppEvent::JobStrategy(job.id, strategy));
    job.strategy = strategy;
    events
}

/// The byte range `(first, last)` of part `i` of a file of `size` bytes: equal
/// parts of `size / NUM_PARTS` bytes, the last one taking the remainder.
pub open spec fn part_range(size: u64, i: int) -> (int, int) {
    let part = size / NUM_PARTS;
    let first = i * part;
    let last = if i == NUM_PARTS - 1 {
        size - 1
    } else {
        (i + 1) * part - 1
    };
    (first, last)
}

/// Splits a file of `size` bytes into the ranges fetched at once.
pub fn part_ranges(size: u64) -> (ranges: Vec<(u64, u64)>)
    requires
        size >= NUM_PARTS,
    ensures
        ranges@.len() == NUM_PARTS,
        forall|i: int|
            0 <= i < NUM_PARTS ==> (#[trigger] ranges@[i]).0 == part_range(size, i).0
                && ranges@[i].1 == part_range(size, i).1,
{
    let part_size = size / NUM_PARTS;
    let mut ranges: Vec<(u64, u64)> = Vec::new();
    let mut i: u64 = 0;
    while i < NUM_PARTS
        invariant
            i <= NUM_PARTS,
            size >= NUM_PARTS,
            part_size == size / NUM_PARTS,
            ranges@.len() == i,
            forall|j: int|
                0 <= j < i ==> (#[trigger] ranges@[j]).0 == part_range(size, j).0
                    && ranges@[j].1 == part_range(size, j).1,
        decreases NUM_PARTS - i,
    {
        assert((i + 1) * part_size <= size && part_size >= 1 && (i + 1) * part_size >= 1) by (nonlinear_arith)
            requires
                i < 4,
                part_size == size / 4,
                size >= 4,
        ;
        assert(i * part_size <= (i + 1) * part_size) by (nonlinear_arith)
            requires
                part_size >= 1,
        ;
        let start = i * part_size;
        let end = if i == NUM_PARTS - 1 {
            size - 1
        } else {
            (i + 1) * part_size - 1
        };
        ranges.push((start, end));
        i = i + 1;
    }
    ranges
}

/// The ranges of a file partition its bytes: the first starts at byte 0, each
/// next one starts right after the previous one ends, none is empty, and the
/// last ends at the last byte.
pub proof fn parts_partition_file(size: u64)
    requires
        size >= NUM_PARTS,
    ensures
        part_range(size, 0).0 == 0,
        part_range(size, NUM_PARTS - 1).1 == size - 1,
        forall|i: int|
            0 <= i < NUM_PARTS - 1 ==> #[trigger] part_range(size, i + 1).0 == part_range(size, i).1 + 1,
        forall|i: int|
            0 <= i < NUM_PARTS ==> #[trigger] part_range(size, i).0 <= part_range(size, i).1,
{
    let part = size / 4;
    assert(part >= 1 && 3 * part <= size - 1) by (nonlinear_arith)
        requires
            part == size / 4,
            size >= 4,
    ;
    assert forall|i: int| 0 <= i < NUM_PARTS - 1 implies #[trigger] part_range(size, i + 1).0
        == part_range(size, i).1 + 1 by {
        assert((i + 1) * part == i * part + part) by (nonlinear_arith);
    }
    assert forall|i: int| 0 <= i < NUM_PARTS implies #[trigger] part_range(size, i).0 <= part_range(size, i).1 by {
        assert(i * part + part == (i + 1) * part) by (nonlinear_arith);
        if i == 3 {
            assert(3 * part <= size - 1);
        } else {
            assert(i * part <= (i + 1) * part - 1) by (nonlinear_arith)
                requires
                    part >= 1,
            ;
        }
    }
}

/// The value of the `Range` header that asks for bytes `start` to `end`.
pub open spec fn range_header_text(start: u64, end: u64) -> Seq<char> {
    "bytes="@ + decimal(start as nat) + "-"@ + decimal(end as nat)
}

/// Renders the `Range` header for bytes `start` to `end`, both included.
pub fn range_header(start: u64, end: u64) -> (s: String)
    ensures
        s@ == range_header_text(start, end),
{
    let mut s = String::from_str("bytes=");
    s.append(format_decimal(start).as_str());
    s.append("-");
    s.append(format_decimal(end).as_str());
    s
}

/// Whether the progress monitor of a parallel download stops: everything has
/// been downloaded.
pub fn transfer_finished(downloaded: u64, total: u64) -> (r: bool)
    ensures
        r == (downloaded >= total),
{
    downloaded >= total
}

/// The bytes still to download.
pub fn remaining_bytes(total: u64, downloaded: u64) -> (r: u64)
    requires
        downloaded <= total,
    ensures
        r == total - downloaded,
{
    total - downloaded
}

} // verus!

verus! {

proof fn decimal_digits(n: nat)
    ensures
        decimal(n).len() > 0,
        forall|i: int| 0 <= i < decimal(n).len() ==> is_digit_char(#[trigger] decimal(n)[i]),
        digits_value(decimal(n)) == n,
    decreases n,
{
    assert(digit_char(n % 10) as u32 == 48 + n % 10);
    if n < 10 {
        let d = decimal(n);
        assert(d.drop_last() =~= Seq::<char>::empty());
        assert(n % 10 == n);
        assert(d.last() == digit_char(n));
        assert(digits_value(d) == digits_value(d.drop_last()) * 10 + ((d.last() as u32) - 48) as nat);
        assert(digits_value(d.drop_last()) == 0);
    } else {
        decimal_digits(n / 10);
        let d = decimal(n);
        assert(d.drop_last() =~= decimal(n / 10));
        assert(d.last() == digit_char(n % 10));
        assert(digits_value(d) == (n / 10) * 10 + n % 10);
        assert forall|i: int| 0 <= i < d.len() implies is_digit_char(#[trigger] d[i]) by {
            if i < d.len() - 1 {
                assert(d[i] == decimal(n / 10)[i]);
            }
        }
    }
}

/// Parsing the decimal rendering of a number gives the number back.
pub proof fn parse_reads_back_decimal(n: u64)
    ensures
        parsed_u64(decimal(n as nat)) == Some(n),
{
    decimal_digits(n as nat);
    let d = decimal(n as nat);
    assert(d[0] != '+') by {
        assert(is_digit_char(d[0]));
    }
    assert(unsigned_digits(d) == d);
}

} // verus!

verus! {

/// Ranges are fetched at once exactly when the server answers
/// `Accept-Ranges: bytes`; any other value, or none, means one stream.
pub proof fn parallel_only_for_byte_ranges(accept_ranges: Option<Seq<u8>>)
    ensures
        (strategy_for(accept_ranges) == DownloadStrategy::Parallel) <==> (accept_ranges == Some(
            seq![98u8, 121u8, 116u8, 101u8, 115u8],
        )),
        strategy_for(accept_ranges) != DownloadStrategy::Unknown,
{
}

/// A length is read with an optional leading `+` and leading zeros; an empty
/// text, a lone `+`, or a text with any other character is not a length.
pub proof fn content_length_forms(n: u64, s: Seq<char>, i: int)
    ensures
        parsed_u64(seq!['+'] + decimal(n as nat)) == Some(n),
        parsed_u64(seq!['0'] + decimal(n as nat)) == Some(n),
        parsed_u64(Seq::<char>::empty()) is None,
        parsed_u64(seq!['+']) is None,
        0 <= i < s.len() && !is_digit_char(s[i]) && !(i == 0 && s[0] == '+') ==> parsed_u64(s) is None,
{
    parse_reads_back_decimal(n);
    decimal_digits(n as nat);
    let d = decimal(n as nat);
    let p = seq!['+'] + d;
    assert(unsigned_digits(p) =~= d);
    let z = seq!['0'] + d;
    assert(z[0] != '+');
    assert(unsigned_digits(z) == z);
    assert forall|k: int| 0 <= k < z.len() implies is_digit_char(#[trigger] z[k]) by {
        if k > 0 {
            assert(z[k] == d[k - 1]);
        }
    }
    lemma_leading_zero(d);
    if 0 <= i < s.len() && !is_digit_char(s[i]) && !(i == 0 && s[0] == '+') {
        let u = unsigned_digits(s);
        if s.len() > 0 && s[0] == '+' {
            assert(u[i - 1] == s[i]);
        } else {
            assert(u[i] == s[i]);
        }
    }
}

proof fn lemma_leading_zero(d: Seq<char>)
    ensures
        digits_value(seq!['0'] + d) == digits_value(d),
    decreases d.len(),
{
    let z = seq!['0'] + d;
    if d.len() == 0 {
        assert(z =~= seq!['0']);
        assert(z.drop_last() =~= Seq::<char>::empty());
        assert(('0' as u32) == 48);
        assert(digits_value(z) == digits_value(z.drop_last()) * 10 + ((z.last() as u32) - 48) as nat);
        assert(digits_value(z.drop_last()) == 0);
        assert(z.last() == '0');
        assert(digits_value(d) == 0);
    } else {
        lemma_leading_zero(d.drop_last());
        assert(z.drop_last() =~= seq!['0'] + d.drop_last());
        assert(z.last() == d.last());
        assert(digits_value(z) == digits_value(z.drop_last()) * 10 + ((z.last() as u32) - 48) as nat);
        assert(digits_value(d) == digits_value(d.drop_last()) * 10 + ((d.last() as u32) - 48) as nat);
    }
}

} // verus!
