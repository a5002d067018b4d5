use vstd::prelude::*;
use vstd::string::StrSliceExecFns;
use vstd::utf8::is_ascii_chars;

use crate::errors::{Runner, SolverError};

verus! {

/// The text before the count on the runner's report line.
pub open spec fn report_prefix() -> Seq<char> {
    "Instrumentation results: "@
}

/// The text after the count on the runner's report line.
pub open spec fn report_suffix() -> Seq<char> {
    " instructions executed"@
}

pub open spec fn is_digit(c: char) -> bool {
    '0' <= c && c <= '9'
}

pub open spec fn all_digits(d: Seq<char>) -> bool {
    forall|i: int| 0 <= i < d.len() ==> is_digit(#[trigger] d[i])
}

pub open spec fn digit_value(c: char) -> int {
    c as u32 - '0' as u32
}

/// The number that a run of decimal digits writes, most significant first.
pub open spec fn digits_value(d: Seq<char>) -> int
    decreases d.len(),
{
    if d.len() == 0 {
        0
    } else {
        digits_value(d.drop_last()) * 10 + digit_value(d.last())
    }
}

/// The length of the run of decimal digits that starts at `j`.
pub open spec fn digit_run(s: Seq<char>, j: int) -> nat
    decreases s.len() - j,
{
    if 0 <= j < s.len() && is_digit(s[j]) {
        1 + digit_run(s, j + 1)
    } else {
        0
    }
}

/// Whether a report line, with at least one digit, starts at `i`.
pub open spec fn report_at(s: Seq<char>, i: int) -> bool {
    let d = i + report_prefix().len();
    let e = d + digit_run(s, d);
    &&& 0 <= i
    &&& e + report_suffix().len() <= s.len()
    &&& s.subrange(i, d) == report_prefix()
    &&& digit_run(s, d) > 0
    &&& s.subrange(e, e + report_suffix().len()) == report_suffix()
}

/// The digits of the first report line that starts at `i` or later.
pub open spec fn report_from(s: Seq<char>, i: int) -> Option<Seq<char>>
    decreases s.len() + 1 - i,
{
    if i < 0 || i > s.len() {
        None
    } else if report_at(s, i) {
        let d = i + report_prefix().len();
        Some(s.subrange(d, d + digit_run(s, d)))
    } else {
        report_from(s, i + 1)
    }
}

/// The digits of the leftmost report line in `s`.
pub open spec fn report_digits(s: Seq<char>) -> Option<Seq<char>> {
    report_from(s, 0)
}

/// The count that a captured digit run stands for, where it is one that fits an `i64`.
pub open spec fn count_of_capture(cap: Option<Seq<char>>) -> Option<int> {
    match cap {
        None => None,
        Some(d) => if d.len() > 0 && all_digits(d) && digits_value(d) <= i64::MAX {
            Some(digits_value(d))
        } else {
            None
        },
    }
}

/// The instruction count that the runner reported in `s`.
pub open spec fn report_count(s: Seq<char>) -> Option<int> {
    count_of_capture(report_digits(s))
}

pub open spec fn captured(cap: Option<String>) -> Option<Seq<char>> {
    match cap {
        None => None,
        Some(d) => Some(d@),
    }
}

/// The characters of bytes that are all ASCII.
pub open spec fn ascii_text(b: Seq<u8>) -> Seq<char> {
    Seq::new(b.len(), |i: int| b[i] as char)
}

pub open spec fn is_ascii_bytes(b: Seq<u8>) -> bool {
    forall|i: int| 0 <= i < b.len() ==> #[trigger] b[i] < 128
}

/// Whether `r` is the error for output that holds no usable report.
pub open spec fn is_parse_error(r: Result<i64, SolverError>) -> bool {
    &&& r is Err
    &&& r->Err_0.runner == Runner::IoError
    &&& r->Err_0.message@ == "Could not parse dynamorio Instruction count"@
}

/// Relies on regex::Regex::new and Regex::captures. The pattern compiles; on text
/// of ASCII characters alone, `\d` is `[0-9]`, so the first group of the leftmost
/// match is the digit run of the leftmost report line; a group of `\d+` is never empty.
#[verifier::external_body]
fn capture_report(pattern: &str, text: &str) -> (r: Option<String>)
    requires
        pattern@ == "Instrumentation results: (\\d+) instructions executed"@,
    ensures
        is_ascii_chars(text@) ==> captured(r) == report_digits(text@),
        r is Some ==> r->Some_0@.len() > 0,
{
    let re = match regex::Regex::new(pattern) {
        Ok(re) => re,
        Err(_) => return None,
    };
    match re.captures(text) {
        Some(caps) => caps.get(1).map(|m| m.as_str().to_string()),
        None => None,
    }
}

/// Relies on String::from_utf8_lossy: bytes below 128 decode to the characters
/// with the same code points.
#[verifier::external_body]
fn decode_lossy(bytes: &[u8]) -> (r: String)
    ensures
        is_ascii_bytes(bytes@) ==> r@ == ascii_text(bytes@),
{
    String::from_utf8_lossy(bytes).into_owned()
}

proof fn lemma_digits_value_nonneg(d: Seq<char>)
    requires
        all_digits(d),
    ensures
        digits_value(d) >= 0,
    decreases d.len(),
{
    if d.len() > 0 {
        lemma_digits_value_nonneg(d.drop_last());
    }
}

proof fn lemma_prefix_value_le(d: Seq<char>, j: int)
    requires
        all_digits(d),
        0 <= j <= d.len(),
    ensures
        digits_value(d.subrange(0, j)) <= digits_value(d),
    decreases d.len(),
{
    if j == d.len() {
        assert(d.subrange(0, j) =~= d);
    } else {
        lemma_prefix_value_le(d.drop_last(), j);
        assert(d.drop_last().subrange(0, j) =~= d.subrange(0, j));
        lemma_digits_value_nonneg(d.drop_last());
    }
}

/// Reads a run of decimal digits as a count.
fn digits_to_count(d: &str) -> (r: Option<i64>)
    ensures
        r is Some <==> count_of_capture(Some(d@)) is Some,
        r is Some ==> r->Some_0 as int == count_of_capture(Some(d@))->Some_0,
{
    let n = d.unicode_len();
    if n == 0 {
        return None;
    }
    let mut v: i64 = 0;
    let mut i: usize = 0;
    while i < n
        invariant
            i <= n,
            n == d@.len(),
            all_digits(d@.subrange(0, i as int)),
            v as int == digits_value(d@.subrange(0, i as int)),
        decreases n - i,
    {
        let c = d.get_char(i);
        if !('0' <= c && c <= '9') {
            return None;
        }
        let ghost next = d@.subrange(0, i + 1);
        assert(next.drop_last() =~= d@.subrange(0, i as int));
        let digit = (c as u32 - '0' as u32) as i64;
        let w = match v.checked_mul(10) {
            Some(w) => w,
            None => {
                proof {
                    if all_digits(d@) {
                        lemma_prefix_value_le(d@, i + 1);
                        lemma_digits_value_nonneg(d@.subrange(0, i as int));
                    }
                }
                return None;
            },
        };
        v = match w.checked_add(digit) {
            Some(x) => x,
            None => {
                proof {
                    if all_digits(d@) {
                        lemma_prefix_value_le(d@, i + 1);
                    }
                }
                return None;
            },
        };
        i += 1;
    }
    assert(d@.subrange(0, n as int) =~= d@);
    Some(v)
}

/// The count of a captured digit run: the number it writes, or the parse error
/// where there is no capture, or it is not all ASCII digits, or it does not fit an `i64`.
pub fn count_from_capture(cap: Option<String>) -> (r: Result<i64, SolverError>)
    ensures
        count_of_capture(captured(cap)) is Some ==> r is Ok && r->Ok_0 as int == count_of_capture(
            captured(cap),
        )->Some_0,
        count_of_capture(captured(cap)) is None ==> is_parse_error(r),
{
    let parsed = match cap {
        Some(d) => digits_to_count(d.as_str()),
        None => None,
    };
    match parsed {
        Some(n) => Ok(n),
        None => Err(SolverError::new(Runner::IoError, "Could not parse dynamorio Instruction count")),
    }
}

/// The instruction count reported in the runner's output: on ASCII text, the
/// count of the leftmost report line; otherwise the parse error.
pub fn parse_inst_count(text: &str) -> (r: Result<i64, SolverError>)
    ensures
        is_ascii_chars(text@) && report_count(text@) is Some ==> r is Ok && r->Ok_0 as int
            == report_count(text@)->Some_0,
        is_ascii_chars(text@) && report_count(text@) is None ==> is_parse_error(r),
        r is Err ==> is_parse_error(r),
{
    let cap = capture_report("Instrumentation results: (\\d+) instructions executed", text);
    count_from_capture(cap)
}

/// The instruction count reported on the runner's captured stdout.
pub fn inst_count_from_stdout(stdout: &[u8]) -> (r: Result<i64, SolverError>)
    ensures
        is_ascii_bytes(stdout@) && report_count(ascii_text(stdout@)) is Some ==> r is Ok
            && r->Ok_0 as int == report_count(ascii_text(stdout@))->Some_0,
        is_ascii_bytes(stdout@) && report_count(ascii_text(stdout@)) is None ==> is_parse_error(r),
        r is Err ==> is_parse_error(r),
{
    let text = decode_lossy(stdout);
    proof {
        if is_ascii_bytes(stdout@) {
            assert(is_ascii_chars(text@));
        }
    }
    parse_inst_count(text.as_str())
}

/// The decimal digit for `k`, below ten.
pub open spec fn decimal_digit(k: int) -> char {
    seq!['0', '1', '2', '3', '4', '5', '6', '7', '8', '9'][k]
}

/// `n` written in decimal, without leading zeros.
pub open spec fn decimal(n: nat) -> Seq<char>
    decreases n,
{
    if n < 10 {
        seq![decimal_digit(n as int)]
    } else {
        decimal(n / 10).push(decimal_digit((n % 10) as int))
    }
}

/// The report line that the runner prints for a count of `n`.
pub open spec fn report_line(n: nat) -> Seq<char> {
    report_prefix() + decimal(n) + report_suffix()
}

proof fn lemma_decimal_digit(k: int)
    requires
        0 <= k < 10,
    ensures
        is_digit(decimal_digit(k)),
        digit_value(decimal_digit(k)) == k,
{
    assert(decimal_digit(k) as u32 == '0' as u32 + k);
}

proof fn lemma_decimal(n: nat)
    ensures
        decimal(n).len() > 0,
        all_digits(decimal(n)),
        is_ascii_chars(decimal(n)),
        digits_value(decimal(n)) == n,
    decreases n,
{
    if n < 10 {
        lemma_decimal_digit(n as int);
        assert(decimal(n).drop_last() =~= Seq::<char>::empty());
        assert(digits_value(Seq::<char>::empty()) == 0);
        assert(decimal(n).last() == decimal_digit(n as int));
    } else {
        lemma_decimal_digit((n % 10) as int);
        lemma_decimal(n / 10);
        assert(decimal(n).drop_last() =~= decimal(n / 10));
        assert(decimal(n).last() == decimal_digit((n % 10) as int));
        assert(digits_value(decimal(n)) == digits_value(decimal(n / 10)) * 10 + (n % 10));
        assert((n / 10) * 10 + n % 10 == n) by (nonlinear_arith);
    }
}

proof fn lemma_digit_run(s: Seq<char>, end: int, j: int)
    requires
        0 <= j <= end < s.len(),
        forall|i: int| j <= i < end ==> is_digit(#[trigger] s[i]),
        !is_digit(s[end]),
    ensures
        digit_run(s, j) == end - j,
    decreases end - j,
{
    if j < end {
        lemma_digit_run(s, end, j + 1);
    }
}

/// The parse of the report is a left inverse of the runner's formatting: the
/// line printed for any count that fits an `i64` is ASCII, and reads back as it.
pub proof fn law_report_round_trip(n: nat)
    requires
        n <= i64::MAX,
    ensures
        is_ascii_chars(report_line(n)),
        report_count(report_line(n)) == Some(n as int),
{
    reveal_strlit("Instrumentation results: ");
    reveal_strlit(" instructions executed");
    lemma_decimal(n);
    let s = report_line(n);
    let p = report_prefix();
    let d = decimal(n);
    let x = report_suffix();
    assert(is_ascii_chars(p));
    assert(is_ascii_chars(x));
    assert(is_ascii_chars(s)) by {
        assert forall|i: int| 0 <= i < s.len() implies '\0' <= #[trigger] s[i] <= '\u{7f}' by {
            if i < p.len() {
                assert(s[i] == p[i]);
            } else if i < p.len() + d.len() {
                assert(s[i] == d[i - p.len()]);
            } else {
                assert(s[i] == x[i - p.len() - d.len()]);
            }
        }
    }
    let e: int = (p.len() + d.len()) as int;
    assert(s[e] == x[0]);
    lemma_digit_run(s, e, p.len() as int);
    assert(s.subrange(0, p.len() as int) =~= p);
    assert(s.subrange(e, e + x.len()) =~= x);
    assert(s.subrange(p.len() as int, e) =~= d);
    assert(report_at(s, 0));
}

} // verus!
