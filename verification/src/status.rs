//! The repository sync status line: parsing the counts that an external
//! version-control query printed, and formatting the one-line message shown
//! to the user. All of it is plain byte and string work; running the external
//! tool itself is left to the binary.

use vstd::prelude::*;
use vstd::string::StringExecFns;

verus! {

/// The character for a single decimal digit value.
pub open spec fn spec_digit_char(d: nat) -> char {
    if d == 0 {
        '0'
    } else if d == 1 {
        '1'
    } else if d == 2 {
        '2'
    } else if d == 3 {
        '3'
    } else if d == 4 {
        '4'
    } else if d == 5 {
        '5'
    } else if d == 6 {
        '6'
    } else if d == 7 {
        '7'
    } else if d == 8 {
        '8'
    } else {
        '9'
    }
}

/// The decimal rendering of a number, without sign or padding, as `format!`
/// would print it.
pub open spec fn spec_decimal(n: nat) -> Seq<char>
    decreases n,
{
    if n < 10 {
        seq![spec_digit_char(n)]
    } else {
        spec_decimal(n / 10) + seq![spec_digit_char(n % 10)]
    }
}

fn digit_str(d: u32) -> (s: &'static str)
    requires
        d < 10,
    ensures
        s@ == spec_decimal(d as nat),
{
    proof {
        reveal_strlit("0");
        reveal_strlit("1");
        reveal_strlit("2");
        reveal_strlit("3");
        reveal_strlit("4");
        reveal_strlit("5");
        reveal_strlit("6");
        reveal_strlit("7");
        reveal_strlit("8");
        reveal_strlit("9");
        assert(spec_decimal(d as nat) =~= seq![spec_digit_char(d as nat)]);
    }
    if d == 0 {
        "0"
    } else if d == 1 {
        "1"
    } else if d == 2 {
        "2"
    } else if d == 3 {
        "3"
    } else if d == 4 {
        "4"
    } else if d == 5 {
        "5"
    } else if d == 6 {
        "6"
    } else if d == 7 {
        "7"
    } else if d == 8 {
        "8"
    } else {
        "9"
    }
}

/// Renders a count in decimal, matching `spec_decimal` exactly.
pub fn u32_to_decimal(n: u32) -> (s: String)
    ensures
        s@ == spec_decimal(n as nat),
    decreases n,
{
    if n < 10 {
        digit_str(n).to_owned()
    } else {
        let mut s = u32_to_decimal(n / 10);
        s.append(digit_str(n % 10));
        proof {
            assert(s@ =~= spec_decimal((n / 10) as nat) + seq![spec_digit_char((n % 10) as nat)]);
        }
        s
    }
}

/// The status line for a pair of ahead/behind counts: a positive ahead count
/// wins over any behind count, a positive behind count comes next, and the
/// up-to-date message covers the rest.
pub open spec fn spec_status(ahead: u32, behind: u32) -> Seq<char> {
    if ahead > 0 {
        "[info] You are ahead by "@ + spec_decimal(ahead as nat) + " commit(s)"@
    } else if behind > 0 {
        "[info] You are behind by "@ + spec_decimal(behind as nat) + " commit(s)"@
    } else {
        "[info] You are up to date with upstream"@
    }
}

/// Formats the status line shown after a check.
pub fn format_status(ahead: u32, behind: u32) -> (s: String)
    ensures
        s@ == spec_status(ahead, behind),
{
    if ahead > 0 {
        let mut s = "[info] You are ahead by ".to_owned();
        let digits = u32_to_decimal(ahead);
        s.append(digits.as_str());
        s.append(" commit(s)");
        proof {
            assert(s@ =~= spec_status(ahead, behind));
        }
        s
    } else if behind > 0 {
        let mut s = "[info] You are behind by ".to_owned();
        let digits = u32_to_decimal(behind);
        s.append(digits.as_str());
        s.append(" commit(s)");
        proof {
            assert(s@ =~= spec_status(ahead, behind));
        }
        s
    } else {
        "[info] You are up to date with upstream".to_owned()
    }
}

/// A byte the trim step strips from a query's output: ASCII whitespace.
pub open spec fn spec_is_ascii_whitespace(b: u8) -> bool {
    b == 32 || (9 <= b && b <= 13)
}

pub open spec fn spec_trim_front(s: Seq<u8>) -> Seq<u8>
    decreases s.len(),
{
    if s.len() > 0 && spec_is_ascii_whitespace(s[0]) {
        spec_trim_front(s.subrange(1, s.len() as int))
    } else {
        s
    }
}

pub open spec fn spec_trim_back(s: Seq<u8>) -> Seq<u8>
    decreases s.len(),
{
    if s.len() > 0 && spec_is_ascii_whitespace(s[s.len() - 1]) {
        spec_trim_back(s.subrange(0, s.len() - 1))
    } else {
        s
    }
}

/// A query's output with leading and trailing whitespace removed.
pub open spec fn spec_trim(s: Seq<u8>) -> Seq<u8> {
    spec_trim_back(spec_trim_front(s))
}

pub open spec fn spec_is_digit(b: u8) -> bool {
    48 <= b && b <= 57
}

pub open spec fn spec_all_digits(s: Seq<u8>) -> bool {
    forall|k: int| 0 <= k < s.len() ==> spec_is_digit(#[trigger] s[k])
}

/// The numeric value of a run of decimal digit bytes.
pub open spec fn spec_digits_value(s: Seq<u8>) -> int
    decreases s.len(),
{
    if s.len() == 0 {
        0
    } else {
        spec_digits_value(s.drop_last()) * 10 + (s.last() - 48)
    }
}

/// The digit bytes of a count token, allowing the one leading plus sign the
/// standard unsigned parser accepts.
pub open spec fn spec_digits_part(s: Seq<u8>) -> Seq<u8> {
    if s.len() > 0 && s[0] == 43 {
        s.subrange(1, s.len() as int)
    } else {
        s
    }
}

/// How an unsigned 32-bit parse reads a trimmed token: after an optional
/// plus sign, at least one byte, every byte a digit, and a value in range.
pub open spec fn spec_parse_u32(s: Seq<u8>) -> Option<u32> {
    let d = spec_digits_part(s);
    if d.len() > 0 && spec_all_digits(d) && spec_digits_value(d) <= u32::MAX {
        Some(spec_digits_value(d) as u32)
    } else {
        None
    }
}

/// What one count query yields from its raw output bytes.
pub open spec fn spec_parse_count(s: Seq<u8>) -> Option<u32> {
    spec_parse_u32(spec_trim(s))
}

fn is_ascii_ws(b: u8) -> (r: bool)
    ensures
        r == spec_is_ascii_whitespace(b),
{
    b == 32 || (b >= 9 && b <= 13)
}

proof fn lemma_trim_front_is_subrange(s: Seq<u8>, lo: int)
    requires
        0 <= lo <= s.len(),
        forall|k: int| 0 <= k < lo ==> spec_is_ascii_whitespace(#[trigger] s[k]),
        lo == s.len() || !spec_is_ascii_whitespace(s[lo]),
    ensures
        spec_trim_front(s) == s.subrange(lo, s.len() as int),
    decreases lo,
{
    if lo == 0 {
        assert(s.subrange(0, s.len() as int) =~= s);
    } else {
        let t = s.subrange(1, s.len() as int);
        lemma_trim_front_is_subrange(t, lo - 1);
        assert(t.subrange(lo - 1, t.len() as int) =~= s.subrange(lo, s.len() as int));
    }
}

proof fn lemma_trim_back_is_subrange(s: Seq<u8>, hi: int)
    requires
        0 <= hi <= s.len(),
        forall|k: int| hi <= k < s.len() ==> spec_is_ascii_whitespace(#[trigger] s[k]),
        hi == 0 || !spec_is_ascii_whitespace(s[hi - 1]),
    ensures
        spec_trim_back(s) == s.subrange(0, hi),
    decreases s.len() - hi,
{
    if hi == s.len() {
        assert(s.subrange(0, s.len() as int) =~= s);
    } else {
        let t = s.subrange(0, s.len() - 1);
        lemma_trim_back_is_subrange(t, hi);
        assert(t.subrange(0, hi) =~= s.subrange(0, hi));
    }
}

proof fn lemma_trim_is_subrange(s: Seq<u8>, lo: int, hi: int)
    requires
        0 <= lo <= hi <= s.len(),
        forall|k: int| 0 <= k < lo ==> spec_is_ascii_whitespace(#[trigger] s[k]),
        forall|k: int| hi <= k < s.len() ==> spec_is_ascii_whitespace(#[trigger] s[k]),
        lo == s.len() || !spec_is_ascii_whitespace(s[lo]),
        hi == lo || !spec_is_ascii_whitespace(s[hi - 1]),
    ensures
        spec_trim(s) == s.subrange(lo, hi),
{
    lemma_trim_front_is_subrange(s, lo);
    let t = s.subrange(lo, s.len() as int);
    lemma_trim_back_is_subrange(t, hi - lo);
    assert(t.subrange(0, hi - lo) =~= s.subrange(lo, hi));
}

proof fn lemma_digits_value_nonneg(s: Seq<u8>)
    requires
        spec_all_digits(s),
    ensures
        spec_digits_value(s) >= 0,
    decreases s.len(),
{
    if s.len() > 0 {
        assert(spec_all_digits(s.drop_last()));
        lemma_digits_value_nonneg(s.drop_last());
    }
}

/// Appending digits never shrinks the value a prefix already denotes.
proof fn lemma_digits_value_mono(s: Seq<u8>, i: int, j: int)
    requires
        0 <= i <= j <= s.len(),
        spec_all_digits(s),
    ensures
        spec_digits_value(s.subrange(0, i)) <= spec_digits_value(s.subrange(0, j)),
    decreases j - i,
{
    if i < j {
        lemma_digits_value_mono(s, i, j - 1);
        let p = s.subrange(0, j - 1);
        assert(s.subrange(0, j).drop_last() =~= p);
        assert(spec_all_digits(p));
        lemma_digits_value_nonneg(p);
    }
}

proof fn lemma_mul10_plus_digit_bounds(acc: u32, digit: u32)
    requires
        digit < 10,
    ensures
        acc > (u32::MAX - digit) / 10 ==> acc * 10 + digit > u32::MAX,
        acc <= (u32::MAX - digit) / 10 ==> acc * 10 + digit <= u32::MAX,
{
    let m = (u32::MAX - digit) as int;
    assert(m == 10 * (m / 10) + m % 10) by (nonlinear_arith);
    assert(0 <= m % 10 < 10) by (nonlinear_arith)
        requires m >= 0;
    if acc > (u32::MAX - digit) / 10 {
        assert(acc as int * 10 >= 10 * (m / 10) + 10);
    } else {
        assert(acc as int * 10 <= 10 * (m / 10));
    }
}

/// Reads a count from a query's raw output: the bytes are trimmed of ASCII
/// whitespace and parsed as an unsigned 32-bit decimal; any other content,
/// or a value out of range, yields nothing.
pub fn parse_count(bytes: &Vec<u8>) -> (n: Option<u32>)
    ensures
        n == spec_parse_count(bytes@),
{
    let len = bytes.len();
    let mut lo: usize = 0;
    while lo < len && is_ascii_ws(bytes[lo])
        invariant
            0 <= lo <= len,
            len == bytes@.len(),
            forall|k: int| 0 <= k < lo ==> spec_is_ascii_whitespace(#[trigger] bytes@[k]),
        decreases len - lo,
    {
        lo += 1;
    }
    let mut hi: usize = len;
    while hi > lo && is_ascii_ws(bytes[hi - 1])
        invariant
            lo <= hi <= len,
            len == bytes@.len(),
            forall|k: int| hi <= k < len ==> spec_is_ascii_whitespace(#[trigger] bytes@[k]),
        decreases hi,
    {
        hi -= 1;
    }
    proof {
        lemma_trim_is_subrange(bytes@, lo as int, hi as int);
    }
    let ghost t = bytes@.subrange(lo as int, hi as int);
    let start: usize = if hi > lo && bytes[lo] == 43 {
        lo + 1
    } else {
        lo
    };
    let ghost d = spec_digits_part(t);
    proof {
        if t.len() > 0 && t[0] == 43 {
            assert(t.subrange(1, t.len() as int) =~= bytes@.subrange(start as int, hi as int));
        }
        assert(d =~= bytes@.subrange(start as int, hi as int));
    }
    if start == hi {
        return None;
    }
    let mut acc: u32 = 0;
    let mut i: usize = start;
    while i < hi
        invariant
            start <= i <= hi <= len,
            len == bytes@.len(),
            start < hi,
            t == spec_trim(bytes@),
            d == spec_digits_part(t),
            d == bytes@.subrange(start as int, hi as int),
            forall|k: int| start <= k < i ==> spec_is_digit(#[trigger] bytes@[k]),
            acc == spec_digits_value(bytes@.subrange(start as int, i as int)),
        decreases hi - i,
    {
        let b = bytes[i];
        if b < 48 || b > 57 {
            proof {
                assert(d[i - start] == bytes@[i as int]);
                assert(!spec_all_digits(d));
            }
            return None;
        }
        let digit = (b - 48) as u32;
        proof {
            lemma_mul10_plus_digit_bounds(acc, digit);
            assert(bytes@.subrange(start as int, i + 1).drop_last() =~= bytes@.subrange(
                start as int,
                i as int,
            ));
            assert(bytes@.subrange(start as int, i + 1).last() == bytes@[i as int]);
        }
        if acc > (u32::MAX - digit) / 10 {
            proof {
                if spec_all_digits(d) {
                    assert(d.subrange(0, i + 1 - start) =~= bytes@.subrange(start as int, i + 1));
                    lemma_digits_value_mono(d, i + 1 - start, d.len() as int);
                    assert(d.subrange(0, d.len() as int) =~= d);
                    assert(spec_digits_value(d) > u32::MAX);
                }
            }
            return None;
        }
        acc = acc * 10 + digit;
        i += 1;
    }
    proof {
        assert(spec_parse_u32(t) == Some(acc));
    }
    Some(acc)
}

/// The bytes a count query produced, where it produced any at all.
pub open spec fn spec_opt_bytes(o: Option<Vec<u8>>) -> Option<Seq<u8>> {
    match o {
        Some(v) => Some(v@),
        None => None,
    }
}

/// The count one query contributes: its parsed value, and zero wherever the
/// query failed outright or printed anything unparseable.
pub open spec fn spec_count_of(out: Option<Seq<u8>>) -> u32 {
    match out {
        Some(s) => match spec_parse_count(s) {
            Some(n) => n,
            None => 0,
        },
        None => 0,
    }
}

/// Turns one query's outcome into a count, absorbing every failure into zero.
pub fn count_from_output(out: &Option<Vec<u8>>) -> (n: u32)
    ensures
        n == spec_count_of(spec_opt_bytes(*out)),
{
    match out {
        Some(v) => match parse_count(v) {
            Some(n) => n,
            None => 0,
        },
        None => 0,
    }
}

/// The status line read from the raw outcomes of the two count queries.
pub open spec fn spec_status_of_outputs(ahead: Option<Seq<u8>>, behind: Option<Seq<u8>>) -> Seq<
    char,
> {
    spec_status(spec_count_of(ahead), spec_count_of(behind))
}

/// Builds the status line straight from what the two external count queries
/// produced, if anything: ahead first, then behind.
pub fn status_from_outputs(ahead_out: &Option<Vec<u8>>, behind_out: &Option<Vec<u8>>) -> (s:
    String)
    ensures
        s@ == spec_status_of_outputs(spec_opt_bytes(*ahead_out), spec_opt_bytes(*behind_out)),
{
    let ahead = count_from_output(ahead_out);
    let behind = count_from_output(behind_out);
    format_status(ahead, behind)
}

/// A count query that failed: it produced no output, or output that does not
/// read as an unsigned 32-bit decimal.
pub open spec fn spec_query_failed(out: Option<Seq<u8>>) -> bool {
    match out {
        Some(s) => spec_parse_count(s) == Option::<u32>::None,
        None => true,
    }
}

/// When both external count queries fail, the status line is exactly the one
/// for zero ahead and zero behind: the up-to-date message, never an error.
pub proof fn lemma_failed_queries_read_up_to_date(
    ahead: Option<Seq<u8>>,
    behind: Option<Seq<u8>>,
)
    requires
        spec_query_failed(ahead),
        spec_query_failed(behind),
    ensures
        spec_status_of_outputs(ahead, behind) == spec_status(0, 0),
{
}

} // verus!
