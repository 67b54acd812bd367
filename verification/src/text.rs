//! Text forms of numbers and symbols: decimal rendering, two-place amounts,
//! parsing of amounts, and symbol normalization.

use crate::models::Percent;
use vstd::prelude::*;
use vstd::string::*;

verus! {

/// Largest whole part, in units, that a parsed amount may have.
pub const MAX_WHOLE_UNITS: u64 = 1_000_000_000_000_000;

/// The character of a decimal digit.
pub open spec fn digit_char(d: nat) -> char {
    if d == 0 {
        '0'
    } else if d == 1 {
        '1'
    } else if d == 2 {
        '2'
    } else if d == 3 {
        '3'
    } else if d == 4 {
        '4'
    } else if d == 5 {
        '5'
    } else if d == 6 {
        '6'
    } else if d == 7 {
        '7'
    } else if d == 8 {
        '8'
    } else {
        '9'
    }
}

/// Decimal digits of `n`, most significant first, without leading zeros.
pub open spec fn decimal_text(n: nat) -> Seq<char>
    decreases n,
{
    if n < 10 {
        seq![digit_char(n)]
    } else {
        decimal_text(n / 10).push(digit_char(n % 10))
    }
}

/// The two digits of a number below one hundred.
pub open spec fn two_digit_text(k: nat) -> Seq<char> {
    seq![digit_char(k / 10), digit_char(k % 10)]
}

/// The three digits of a number below one thousand.
pub open spec fn three_digit_text(k: nat) -> Seq<char> {
    seq![digit_char(k / 100), digit_char((k / 10) % 10), digit_char(k % 10)]
}

/// Decimal digits of `n` in groups of three, separated by commas.
pub open spec fn grouped_text(n: nat) -> Seq<char>
    decreases n,
{
    if n < 1000 {
        decimal_text(n)
    } else {
        grouped_text(n / 1000) + seq![','] + three_digit_text(n % 1000)
    }
}

/// Magnitude of an integer.
pub open spec fn magnitude(v: int) -> nat {
    if v < 0 {
        (-v) as nat
    } else {
        v as nat
    }
}

/// `whole.frac` with exactly two fraction digits.
pub open spec fn two_place_text(negative: bool, whole: nat, frac: nat) -> Seq<char> {
    (if negative {
        seq!['-']
    } else {
        Seq::empty()
    }) + decimal_text(whole) + seq!['.'] + two_digit_text(frac)
}

/// An amount of hundredths written with two decimal places.
pub open spec fn hundredths_text(v: int) -> Seq<char> {
    two_place_text(v < 0, magnitude(v) / 100, magnitude(v) % 100)
}

/// A quotient written with two decimal places, rounded to the nearest hundredth with
/// halves away from zero. A zero denominator gives `inf`, `-inf` or `NaN` by the sign
/// of the numerator.
pub open spec fn percent_text(p: Percent) -> Seq<char> {
    let n = magnitude(p.numerator as int);
    let d = magnitude(p.denominator as int);
    if d == 0 {
        if p.numerator > 0 {
            seq!['i', 'n', 'f']
        } else if p.numerator < 0 {
            seq!['-', 'i', 'n', 'f']
        } else {
            seq!['N', 'a', 'N']
        }
    } else {
        let hundredths = (200 * n + d) / (2 * d);
        two_place_text(
            p.numerator != 0 && ((p.numerator < 0) != (p.denominator < 0)),
            hundredths / 100,
            hundredths % 100,
        )
    }
}

/// The text of one decimal digit.
fn digit_str(d: u8) -> (res: &'static str)
    requires
        d < 10,
    ensures
        res@ == seq![digit_char(d as nat)],
{
    proof {
        reveal_strlit("0");
        reveal_strlit("1");
        reveal_strlit("2");
        reveal_strlit("3");
        reveal_strlit("4");
        reveal_strlit("5");
        reveal_strlit("6");
        reveal_strlit("7");
        reveal_strlit("8");
        reveal_strlit("9");
    }
    let res = if d == 0 {
        "0"
    } else if d == 1 {
        "1"
    } else if d == 2 {
        "2"
    } else if d == 3 {
        "3"
    } else if d == 4 {
        "4"
    } else if d == 5 {
        "5"
    } else if d == 6 {
        "6"
    } else if d == 7 {
        "7"
    } else if d == 8 {
        "8"
    } else {
        "9"
    };
    assert(res@ =~= seq![digit_char(d as nat)]);
    res
}

/// Writes a number in decimal.
pub fn decimal_string(n: u128) -> (res: String)
    ensures
        res@ == decimal_text(n as nat),
    decreases n,
{
    if n < 10 {
        String::from_str(digit_str(n as u8))
    } else {
        let mut text = decimal_string(n / 10);
        text.append(digit_str((n % 10) as u8));
        assert(text@ =~= decimal_text((n / 10) as nat).push(digit_char((n % 10) as nat)));
        text
    }
}

/// Writes a number in decimal with a comma between groups of three digits.
pub fn grouped_string(n: u64) -> (res: String)
    ensures
        res@ == grouped_text(n as nat),
    decreases n,
{
    if n < 1000 {
        decimal_string(n as u128)
    } else {
        proof {
            reveal_strlit(",");
        }
        let mut text = grouped_string(n / 1000);
        let k = n % 1000;
        text.append(",");
        text.append(digit_str((k / 100) as u8));
        text.append(digit_str(((k / 10) % 10) as u8));
        text.append(digit_str((k % 10) as u8));
        assert(text@ =~= grouped_text((n / 1000) as nat) + seq![','] + three_digit_text(k as nat));
        text
    }
}

/// Magnitude of a 128-bit integer.
pub fn magnitude_of(v: i128) -> (res: u128)
    ensures
        res == magnitude(v as int),
{
    if v >= 0 {
        v as u128
    } else {
        (-(v + 1)) as u128 + 1
    }
}

/// Writes `whole.frac` with two fraction digits and an optional minus sign.
fn two_place_string(negative: bool, whole: u128, frac: u128) -> (res: String)
    requires
        frac < 100,
    ensures
        res@ == two_place_text(negative, whole as nat, frac as nat),
{
    proof {
        reveal_strlit("-");
        reveal_strlit("");
        reveal_strlit(".");
    }
    let mut text = String::from_str(if negative { "-" } else { "" });
    let digits = decimal_string(whole);
    text.append(digits.as_str());
    text.append(".");
    text.append(digit_str((frac / 10) as u8));
    text.append(digit_str((frac % 10) as u8));
    assert(text@ =~= two_place_text(negative, whole as nat, frac as nat));
    text
}

/// Writes an amount of hundredths with two decimal places.
pub fn format_hundredths(v: i128) -> (res: String)
    ensures
        res@ == hundredths_text(v as int),
{
    let m = magnitude_of(v);
    two_place_string(v < 0, m / 100, m % 100)
}

/// The quotient `n / d` in hundredths, rounded half up, splits into the whole part of
/// `n / d` and the rounded hundredths of its remainder.
proof fn lemma_rounded_hundredths(n: int, d: int)
    requires
        n >= 0,
        d > 0,
    ensures
        0 <= n % d < d,
        0 <= (200 * (n % d) + d) / (2 * d) <= 100,
        (200 * n + d) / (2 * d) == 100 * (n / d) + (200 * (n % d) + d) / (2 * d),
{
    let w = n / d;
    let r = n % d;
    vstd::arithmetic::div_mod::lemma_fundamental_div_mod(n, d);
    vstd::arithmetic::div_mod::lemma_mod_bound(n, d);
    vstd::arithmetic::div_mod::lemma_hoist_over_denominator(200 * r + d, 100 * w, (2 * d) as nat);
    assert(200 * r + d + (100 * w) * (2 * d) == 200 * n + d) by (nonlinear_arith)
        requires
            n == d * w + r,
    ;
    assert(0 <= (200 * r + d) / (2 * d) <= 100) by (nonlinear_arith)
        requires
            0 <= r < d,
    ;
}

/// Hundredths split into units and the two digits after the point.
proof fn lemma_split_hundredths(w: int, t: int)
    requires
        w >= 0,
        0 <= t <= 100,
    ensures
        (100 * w + t) / 100 == w + t / 100,
        (100 * w + t) % 100 == t % 100,
{
}

/// Writes a quotient with two decimal places.
pub fn format_percent(p: &Percent) -> (res: String)
    ensures
        res@ == percent_text(*p),
{
    let n = magnitude_of(p.numerator);
    let d = magnitude_of(p.denominator as i128);
    if d == 0 {
        proof {
            reveal_strlit("inf");
            reveal_strlit("-inf");
            reveal_strlit("NaN");
        }
        let word = if p.numerator > 0 {
            "inf"
        } else if p.numerator < 0 {
            "-inf"
        } else {
            "NaN"
        };
        assert(word@ =~= percent_text(*p));
        String::from_str(word)
    } else {
        let negative = p.numerator != 0 && ((p.numerator < 0) != (p.denominator < 0));
        let whole = n / d;
        let rest = n % d;
        proof {
            lemma_rounded_hundredths(n as int, d as int);
        }
        assert(rest < d && d <= 0x8000_0000_0000_0000);
        let tail = (200 * rest + d) / (2 * d);
        proof {
            lemma_split_hundredths(whole as int, tail as int);
        }
        two_place_string(negative, whole + tail / 100, tail % 100)
    }
}

/// The text in upper case, as `str::to_uppercase` gives it.
pub uninterp spec fn uppercased(text: Seq<char>) -> Seq<char>;

/// The text in lower case, as `str::to_lowercase` gives it.
pub uninterp spec fn lowercased(text: Seq<char>) -> Seq<char>;

/// The text without leading and trailing white space, as `str::trim` gives it.
pub uninterp spec fn trimmed(text: Seq<char>) -> Seq<char>;

/// `str::to_uppercase`: the Unicode upper-case mapping of the text, a function of the
/// text alone.
#[verifier::external_body]
pub(crate) fn to_uppercase(text: &str) -> (res: String)
    ensures
        res@ == uppercased(text@),
{
    text.to_uppercase()
}

/// `str::to_lowercase`: the Unicode lower-case mapping of the text, a function of the
/// text alone.
#[verifier::external_body]
pub(crate) fn to_lowercase(text: &str) -> (res: String)
    ensures
        res@ == lowercased(text@),
{
    text.to_lowercase()
}

/// `str::trim`: the text with leading and trailing Unicode white space removed, a
/// function of the text alone.
#[verifier::external_body]
pub(crate) fn trim<'a>(text: &'a str) -> (res: &'a str)
    ensures
        res@ == trimmed(text@),
{
    text.trim()
}

/// A symbol as it is stored and looked up: upper case, then trimmed.
pub open spec fn normalized_symbol(raw: Seq<char>) -> Seq<char> {
    trimmed(uppercased(raw))
}

/// Normalizes a symbol given by a user.
pub fn normalize_symbol(raw: &str) -> (res: String)
    ensures
        res@ == normalized_symbol(raw@),
{
    let upper = to_uppercase(raw);
    String::from_str(trim(upper.as_str()))
}

/// Value of a decimal digit character.
pub open spec fn digit_of(c: char) -> Option<nat> {
    let u = c as u32;
    if 48 <= u <= 57 {
        Some((u - 48) as nat)
    } else {
        None
    }
}

/// Every character is a decimal digit.
pub open spec fn all_digits(s: Seq<char>) -> bool {
    forall|i: int| 0 <= i < s.len() ==> (#[trigger] digit_of(s[i])) is Some
}

/// Value of a run of decimal digits, most significant first.
pub open spec fn digits_value(s: Seq<char>) -> nat
    decreases s.len(),
{
    if s.len() == 0 {
        0
    } else {
        digits_value(s.drop_last()) * 10 + match digit_of(s.last()) {
            Some(d) => d,
            None => 0,
        }
    }
}

/// Position of the first decimal point, or the length where there is none.
pub open spec fn dot_position(s: Seq<char>) -> int
    decreases s.len(),
{
    if s.len() == 0 || s[0] == '.' {
        0
    } else {
        1 + dot_position(s.skip(1))
    }
}

/// Hundredths denoted by unsigned decimal text: one or more digits, then optionally a
/// point and at most two digits. The whole part may not exceed `MAX_WHOLE_UNITS`.
pub open spec fn unsigned_amount(s: Seq<char>) -> Option<nat> {
    let k = dot_position(s);
    let whole = s.take(k);
    let frac = if k < s.len() {
        s.skip(k + 1)
    } else {
        Seq::empty()
    };
    if whole.len() >= 1 && all_digits(whole) && digits_value(whole) <= MAX_WHOLE_UNITS
        && frac.len() <= 2 && all_digits(frac) {
        Some(
            digits_value(whole) * 100 + if frac.len() == 1 {
                digits_value(frac) * 10
            } else {
                digits_value(frac)
            },
        )
    } else {
        None
    }
}

/// Hundredths denoted by decimal text with an optional leading `+` or `-`.
pub open spec fn parsed_amount(s: Seq<char>) -> Option<int> {
    if s.len() > 0 && s[0] == '-' {
        match unsigned_amount(s.skip(1)) {
            Some(v) => Some(-(v as int)),
            None => None,
        }
    } else if s.len() > 0 && s[0] == '+' {
        match unsigned_amount(s.skip(1)) {
            Some(v) => Some(v as int),
            None => None,
        }
    } else {
        match unsigned_amount(s) {
            Some(v) => Some(v as int),
            None => None,
        }
    }
}

proof fn lemma_dot_position(s: Seq<char>)
    ensures
        0 <= dot_position(s) <= s.len(),
        forall|j: int| 0 <= j < dot_position(s) ==> s[j] != '.',
        dot_position(s) < s.len() ==> s[dot_position(s)] == '.',
    decreases s.len(),
{
    if s.len() == 0 || s[0] == '.' {
    } else {
        let rest = s.skip(1);
        lemma_dot_position(rest);
        assert forall|j: int| 0 <= j < dot_position(s) implies s[j] != '.' by {
            if j > 0 {
                assert(rest[j - 1] == s[j]);
            }
        }
        if dot_position(s) < s.len() {
            assert(rest[dot_position(rest)] == s[dot_position(s)]);
        }
    }
}

proof fn lemma_digits_value_grows(s: Seq<char>, j: int, k: int)
    requires
        0 <= j <= k <= s.len(),
    ensures
        digits_value(s.take(j)) <= digits_value(s.take(k)),
    decreases k - j,
{
    if j < k {
        lemma_digits_value_grows(s, j, k - 1);
        assert(s.take(k).drop_last() =~= s.take(k - 1));
    }
}

/// The characters of a text.
fn chars_of(text: &str) -> (res: Vec<char>)
    ensures
        res@ == text@,
{
    let n = text.unicode_len();
    let mut out: Vec<char> = Vec::new();
    let mut i: usize = 0;
    while i < n
        invariant
            i <= n,
            n == text@.len(),
            out@ == text@.take(i as int),
        decreases n - i,
    {
        out.push(text.get_char(i));
        assert(out@ =~= text@.take(i + 1));
        i += 1;
    }
    assert(text@.take(n as int) =~= text@);
    out
}

/// Value of a decimal digit character.
fn digit_value(c: char) -> (res: Option<u64>)
    ensures
        match digit_of(c) {
            Some(d) => res == Some(d as u64),
            None => res is None,
        },
{
    let u = c as u32;
    if 48 <= u && u <= 57 {
        Some((u - 48) as u64)
    } else {
        None
    }
}

/// Reads unsigned decimal text starting at `start`.
fn parse_unsigned(chars: &Vec<char>, start: usize) -> (res: Option<u64>)
    requires
        start <= chars@.len(),
    ensures
        match unsigned_amount(chars@.skip(start as int)) {
            Some(v) => res == Some(v as u64) && v <= 100 * MAX_WHOLE_UNITS + 99,
            None => res is None,
        },
{
    let ghost t = chars@.skip(start as int);
    let n = chars.len() - start;
    proof {
        lemma_dot_position(t);
    }
    let mut acc: u64 = 0;
    let mut i: usize = 0;
    while i < n
        invariant
            i <= n,
            n == t.len(),
            start + n == chars@.len(),
            chars@.len() <= usize::MAX,
            t == chars@.skip(start as int),
            forall|j: int| 0 <= j < i ==> t[j] != '.',
            all_digits(t.take(i as int)),
            acc == digits_value(t.take(i as int)),
            acc <= MAX_WHOLE_UNITS,
            i as int <= dot_position(t) <= t.len(),
            forall|j: int| 0 <= j < dot_position(t) ==> t[j] != '.',
            dot_position(t) < t.len() ==> t[dot_position(t)] == '.',
        ensures
            i == n || chars@[start + i] == '.',
        decreases n - i,
    {
        if chars[start + i] == '.' {
            break;
        }
        assert(t[i as int] == chars@[start + i]);
        assert(i < dot_position(t));
        let ghost whole = t.take(dot_position(t));
        assert(whole[i as int] == t[i as int]);
        assert(t.take(i + 1).drop_last() =~= t.take(i as int));
        assert(whole.take(i + 1) =~= t.take(i + 1));
        let d = match digit_value(chars[start + i]) {
            Some(d) => d,
            None => {
                return None;
            },
        };
        if acc * 10 + d > MAX_WHOLE_UNITS {
            proof {
                lemma_digits_value_grows(whole, i + 1, whole.len() as int);
                assert(whole.take(whole.len() as int) =~= whole);
            }
            return None;
        }
        acc = acc * 10 + d;
        assert forall|j: int| 0 <= j < i + 1 implies (#[trigger] digit_of(
            t.take(i + 1)[j],
        )) is Some by {
            if j < i {
                assert(t.take(i as int)[j] == t.take(i + 1)[j]);
            }
        }
        i += 1;
    }
    assert(i < n ==> t[i as int] == chars@[start + i]);
    assert(i as int == dot_position(t));
    if i == 0 {
        return None;
    }
    let ghost frac = if i < n {
        t.skip(i + 1)
    } else {
        Seq::empty()
    };
    if i == n {
        return Some(acc * 100);
    }
    let f = n - i - 1;
    assert(frac.len() == f);
    if f > 2 {
        return None;
    }
    if f == 0 {
        return Some(acc * 100);
    }
    assert(frac[0] == chars@[start + i + 1]);
    let d1 = match digit_value(chars[start + i + 1]) {
        Some(d) => d,
        None => {
            return None;
        },
    };
    reveal_with_fuel(digits_value, 3);
    assert(frac.drop_last().len() == f - 1);
    if f == 1 {
        assert(frac.last() == frac[0]);
        return Some(acc * 100 + d1 * 10);
    }
    assert(frac[1] == chars@[start + i + 2]);
    let d2 = match digit_value(chars[start + i + 2]) {
        Some(d) => d,
        None => {
            return None;
        },
    };
    assert(frac.last() == frac[1]);
    assert(frac.drop_last().last() == frac[0]);
    assert(frac.drop_last().drop_last().len() == 0);
    Some(acc * 100 + d1 * 10 + d2)
}

/// Reads an amount written in decimal, as hundredths.
pub fn parse_amount(text: &str) -> (res: Option<i64>)
    ensures
        match parsed_amount(text@) {
            Some(v) => res == Some(v as i64) && i64::MIN <= v <= i64::MAX,
            None => res is None,
        },
{
    let chars = chars_of(text);
    if chars.len() > 0 && chars[0] == '-' {
        match parse_unsigned(&chars, 1) {
            Some(v) => Some(-(v as i64)),
            None => None,
        }
    } else if chars.len() > 0 && chars[0] == '+' {
        match parse_unsigned(&chars, 1) {
            Some(v) => Some(v as i64),
            None => None,
        }
    } else {
        assert(chars@.skip(0) =~= chars@);
        match parse_unsigned(&chars, 0) {
            Some(v) => Some(v as i64),
            None => None,
        }
    }
}

/// Whether the calendar of `chrono` reaches the instant `seconds` after the Unix epoch,
/// as `chrono::DateTime::from_timestamp` decides it.
pub uninterp spec fn utc_representable(seconds: i64) -> bool;

/// The instant `seconds` after the Unix epoch written as `YYYY-MM-DD HH:MM:SS UTC` by
/// `chrono::DateTime::format`.
pub uninterp spec fn utc_text(seconds: i64) -> Seq<char>;

/// `chrono::DateTime::from_timestamp` with no nanoseconds: reports whether the instant
/// is within the calendar's range. A function of the number of seconds alone.
#[verifier::external_body]
pub(crate) fn in_calendar(seconds: i64) -> (res: bool)
    ensures
        res == utc_representable(seconds),
{
    chrono::DateTime::from_timestamp(seconds, 0).is_some()
}

/// `chrono::DateTime::format` with the pattern `%Y-%m-%d %H:%M:%S UTC`, on an instant
/// within the calendar's range: a function of the number of seconds alone.
#[verifier::external_body]
pub(crate) fn format_utc(seconds: i64) -> (res: String)
    requires
        utc_representable(seconds),
    ensures
        res@ == utc_text(seconds),
{
    chrono::DateTime::from_timestamp(seconds, 0).unwrap().format("%Y-%m-%d %H:%M:%S UTC").to_string()
}

/// The text shown for an instant: its UTC calendar form, empty where it has none.
pub open spec fn instant_text(seconds: i64) -> Seq<char> {
    if utc_representable(seconds) {
        utc_text(seconds)
    } else {
        Seq::empty()
    }
}

/// Writes an instant for display.
pub fn format_instant(seconds: i64) -> (res: String)
    ensures
        res@ == instant_text(seconds),
{
    if in_calendar(seconds) {
        format_utc(seconds)
    } else {
        proof {
            reveal_strlit("");
        }
        let empty = String::from_str("");
        assert(empty@ =~= Seq::<char>::empty());
        empty
    }
}

/// The instant recorded for a reading stamped `seconds`: the stamp itself where the
/// calendar reaches it, else the instant of the reading's arrival.
pub open spec fn recorded_instant(seconds: i64, now: i64) -> i64 {
    if utc_representable(seconds) {
        seconds
    } else {
        now
    }
}

/// The instant to record for a reading, from whether the calendar reaches its stamp.
pub fn instant_or(seconds: i64, representable: bool, now: i64) -> (res: i64)
    ensures
        res == if representable {
            seconds
        } else {
            now
        },
{
    if representable {
        seconds
    } else {
        now
    }
}

/// The instant recorded for a reading stamped `seconds` that arrived at `now`.
pub fn record_instant(seconds: i64, now: i64) -> (res: i64)
    ensures
        res == recorded_instant(seconds, now),
{
    instant_or(seconds, in_calendar(seconds), now)
}

/// Whether two texts are the same.
pub fn same_text(a: &str, b: &str) -> (res: bool)
    ensures
        res == (a@ == b@),
{
    let left = String::from_str(a);
    let right = String::from_str(b);
    left == right
}

} // verus!
