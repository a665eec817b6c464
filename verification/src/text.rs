//! Verified text helpers shared by the timeline and notification paths:
//! decimal rendering, ISO calendar-date rendering, list joining and
//! percent-encoding of URL components.

use vstd::prelude::*;

verus! {

/// The decimal digit character for a single digit value.
pub open spec fn digit_char(d: nat) -> char
    recommends
        d < 10,
{
    if d == 0 {
        '0'
    } else if d == 1 {
        '1'
    } else if d == 2 {
        '2'
    } else if d == 3 {
        '3'
    } else if d == 4 {
        '4'
    } else if d == 5 {
        '5'
    } else if d == 6 {
        '6'
    } else if d == 7 {
        '7'
    } else if d == 8 {
        '8'
    } else {
        '9'
    }
}

/// Decimal rendering of a natural number, without leading zeroes.
pub open spec fn dec_str(n: nat) -> Seq<char>
    decreases n,
{
    if n < 10 {
        seq![digit_char(n)]
    } else {
        dec_str(n / 10).push(digit_char(n % 10))
    }
}

/// Decimal rendering of an integer: a leading '-' for negative values.
pub open spec fn int_dec_str(n: int) -> Seq<char> {
    if n < 0 {
        seq!['-'] + dec_str((-n) as nat)
    } else {
        dec_str(n as nat)
    }
}

/// Two-digit zero-padded rendering, for months and days.
pub open spec fn two_digit_str(n: nat) -> Seq<char>
    recommends
        n < 100,
{
    seq![digit_char(n / 10), digit_char(n % 10)]
}

/// Four-digit zero-padded rendering, for years.
pub open spec fn four_digit_str(n: nat) -> Seq<char>
    recommends
        n < 10000,
{
    seq![
        digit_char(n / 1000),
        digit_char(n / 100 % 10),
        digit_char(n / 10 % 10),
        digit_char(n % 10),
    ]
}

/// ISO calendar date `YYYY-MM-DD`, the year zero-padded to four digits.
pub open spec fn ymd_str(y: nat, m: nat, d: nat) -> Seq<char>
    recommends
        y < 10000,
        m < 100,
        d < 100,
{
    four_digit_str(y) + seq!['-'] + two_digit_str(m) + seq!['-'] + two_digit_str(d)
}

fn digit_string(d: u64) -> (r: String)
    requires
        d < 10,
    ensures
        r@ == seq![digit_char(d as nat)],
{
    let s: &str = if d == 0 {
        "0"
    } else if d == 1 {
        "1"
    } else if d == 2 {
        "2"
    } else if d == 3 {
        "3"
    } else if d == 4 {
        "4"
    } else if d == 5 {
        "5"
    } else if d == 6 {
        "6"
    } else if d == 7 {
        "7"
    } else if d == 8 {
        "8"
    } else {
        "9"
    };
    proof {
        reveal_strlit("0");
        reveal_strlit("1");
        reveal_strlit("2");
        reveal_strlit("3");
        reveal_strlit("4");
        reveal_strlit("5");
        reveal_strlit("6");
        reveal_strlit("7");
        reveal_strlit("8");
        reveal_strlit("9");
        assert(s@ =~= seq![digit_char(d as nat)]);
    }
    String::from_str(s)
}

/// Renders an unsigned number in decimal.
pub fn u64_to_string(n: u64) -> (r: String)
    ensures
        r@ == dec_str(n as nat),
    decreases n,
{
    if n < 10 {
        digit_string(n)
    } else {
        let mut s = u64_to_string(n / 10);
        let d = digit_string(n % 10);
        s.append(d.as_str());
        proof {
            assert(s@ =~= dec_str((n / 10) as nat).push(digit_char((n % 10) as nat)));
        }
        s
    }
}

/// Renders a signed number in decimal.
pub fn i64_to_string(n: i64) -> (r: String)
    ensures
        r@ == int_dec_str(n as int),
{
    if n >= 0 {
        u64_to_string(n as u64)
    } else {
        let mag: u64 = ((-(n + 1)) as u64) + 1;
        proof {
            assert(mag as int == -(n as int));
        }
        let mut s = String::from_str("-");
        let rest = u64_to_string(mag);
        s.append(rest.as_str());
        proof {
            reveal_strlit("-");
            assert(s@ =~= int_dec_str(n as int));
        }
        s
    }
}

fn two_digit_string(n: u64) -> (r: String)
    requires
        n < 100,
    ensures
        r@ == two_digit_str(n as nat),
{
    let mut s = digit_string(n / 10);
    let lo = digit_string(n % 10);
    s.append(lo.as_str());
    proof {
        assert(s@ =~= two_digit_str(n as nat));
    }
    s
}

fn four_digit_string(n: u64) -> (r: String)
    requires
        n < 10000,
    ensures
        r@ == four_digit_str(n as nat),
{
    let mut s = digit_string(n / 1000);
    let c2 = digit_string(n / 100 % 10);
    s.append(c2.as_str());
    let c3 = digit_string(n / 10 % 10);
    s.append(c3.as_str());
    let c4 = digit_string(n % 10);
    s.append(c4.as_str());
    proof {
        assert(s@ =~= four_digit_str(n as nat));
    }
    s
}

/// Renders an ISO calendar date `YYYY-MM-DD`, the year zero-padded to
/// four digits.
pub fn format_ymd(y: u64, m: u64, d: u64) -> (r: String)
    requires
        y < 10000,
        m < 100,
        d < 100,
    ensures
        r@ == ymd_str(y as nat, m as nat, d as nat),
{
    let mut s = four_digit_string(y);
    s.append("-");
    let mm = two_digit_string(m);
    s.append(mm.as_str());
    s.append("-");
    let dd = two_digit_string(d);
    s.append(dd.as_str());
    proof {
        reveal_strlit("-");
        assert(s@ =~= ymd_str(y as nat, m as nat, d as nat));
    }
    s
}

/// The parts joined with the separator between consecutive parts.
pub open spec fn join_str(parts: Seq<Seq<char>>, sep: Seq<char>) -> Seq<char>
    decreases parts.len(),
{
    if parts.len() == 0 {
        Seq::empty()
    } else if parts.len() == 1 {
        parts[0]
    } else {
        parts[0] + sep + join_str(parts.drop_first(), sep)
    }
}

proof fn lemma_join_push(parts: Seq<Seq<char>>, sep: Seq<char>, last: Seq<char>)
    ensures
        parts.len() == 0 ==> join_str(parts.push(last), sep) == last,
        parts.len() > 0 ==> join_str(parts.push(last), sep) == join_str(parts, sep) + sep + last,
    decreases parts.len(),
{
    if parts.len() == 0 {
        assert(parts.push(last)[0] =~= last);
        assert(join_str(parts.push(last), sep) =~= last);
    } else if parts.len() == 1 {
        assert(parts.push(last).drop_first() =~= seq![last]);
        assert(parts.push(last)[0] == parts[0]);
        assert(join_str(seq![last], sep) == seq![last][0]);
        assert(seq![last][0] == last);
        assert(join_str(parts.push(last), sep) =~= parts[0] + sep + last);
        assert(join_str(parts, sep) =~= parts[0]);
    } else {
        lemma_join_push(parts.drop_first(), sep, last);
        assert(parts.push(last).drop_first() =~= parts.drop_first().push(last));
        assert(join_str(parts.push(last), sep) =~= parts[0] + sep + join_str(
            parts.drop_first().push(last),
            sep,
        ));
        assert(join_str(parts.push(last), sep) =~= join_str(parts, sep) + sep + last);
    }
}

/// The views of a sequence of strings.
pub open spec fn str_views(items: Seq<String>) -> Seq<Seq<char>> {
    items.map_values(|s: String| s@)
}

/// Joins the items with `", "` between consecutive items.
pub fn join_comma(items: &Vec<String>) -> (r: String)
    ensures
        r@ == join_str(str_views(items@), ", "@),
{
    let ghost parts = str_views(items@);
    let mut out = String::new();
    let mut i: usize = 0;
    while i < items.len()
        invariant
            0 <= i <= items.len(),
            parts == str_views(items@),
            out@ == join_str(parts.take(i as int), ", "@),
        decreases items.len() - i,
    {
        if i > 0 {
            out.append(", ");
        }
        out.append(items[i].as_str());
        proof {
            assert(parts.take(i as int).push(parts[i as int]) =~= parts.take(i + 1));
            lemma_join_push(parts.take(i as int), ", "@, parts[i as int]);
            assert(out@ =~= join_str(parts.take(i + 1), ", "@));
        }
        i = i + 1;
    }
    proof {
        assert(parts.take(items@.len() as int) =~= parts);
    }
    out
}

/// A byte that percent-encoding leaves unchanged: ASCII alphanumerics
/// and `-`, `.`, `_`, `~`.
pub open spec fn is_url_safe(b: u8) -> bool {
    (48 <= b <= 57) || (65 <= b <= 90) || (97 <= b <= 122) || b == 45 || b == 46 || b == 95 || b
        == 126
}

/// Uppercase hexadecimal digit for a value below sixteen.
pub open spec fn hex_upper(d: u8) -> u8
    recommends
        d < 16,
{
    if d < 10 {
        (48 + d) as u8
    } else {
        (55 + d) as u8
    }
}

/// How percent-encoding renders one byte.
pub open spec fn enc_byte(b: u8) -> Seq<u8> {
    if is_url_safe(b) {
        seq![b]
    } else {
        seq![37u8, hex_upper(b / 16), hex_upper(b % 16)]
    }
}

/// Percent-encoding over a byte sequence.
pub open spec fn percent_encoded_bytes(bs: Seq<u8>) -> Seq<u8>
    decreases bs.len(),
{
    if bs.len() == 0 {
        Seq::empty()
    } else {
        enc_byte(bs[0]) + percent_encoded_bytes(bs.drop_first())
    }
}

/// Percent-encoding of a string: its UTF-8 bytes encoded, read back as
/// characters (every encoded byte is ASCII).
pub open spec fn percent_encoded(s: Seq<char>) -> Seq<char> {
    percent_encoded_bytes(vstd::utf8::encode_utf8(s)).map_values(|b: u8| b as char)
}

/// Relies on urlencoding::encode: percent-encodes every UTF-8 byte of the
/// input except ASCII alphanumerics and `-`, `.`, `_`, `~`, using uppercase
/// hexadecimal digits, leaving the remaining bytes in place.
#[verifier::external_body]
pub fn url_encode(s: &str) -> (r: String)
    ensures
        r@ == percent_encoded(s@),
{
    urlencoding::encode(s).into_owned()
}

/// Milliseconds of the last instant of year 9999 (UTC).
pub const MAX_CIVIL_MS: u64 = 253402300799999;

/// The UTC calendar date (year, month, day) of a millisecond timestamp.
pub uninterp spec fn civil_date_of(ms: u64) -> (u64, u64, u64);

/// Relies on chrono::DateTime::from_timestamp_millis and the Datelike
/// accessors year, month and day: the UTC calendar date of the timestamp,
/// with the month in 1..=12 and the day in 1..=31; for timestamps up to the
/// end of year 9999 the conversion succeeds and the year stays in
/// 1970..=9999.
#[verifier::external_body]
pub fn civil_date_from_ms(ms: u64) -> (r: (u64, u64, u64))
    requires
        ms <= MAX_CIVIL_MS,
    ensures
        r == civil_date_of(ms),
        1970 <= r.0 <= 9999,
        1 <= r.1 <= 12,
        1 <= r.2 <= 31,
{
    let dt = chrono::DateTime::from_timestamp_millis(ms as i64).expect("timestamp is in range");
    (dt.year() as u64, dt.month() as u64, dt.day() as u64)
}


/// The characters of a string, in order.
pub fn str_chars(s: &str) -> (v: Vec<char>)
    ensures
        v@ == s@,
{
    let n = s.unicode_len();
    let mut v: Vec<char> = Vec::new();
    let mut i: usize = 0;
    while i < n
        invariant
            0 <= i <= n,
            n == s@.len(),
            v@ == s@.take(i as int),
        decreases n - i,
    {
        v.push(s.get_char(i));
        proof {
            assert(v@ =~= s@.take(i + 1));
        }
        i = i + 1;
    }
    proof {
        assert(s@.take(s@.len() as int) =~= s@);
    }
    v
}

/// Whether the window of `chars` starting at `k` equals `pat`.
pub fn window_eq(chars: &Vec<char>, k: usize, pat: &Vec<char>) -> (r: bool)
    requires
        k + pat@.len() <= chars@.len(),
    ensures
        r == (chars@.subrange(k as int, k + pat@.len()) == pat@),
{
    let total = chars.len();
    let mut j: usize = 0;
    while j < pat.len()
        invariant
            0 <= j <= pat@.len(),
            k + pat@.len() <= chars@.len(),
            total == chars@.len(),
            forall|i: int| 0 <= i < j ==> chars@[k + i] == pat@[i],
        decreases pat@.len() - j,
    {
        if chars[k + j] != pat[j] {
            proof {
                assert(chars@.subrange(k as int, k + pat@.len())[j as int] != pat@[j as int]);
            }
            return false;
        }
        j = j + 1;
    }
    proof {
        assert(chars@.subrange(k as int, k + pat@.len()) =~= pat@);
    }
    true
}


/// Concatenation of string slices.
pub fn cat2(a: &str, b: &str) -> (r: String)
    ensures
        r@ == a@ + b@,
{
    let mut s = String::from_str(a);
    s.append(b);
    s
}

pub fn cat3(a: &str, b: &str, c: &str) -> (r: String)
    ensures
        r@ == a@ + b@ + c@,
{
    let mut s = String::from_str(a);
    s.append(b);
    s.append(c);
    s
}

pub fn cat4(a: &str, b: &str, c: &str, d: &str) -> (r: String)
    ensures
        r@ == a@ + b@ + c@ + d@,
{
    let mut s = String::from_str(a);
    s.append(b);
    s.append(c);
    s.append(d);
    s
}

pub fn cat6(a: &str, b: &str, c: &str, d: &str, e: &str, f: &str) -> (r: String)
    ensures
        r@ == a@ + b@ + c@ + d@ + e@ + f@,
{
    let mut s = String::from_str(a);
    s.append(b);
    s.append(c);
    s.append(d);
    s.append(e);
    s.append(f);
    s
}

} // verus!

use chrono::Datelike;
