//! Text helpers: decimal notation, UTC time text, and concatenation.

use vstd::prelude::*;

verus! {

/// The decimal digit character for `d < 10`.
pub open spec fn digit_char(d: nat) -> char {
    if d == 0 { '0' }
    else if d == 1 { '1' }
    else if d == 2 { '2' }
    else if d == 3 { '3' }
    else if d == 4 { '4' }
    else if d == 5 { '5' }
    else if d == 6 { '6' }
    else if d == 7 { '7' }
    else if d == 8 { '8' }
    else { '9' }
}

/// Decimal notation of `n`, most significant digit first, no leading zeros.
pub open spec fn decimal(n: nat) -> Seq<char>
    decreases n,
{
    if n < 10 {
        seq![digit_char(n)]
    } else {
        decimal(n / 10) + seq![digit_char(n % 10)]
    }
}

/// The text of a UTC instant given in milliseconds since the epoch, written
/// `YYYY-MM-DD HH:MM:SS`, or `None` where the instant is out of the
/// calendar's range.
pub uninterp spec fn utc_text(ms: int) -> Option<Seq<char>>;

/// The one-character text of digit `d`.
fn digit_text(d: u64) -> (r: String)
    requires
        d < 10,
    ensures
        r@ == seq![digit_char(d as nat)],
{
    proof {
        reveal_strlit("0");
        reveal_strlit("1");
        reveal_strlit("2");
        reveal_strlit("3");
        reveal_strlit("4");
        reveal_strlit("5");
        reveal_strlit("6");
        reveal_strlit("7");
        reveal_strlit("8");
        reveal_strlit("9");
    }
    let r = if d == 0 { String::from_str("0") }
        else if d == 1 { String::from_str("1") }
        else if d == 2 { String::from_str("2") }
        else if d == 3 { String::from_str("3") }
        else if d == 4 { String::from_str("4") }
        else if d == 5 { String::from_str("5") }
        else if d == 6 { String::from_str("6") }
        else if d == 7 { String::from_str("7") }
        else if d == 8 { String::from_str("8") }
        else { String::from_str("9") };
    assert(r@ =~= seq![digit_char(d as nat)]);
    r
}

/// The decimal notation of `n`.
pub fn decimal_text(n: u64) -> (r: String)
    ensures
        r@ == decimal(n as nat),
{
    let mut m: u64 = n / 10;
    let mut acc = digit_text(n % 10);
    while m > 0
        invariant
            decimal(n as nat) == (if m == 0 { Seq::<char>::empty() } else { decimal(m as nat) }) + acc@,
        decreases m,
    {
        let mut s = digit_text(m % 10);
        s.append(acc.as_str());
        proof {
            if m >= 10 {
                assert(decimal(m as nat) == decimal((m / 10) as nat) + seq![digit_char((m % 10) as nat)]);
                assert(decimal((m / 10) as nat) + seq![digit_char((m % 10) as nat)] + acc@
                    =~= decimal((m / 10) as nat) + s@);
            } else {
                assert(Seq::<char>::empty() + s@ =~= decimal(m as nat) + acc@);
            }
        }
        acc = s;
        m = m / 10;
    }
    assert(Seq::<char>::empty() + acc@ =~= acc@);
    acc
}

/// First millisecond of the year 0 (proleptic Gregorian, UTC).
pub open spec fn year_zero_ms() -> int {
    -62167219200000
}

/// Last millisecond of the year 9999 (UTC).
pub open spec fn year_9999_end_ms() -> int {
    253402300799999
}

/// Relies on chrono's `DateTime::from_timestamp_millis` and
/// `format("%Y-%m-%d %H:%M:%S")`: the result depends on `ms` alone, and
/// `from_timestamp_millis` gives `None` only for a day outside chrono's date
/// range, which holds every year from 0 through 9999.
#[verifier::external_body]
pub(crate) fn format_utc_millis(ms: i64) -> (r: Option<String>)
    ensures
        match r {
            Some(s) => utc_text(ms as int) == Some(s@),
            None => utc_text(ms as int) is None,
        },
        year_zero_ms() <= ms <= year_9999_end_ms() ==> r is Some,
{
    match chrono::DateTime::from_timestamp_millis(ms) {
        Some(d) => Some(d.format("%Y-%m-%d %H:%M:%S").to_string()),
        None => None,
    }
}

/// `a`, then `b`.
pub fn concat2(a: &str, b: &String) -> (r: String)
    ensures
        r@ == a@ + b@,
{
    let mut r = String::from_str(a);
    r.append(b.as_str());
    r
}

/// `a`, then `b`, then `c`.
pub fn concat3(a: &str, b: &String, c: &str) -> (r: String)
    ensures
        r@ == a@ + b@ + c@,
{
    let mut r = String::from_str(a);
    r.append(b.as_str());
    r.append(c);
    r
}

} // verus!
