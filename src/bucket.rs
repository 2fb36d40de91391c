//! The calendar bucket, year and month, that a modification time falls in.
use vstd::prelude::*;
use vstd::string::StringExecFns;
use chrono::Datelike;

verus! {

/// A year and a lowercase English month name, taken together from one
/// instant read at UTC.
#[derive(Clone, Debug)]
pub struct TemporalBucket {
    pub year: String,
    pub month: String,
}

/// The modification time cannot be read as a calendar date.
#[derive(Clone, Copy, Debug, PartialEq, Eq, Structural)]
pub struct DateTimeError;

/// The lowercase English name of month `m` (1 for January).
pub open spec fn month_name(m: int) -> Seq<char> {
    if m == 1 {
        "january"@
    } else if m == 2 {
        "february"@
    } else if m == 3 {
        "march"@
    } else if m == 4 {
        "april"@
    } else if m == 5 {
        "may"@
    } else if m == 6 {
        "june"@
    } else if m == 7 {
        "july"@
    } else if m == 8 {
        "august"@
    } else if m == 9 {
        "september"@
    } else if m == 10 {
        "october"@
    } else if m == 11 {
        "november"@
    } else {
        "december"@
    }
}

/// The twelve month names.
pub open spec fn month_names() -> Set<Seq<char>> {
    Set::new(|s: Seq<char>| exists|m: int| 1 <= m <= 12 && s == month_name(m))
}

/// The name of month `m`, 1 for January.
pub fn month_text(m: u32) -> (r: String)
    requires
        1 <= m <= 12,
    ensures
        r@ == month_name(m as int),
{
    let name = if m == 1 {
        "january"
    } else if m == 2 {
        "february"
    } else if m == 3 {
        "march"
    } else if m == 4 {
        "april"
    } else if m == 5 {
        "may"
    } else if m == 6 {
        "june"
    } else if m == 7 {
        "july"
    } else if m == 8 {
        "august"
    } else if m == 9 {
        "september"
    } else if m == 10 {
        "october"
    } else if m == 11 {
        "november"
    } else {
        "december"
    };
    String::from_str(name)
}

/// The decimal digit for `d`.
pub open spec fn digit_char(d: nat) -> char {
    if d == 0 {
        '0'
    } else if d == 1 {
        '1'
    } else if d == 2 {
        '2'
    } else if d == 3 {
        '3'
    } else if d == 4 {
        '4'
    } else if d == 5 {
        '5'
    } else if d == 6 {
        '6'
    } else if d == 7 {
        '7'
    } else if d == 8 {
        '8'
    } else {
        '9'
    }
}

/// The decimal digits of `n`, without leading zeros.
pub open spec fn decimal(n: nat) -> Seq<char>
    decreases n,
{
    if n < 10 {
        seq![digit_char(n)]
    } else {
        decimal(n / 10).push(digit_char(n % 10))
    }
}

/// A year as text: its decimal digits, after a `-` where it is negative.
pub open spec fn year_text_of(y: int) -> Seq<char> {
    if y < 0 {
        seq!['-'] + decimal((-y) as nat)
    } else {
        decimal(y as nat)
    }
}

fn digit_text(d: u32) -> (r: String)
    requires
        d < 10,
    ensures
        r@ == seq![digit_char(d as nat)],
{
    let s = if d == 0 {
        "0"
    } else if d == 1 {
        "1"
    } else if d == 2 {
        "2"
    } else if d == 3 {
        "3"
    } else if d == 4 {
        "4"
    } else if d == 5 {
        "5"
    } else if d == 6 {
        "6"
    } else if d == 7 {
        "7"
    } else if d == 8 {
        "8"
    } else {
        "9"
    };
    proof {
        reveal_strlit("0");
        reveal_strlit("1");
        reveal_strlit("2");
        reveal_strlit("3");
        reveal_strlit("4");
        reveal_strlit("5");
        reveal_strlit("6");
        reveal_strlit("7");
        reveal_strlit("8");
        reveal_strlit("9");
    }
    let r = String::from_str(s);
    assert(r@ =~= seq![digit_char(d as nat)]);
    r
}

/// The decimal digits of `n`.
pub fn decimal_text(n: u32) -> (r: String)
    ensures
        r@ == decimal(n as nat),
    decreases n,
{
    if n < 10 {
        digit_text(n)
    } else {
        let mut s = decimal_text(n / 10);
        let d = digit_text(n % 10);
        s.append(d.as_str());
        assert(s@ =~= decimal(n as nat));
        s
    }
}

/// A year as text, as `i32`'s decimal formatting writes it.
pub fn year_text(y: i32) -> (r: String)
    ensures
        r@ == year_text_of(y as int),
{
    if y < 0 {
        let a: u32 = (0 - (y as i64)) as u32;
        let digits = decimal_text(a);
        let r = String::from_str("-").concat(digits.as_str());
        proof {
            reveal_strlit("-");
        }
        assert(r@ =~= year_text_of(y as int));
        r
    } else {
        decimal_text(y as u32)
    }
}

/// The year and month (1 to 12) at UTC of a count of seconds since the Unix
/// epoch, or none where chrono cannot represent that instant.
pub uninterp spec fn utc_year_month(secs: int) -> Option<(int, int)>;

/// Relies on `chrono::DateTime::from_timestamp` (none out of its range) and
/// on `Datelike::year` and `Datelike::month` (1 to 12) of the instant found.
#[verifier::external_body]
fn civil_year_month(secs: i64) -> (r: Option<(i32, u32)>)
    ensures
        match r {
            Some((y, m)) => utc_year_month(secs as int) == Some((y as int, m as int)) && 1 <= m
                <= 12,
            None => utc_year_month(secs as int) is None,
        },
{
    chrono::DateTime::from_timestamp(secs, 0).map(|d| (d.year(), d.month()))
}

/// The bucket of a year and a month (1 to 12).
pub open spec fn bucket_of(y: int, m: int) -> (Seq<char>, Seq<char>) {
    (year_text_of(y), month_name(m))
}

impl View for TemporalBucket {
    type V = (Seq<char>, Seq<char>);

    /// The year and month name that this bucket holds.
    open spec fn view(&self) -> (Seq<char>, Seq<char>) {
        (self.year@, self.month@)
    }
}

impl TemporalBucket {
    /// The bucket of a year and a month (1 to 12).
    pub fn from_year_month(y: i32, m: u32) -> (r: TemporalBucket)
        requires
            1 <= m <= 12,
        ensures
            r@ == bucket_of(y as int, m as int),
    {
        TemporalBucket { year: year_text(y), month: month_text(m) }
    }
}

/// The bucket of a modification time given in seconds since the Unix epoch,
/// read at UTC.
pub open spec fn bucket_spec(secs: int) -> Option<(Seq<char>, Seq<char>)> {
    match utc_year_month(secs) {
        Some((y, m)) => Some(bucket_of(y, m)),
        None => None,
    }
}

/// The bucket of a modification time in seconds since the Unix epoch, read
/// at UTC; an error where that instant is out of the calendar's range.
pub fn bucket_for(secs: i64) -> (r: Result<TemporalBucket, DateTimeError>)
    ensures
        match r {
            Ok(b) => bucket_spec(secs as int) == Some(b@),
            Err(_) => bucket_spec(secs as int) is None,
        },
        r matches Ok(b) ==> month_names().contains(b.month@),
{
    match civil_year_month(secs) {
        Some((y, m)) => {
            let b = TemporalBucket::from_year_month(y, m);
            assert(month_names().contains(b.month@)) by {
                assert(1 <= m as int <= 12 && b.month@ == month_name(m as int));
            }
            Ok(b)
        },
        None => Err(DateTimeError),
    }
}

} // verus!
