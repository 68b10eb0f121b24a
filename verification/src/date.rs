use vstd::prelude::*;

verus! {

/// A calendar date as plain numbers: year, month and day.
#[derive(Clone, Copy, Debug, PartialEq, Eq, Structural)]
pub struct DateYmd {
    pub year: i32,
    pub month: u32,
    pub day: u32,
}

/// The date that chrono reads out of a `YYYY/MM/DD HH:MM` string, or `None`
/// where chrono rejects the string. The result depends on the characters
/// alone.
pub uninterp spec fn pubmed_datetime_parsed(s: Seq<char>) -> Option<DateYmd>;

/// Relies on chrono::NaiveDateTime::parse_from_str with the fixed format
/// "%Y/%m/%d %H:%M": success and the parsed values depend on the input
/// characters alone, and a successful parse carries a valid calendar date
/// (Datelike::month ranges over 1 to 12 and Datelike::day over 1 to 31).
#[verifier::external_body]
pub(crate) fn parse_datetime_ymd_hm(s: &str) -> (r: Option<DateYmd>)
    ensures
        r == pubmed_datetime_parsed(s@),
        r matches Some(d) ==> 1 <= d.month <= 12 && 1 <= d.day <= 31,
{
    match chrono::NaiveDateTime::parse_from_str(s, "%Y/%m/%d %H:%M") {
        Ok(dt) => {
            let date = chrono::NaiveDateTime::date(&dt);
            Some(DateYmd {
                year: chrono::Datelike::year(&date),
                month: chrono::Datelike::month(&date),
                day: chrono::Datelike::day(&date),
            })
        },
        Err(_) => None,
    }
}

/// The decimal digit character for `d`.
pub open spec fn digit_char(d: int) -> char {
    if d == 0 {
        '0'
    } else if d == 1 {
        '1'
    } else if d == 2 {
        '2'
    } else if d == 3 {
        '3'
    } else if d == 4 {
        '4'
    } else if d == 5 {
        '5'
    } else if d == 6 {
        '6'
    } else if d == 7 {
        '7'
    } else if d == 8 {
        '8'
    } else {
        '9'
    }
}

/// `n` written with exactly two decimal digits, zero-padded.
pub open spec fn two_digits(n: int) -> Seq<char> {
    seq![digit_char(n / 10), digit_char(n % 10)]
}

/// `n` written with exactly four decimal digits, zero-padded.
pub open spec fn four_digits(n: int) -> Seq<char> {
    seq![
        digit_char(n / 1000),
        digit_char((n / 100) % 10),
        digit_char((n / 10) % 10),
        digit_char(n % 10),
    ]
}

/// The ISO calendar form `YYYY-MM-DD` of a date.
pub open spec fn iso_date(d: DateYmd) -> Seq<char> {
    four_digits(d.year as int) + seq!['-'] + two_digits(d.month as int) + seq!['-'] + two_digits(
        d.day as int,
    )
}

fn digit_str(d: u32) -> (r: &'static str)
    requires
        d < 10,
    ensures
        r@ == seq![digit_char(d as int)],
{
    proof {
        reveal_strlit("0");
        reveal_strlit("1");
        reveal_strlit("2");
        reveal_strlit("3");
        reveal_strlit("4");
        reveal_strlit("5");
        reveal_strlit("6");
        reveal_strlit("7");
        reveal_strlit("8");
        reveal_strlit("9");
    }
    let r = if d == 0 {
        "0"
    } else if d == 1 {
        "1"
    } else if d == 2 {
        "2"
    } else if d == 3 {
        "3"
    } else if d == 4 {
        "4"
    } else if d == 5 {
        "5"
    } else if d == 6 {
        "6"
    } else if d == 7 {
        "7"
    } else if d == 8 {
        "8"
    } else {
        "9"
    };
    proof {
        assert(r@ =~= seq![digit_char(d as int)]);
    }
    r
}

fn push_two_digits(out: &mut String, n: u32)
    requires
        n < 100,
    ensures
        final(out)@ == old(out)@ + two_digits(n as int),
{
    out.append(digit_str(n / 10));
    out.append(digit_str(n % 10));
    proof {
        assert(out@ =~= old(out)@ + two_digits(n as int));
    }
}

fn push_four_digits(out: &mut String, n: u32)
    requires
        n < 10000,
    ensures
        final(out)@ == old(out)@ + four_digits(n as int),
{
    out.append(digit_str(n / 1000));
    out.append(digit_str((n / 100) % 10));
    out.append(digit_str((n / 10) % 10));
    out.append(digit_str(n % 10));
    proof {
        assert(out@ =~= old(out)@ + four_digits(n as int));
    }
}

/// Writes a date as `YYYY-MM-DD`, each part zero-padded to its full width.
pub fn format_iso_date(d: DateYmd) -> (r: String)
    requires
        0 <= d.year <= 9999,
        d.month < 100,
        d.day < 100,
    ensures
        r@ == iso_date(d),
{
    let mut out = String::new();
    push_four_digits(&mut out, d.year as u32);
    out.append("-");
    push_two_digits(&mut out, d.month);
    out.append("-");
    push_two_digits(&mut out, d.day);
    proof {
        reveal_strlit("-");
        assert(out@ =~= iso_date(d));
    }
    out
}

/// Reads a `YYYY/MM/DD HH:MM` timestamp and returns its calendar date as
/// `YYYY-MM-DD`. Returns `None` where chrono rejects the string, or where
/// the year does not fit four digits.
pub fn normalize_datetime(s: &str) -> (r: Option<String>)
    ensures
        match r {
            Some(t) => pubmed_datetime_parsed(s@) matches Some(d) && 0 <= d.year <= 9999 && t@
                == iso_date(d),
            None => !(pubmed_datetime_parsed(s@) matches Some(d) && 0 <= d.year <= 9999),
        },
{
    match parse_datetime_ymd_hm(s) {
        Some(d) => {
            if 0 <= d.year && d.year <= 9999 {
                Some(format_iso_date(d))
            } else {
                None
            }
        },
        None => None,
    }
}

} // verus!
