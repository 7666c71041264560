use vstd::prelude::*;
use crate::models::PublishedDate;

verus! {

/// The decimal digit character for `d` (0 to 9).
pub open spec fn digit_char(d: int) -> char {
    if d == 0 { '0' }
    else if d == 1 { '1' }
    else if d == 2 { '2' }
    else if d == 3 { '3' }
    else if d == 4 { '4' }
    else if d == 5 { '5' }
    else if d == 6 { '6' }
    else if d == 7 { '7' }
    else if d == 8 { '8' }
    else { '9' }
}

/// Decimal notation of a natural number, without leading zeros.
pub open spec fn nat_text(n: nat) -> Seq<char>
    decreases n,
{
    if n < 10 {
        seq![digit_char(n as int)]
    } else {
        nat_text(n / 10).push(digit_char((n % 10) as int))
    }
}

/// Decimal notation of an integer, with a leading `-` when negative.
pub open spec fn int_text(n: int) -> Seq<char> {
    if n < 0 {
        seq!['-'] + nat_text((-n) as nat)
    } else {
        nat_text(n as nat)
    }
}

/// English name of `month` (1 to 12).
pub open spec fn month_name(month: int) -> Seq<char> {
    if month == 1 { "January"@ }
    else if month == 2 { "February"@ }
    else if month == 3 { "March"@ }
    else if month == 4 { "April"@ }
    else if month == 5 { "May"@ }
    else if month == 6 { "June"@ }
    else if month == 7 { "July"@ }
    else if month == 8 { "August"@ }
    else if month == 9 { "September"@ }
    else if month == 10 { "October"@ }
    else if month == 11 { "November"@ }
    else { "December"@ }
}

/// `n` (0 to 99) as exactly two digits.
pub open spec fn two_digits(n: int) -> Seq<char> {
    seq![digit_char(n / 10), digit_char(n % 10)]
}

/// `n` (0 to 9999) as exactly four digits.
pub open spec fn four_digits(n: int) -> Seq<char> {
    seq![digit_char(n / 1000), digit_char(n / 100 % 10), digit_char(n / 10 % 10), digit_char(n % 10)]
}

/// A date written as "Month DD, YYYY", e.g. "November 30, 2024".
pub open spec fn date_text(d: PublishedDate) -> Seq<char> {
    month_name(d.month as int) + seq![' '] + two_digits(d.day as int) + ", "@ + four_digits(
        d.year as int,
    )
}

/// Position of the first line feed at or after `i`, or the length if none.
pub open spec fn newline_from(s: Seq<char>, i: int) -> int
    decreases s.len() - i,
{
    if i >= s.len() {
        s.len() as int
    } else if s[i] == '\n' {
        i
    } else {
        newline_from(s, i + 1)
    }
}

/// The first line of `s`: everything before the first line feed, without a
/// carriage return right before that line feed. A text without a line feed is
/// its own first line; the empty text has the empty first line.
pub open spec fn first_line(s: Seq<char>) -> Seq<char> {
    let k = newline_from(s, 0);
    if k < s.len() && k > 0 && s[k - 1] == '\r' {
        s.subrange(0, k - 1)
    } else {
        s.subrange(0, k)
    }
}

proof fn lemma_newline_from_prefix(s: Seq<char>, t: Seq<char>, i: int, k: int)
    requires
        0 <= i <= k < s.len(),
        s[k] == '\n',
    ensures
        newline_from(s + t, i) == newline_from(s, i),
        i <= newline_from(s, i) <= k,
    decreases k - i,
{
    if s[i] != '\n' {
        lemma_newline_from_prefix(s, t, i + 1, k);
    }
}

/// The first line of a text that holds a line feed does not depend on what
/// follows it: appending any text leaves it unchanged.
pub proof fn lemma_first_line_ignores_rest(s: Seq<char>, t: Seq<char>)
    requires
        exists|k: int| 0 <= k < s.len() && #[trigger] s[k] == '\n',
    ensures
        first_line(s + t) == first_line(s),
{
    let k = choose|k: int| 0 <= k < s.len() && #[trigger] s[k] == '\n';
    lemma_newline_from_prefix(s, t, 0, k);
    let e = newline_from(s, 0);
    assert((s + t).subrange(0, e) =~= s.subrange(0, e));
    if e > 0 {
        assert((s + t).subrange(0, e - 1) =~= s.subrange(0, e - 1));
    }
}

/// The one-character string for digit `d`.
fn digit_str(d: u32) -> (r: &'static str)
    requires
        d < 10,
    ensures
        r@ == seq![digit_char(d as int)],
{
    proof {
        reveal_strlit("0");
        reveal_strlit("1");
        reveal_strlit("2");
        reveal_strlit("3");
        reveal_strlit("4");
        reveal_strlit("5");
        reveal_strlit("6");
        reveal_strlit("7");
        reveal_strlit("8");
        reveal_strlit("9");
    }
    match d {
        0 => "0",
        1 => "1",
        2 => "2",
        3 => "3",
        4 => "4",
        5 => "5",
        6 => "6",
        7 => "7",
        8 => "8",
        _ => "9",
    }
}

/// Appends the decimal notation of `n`.
pub fn append_nat_text(out: &mut String, n: u32)
    ensures
        final(out)@ == old(out)@ + nat_text(n as nat),
    decreases n,
{
    if n >= 10 {
        append_nat_text(out, n / 10);
    }
    out.append(digit_str(n % 10));
    assert(final(out)@ =~= old(out)@ + nat_text(n as nat));
}

/// Appends the decimal notation of `n`, with a leading `-` when negative.
pub fn append_int_text(out: &mut String, n: i32)
    ensures
        final(out)@ == old(out)@ + int_text(n as int),
{
    proof {
        reveal_strlit("-");
    }
    if n < 0 {
        out.append("-");
        let m: u32 = (-(n as i64)) as u32;
        append_nat_text(out, m);
        assert(final(out)@ =~= old(out)@ + int_text(n as int));
    } else {
        append_nat_text(out, n as u32);
    }
}

/// The English name of `month`.
pub fn month_name_str(month: u32) -> (r: &'static str)
    requires
        1 <= month <= 12,
    ensures
        r@ == month_name(month as int),
{
    match month {
        1 => "January",
        2 => "February",
        3 => "March",
        4 => "April",
        5 => "May",
        6 => "June",
        7 => "July",
        8 => "August",
        9 => "September",
        10 => "October",
        11 => "November",
        _ => "December",
    }
}

/// The date as "Month DD, YYYY": full month name, zero-padded day, four-digit year.
pub fn format_date(d: &PublishedDate) -> (r: String)
    requires
        d.wf(),
    ensures
        r@ == date_text(*d),
{
    proof {
        reveal_strlit(" ");
    }
    let mut out = String::from_str(month_name_str(d.month));
    out.append(" ");
    let day = d.day;
    out.append(digit_str(day / 10));
    out.append(digit_str(day % 10));
    out.append(", ");
    let y = d.year as u32;
    out.append(digit_str(y / 1000));
    out.append(digit_str(y / 100 % 10));
    out.append(digit_str(y / 10 % 10));
    out.append(digit_str(y % 10));
    assert(out@ =~= date_text(*d));
    out
}

/// The first line of `content`, used as a post's preview.
pub fn first_line_of(content: &str) -> (r: String)
    ensures
        r@ == first_line(content@),
{
    let n = content.unicode_len();
    let mut i: usize = 0;
    while i < n && content.get_char(i) != '\n'
        invariant
            n == content@.len(),
            i <= n,
            newline_from(content@, 0) == newline_from(content@, i as int),
        decreases n - i,
    {
        i = i + 1;
    }
    assert(newline_from(content@, 0) == i);
    let end = if i < n && i > 0 && content.get_char(i - 1) == '\r' { i - 1 } else { i };
    String::from_str(content.substring_char(0, end))
}

} // verus!
