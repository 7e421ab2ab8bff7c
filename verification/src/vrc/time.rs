//! Formatting of the times and dates that VRChat sends.
use vstd::prelude::*;
use crate::text::{
    decimal, last_index_before, signed_decimal, signed_decimal_text, two_digit_text, two_digits,
};

verus! {

/// Year, month, day, hour and minute, in the time zone of the parsed text, of an
/// RFC 3339 date and time; `None` when `text` is not one.
pub uninterp spec fn rfc3339_local_fields(text: Seq<char>) -> Option<(i32, u32, u32, u32, u32)>;

/// Calls `chrono::DateTime::parse_from_rfc3339` and reads the year, month, day, hour
/// and minute of the result with `chrono::Datelike` and `chrono::Timelike`.
/// Trusted: the result is the named `rfc3339_local_fields` of the text, and the
/// ranges of month (1 to 12), day (1 to 31), hour (0 to 23) and minute (0 to 59) are
/// those that chrono documents for these accessors.
#[verifier::external_body]
fn parse_rfc3339_fields(time: &str) -> (res: Option<(i32, u32, u32, u32, u32)>)
    ensures
        res == rfc3339_local_fields(time@),
        res matches Some((y, mo, d, h, mi)) ==> 1 <= mo <= 12 && 1 <= d <= 31 && h <= 23 && mi
            <= 59,
{
    match chrono::DateTime::parse_from_rfc3339(time) {
        Ok(t) => Some(
            (
                chrono::Datelike::year(&t),
                chrono::Datelike::month(&t),
                chrono::Datelike::day(&t),
                chrono::Timelike::hour(&t),
                chrono::Timelike::minute(&t),
            ),
        ),
        Err(_) => None,
    }
}

/// `dd.mm.yyyy hh:mm`: day, month, hour and minute with two digits, the year as it is.
pub open spec fn time_text(year: i32, month: u32, day: u32, hour: u32, minute: u32) -> Seq<char> {
    two_digits(day as nat) + seq!['.'] + two_digits(month as nat) + seq!['.'] + signed_decimal(
        year as int,
    ) + seq![' '] + two_digits(hour as nat) + seq![':'] + two_digits(minute as nat)
}

/// What `parse_time` shows of `time`, given the fields parsed from it.
pub open spec fn shown_time(time: Seq<char>, parsed: Option<(i32, u32, u32, u32, u32)>) -> Seq<
    char,
> {
    match parsed {
        Some((year, month, day, hour, minute)) => time_text(year, month, day, hour, minute),
        None => time,
    }
}

/// Shows `time` with the fields parsed from it, or unchanged when nothing was parsed.
pub fn show_parsed_time(time: &str, parsed: Option<(i32, u32, u32, u32, u32)>) -> (res: String)
    ensures
        res@ == shown_time(time@, parsed),
{
    proof {
        reveal_strlit(".");
        reveal_strlit(" ");
        reveal_strlit(":");
    }
    match parsed {
        Some((year, month, day, hour, minute)) => {
            let mut res = two_digit_text(day);
            res.append(".");
            res.append(two_digit_text(month).as_str());
            res.append(".");
            res.append(signed_decimal_text(year).as_str());
            res.append(" ");
            res.append(two_digit_text(hour).as_str());
            res.append(":");
            res.append(two_digit_text(minute).as_str());
            res
        },
        None => String::from_str(time),
    }
}

/// Shows an RFC 3339 time as `dd.mm.yyyy hh:mm` in its own time zone; any other
/// text is returned unchanged.
pub fn parse_time(time: &str) -> (res: String)
    ensures
        res@ == shown_time(time@, rfc3339_local_fields(time@)),
        rfc3339_local_fields(time@) is None ==> res@ == time@,
{
    let parsed = parse_rfc3339_fields(time);
    show_parsed_time(time, parsed)
}

/// The parts of `s` separated by `c`, from the last to the first, as `str::rsplit`
/// yields them.
pub open spec fn rsplit(s: Seq<char>, c: char) -> Seq<Seq<char>>
    decreases s.len(),
{
    match s.index_of_last(c) {
        Some(k) => {
            proof {
                s.index_of_last_ensures(c);
            }
            seq![s.skip(k + 1)] + rsplit(s.take(k), c)
        },
        None => seq![s],
    }
}

/// The parts joined with a `.` between each two, in order.
pub open spec fn join_with_dots(parts: Seq<Seq<char>>) -> Seq<char>
    decreases parts.len(),
{
    if parts.len() == 0 {
        seq![]
    } else if parts.len() == 1 {
        parts[0]
    } else {
        join_with_dots(parts.drop_last()) + seq!['.'] + parts.last()
    }
}

/// What `date` makes of `time`: its last three `-`-separated parts, last first,
/// joined with dots.
pub open spec fn date_text(time: Seq<char>) -> Seq<char> {
    join_with_dots(first_three(rsplit(time, '-')))
}

/// The first three elements of `s`, or all of them when there are fewer.
pub open spec fn first_three<A>(s: Seq<A>) -> Seq<A> {
    if s.len() <= 3 {
        s
    } else {
        s.take(3)
    }
}

/// Turns a `yyyy-mm-dd` date into `dd.mm.yyyy`: the last three parts of `time` between
/// `-`, from the last one, joined with dots.
pub fn date(time: &str) -> (res: String)
    ensures
        res@ == date_text(time@),
{
    proof {
        reveal_strlit(".");
        assert("."@ =~= seq!['.']);
    }
    let n = time.unicode_len();
    let mut end: usize = n;
    let mut res = String::new();
    let mut count: usize = 0;
    let ghost mut taken: Seq<Seq<char>> = seq![];
    assert(time@.take(n as int) =~= time@);
    loop
        invariant_except_break
            count < 3,
            count == taken.len(),
            count > 0 ==> res@ == join_with_dots(taken),
            count == 0 ==> res@ == Seq::<char>::empty(),
            rsplit(time@, '-') == taken + rsplit(time@.take(end as int), '-'),
        invariant
            end <= n,
            n == time@.len(),
            "."@ == seq!['.'],
        ensures
            res@ == date_text(time@),
        decreases end,
    {
        let ghost p = time@.take(end as int);
        match last_index_before(time, '-', end) {
            Some(k) => {
                proof {
                    p.index_of_last_ensures('-');
                }
                let piece = time.substring_char(k + 1, end);
                assert(piece@ =~= p.skip(k + 1));
                assert(p.take(k as int) =~= time@.take(k as int));
                let ghost before = taken;
                let ghost old_res = res@;
                if count > 0 {
                    res.append(".");
                }
                res.append(piece);
                proof {
                    taken = taken.push(piece@);
                    assert(taken.drop_last() =~= before);
                    if count > 0 {
                        assert(res@ =~= old_res + seq!['.'] + piece@);
                        assert(join_with_dots(taken) == join_with_dots(before) + seq!['.'] + piece@);
                    }
                    assert(rsplit(p, '-') == seq![p.skip(k + 1)] + rsplit(p.take(k as int), '-'));
                    assert(before + (seq![piece@] + rsplit(time@.take(k as int), '-')) =~= taken
                        + rsplit(time@.take(k as int), '-'));
                    if count == 0 {
                        assert(res@ =~= join_with_dots(taken));
                    }
                }
                count = count + 1;
                end = k;
                if count == 3 {
                    assert(first_three(taken + rsplit(time@.take(end as int), '-')) =~= taken);
                    assert(res@ == date_text(time@));
                    break;
                }
            },
            None => {
                let piece = time.substring_char(0, end);
                assert(piece@ =~= p);
                let ghost before = taken;
                let ghost old_res = res@;
                if count > 0 {
                    res.append(".");
                }
                res.append(piece);
                proof {
                    taken = taken.push(piece@);
                    assert(taken.drop_last() =~= before);
                    if count > 0 {
                        assert(res@ =~= old_res + seq!['.'] + piece@);
                        assert(join_with_dots(taken) == join_with_dots(before) + seq!['.'] + piece@);
                    }
                    assert(rsplit(p, '-') == seq![p]);
                    assert(rsplit(time@, '-') =~= taken);
                    assert(first_three(taken) == taken);
                    if count == 0 {
                        assert(res@ =~= join_with_dots(taken));
                    }
                    assert(res@ == date_text(time@));
                }
                break;
            },
        }
    }
    res
}

/// Splitting `a`, `c`, `b` at the last `c`, where `b` holds no `c`, gives `b` first,
/// then the parts of `a`.
proof fn lemma_rsplit_at_last(a: Seq<char>, b: Seq<char>, c: char)
    requires
        !b.contains(c),
    ensures
        rsplit(a + seq![c] + b, c) == seq![b] + rsplit(a, c),
{
    let s = a + seq![c] + b;
    assert(s[a.len() as int] == c);
    s.index_of_last_ensures(c);
    let k = s.index_of_last(c).unwrap();
    if k > a.len() {
        assert(b[k - a.len() - 1] == c);
        assert(b.contains(c));
    }
    assert(k == a.len());
    assert(s.skip(k + 1) =~= b);
    assert(s.take(k) =~= a);
}

/// A text without `c` is a single part.
proof fn lemma_rsplit_single(a: Seq<char>, c: char)
    requires
        !a.contains(c),
    ensures
        rsplit(a, c) == seq![a],
{
    a.index_of_last_ensures(c);
}

/// `date` turns `year-month-day` into `day.month.year`, whatever the three parts are,
/// as long as they hold no `-`.
pub proof fn lemma_date_of_year_month_day(year: Seq<char>, month: Seq<char>, day: Seq<char>)
    requires
        !year.contains('-'),
        !month.contains('-'),
        !day.contains('-'),
    ensures
        date_text(year + seq!['-'] + month + seq!['-'] + day) == day + seq!['.'] + month + seq!['.']
            + year,
{
    let ym = year + seq!['-'] + month;
    lemma_rsplit_at_last(ym, day, '-');
    lemma_rsplit_at_last(year, month, '-');
    lemma_rsplit_single(year, '-');
    let parts = seq![day] + (seq![month] + seq![year]);
    assert(rsplit(ym + seq!['-'] + day, '-') == parts);
    assert(parts =~= seq![day, month, year]);
    assert(seq![day, month, year].drop_last() =~= seq![day, month]);
    assert(seq![day, month].drop_last() =~= seq![day]);
    assert(first_three(seq![day, month, year]) == seq![day, month, year]);
    assert(join_with_dots(seq![day]) == day);
    assert(join_with_dots(seq![day, month]) == day + seq!['.'] + month);
    assert(join_with_dots(seq![day, month, year]) == day + seq!['.'] + month + seq!['.'] + year);
}

/// A text without `-` is its own date.
pub proof fn lemma_date_without_dash(time: Seq<char>)
    requires
        !time.contains('-'),
    ensures
        date_text(time) == time,
{
    lemma_rsplit_single(time, '-');
}

} // verus!
