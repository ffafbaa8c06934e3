use vstd::prelude::*;

use crate::clock::{read_local_clock, LocalReading};
use crate::text::{decimal_text, push_decimal};

verus! {

/// The calendar fields of a local date and time that the fuzzy clock reads.
pub struct DateTimeFields {
    /// Month of the year, 1 to 12.
    pub month: u32,
    /// Day of the month, 1 to 31.
    pub day: u32,
    /// Day of the week counted from Monday, 0 to 6.
    pub weekday: u32,
    /// Hour of the day, 0 to 23.
    pub hour: u32,
    /// Minute of the hour, 0 to 59.
    pub minute: u32,
}

impl DateTimeFields {
    pub open spec fn in_range(self) -> bool {
        &&& 1 <= self.month <= 12
        &&& 1 <= self.day <= 31
        &&& self.weekday < 7
        &&& self.hour < 24
        &&& self.minute < 60
    }
}

/// A local date and time, as the fields that the fuzzy clock reads.
#[derive(Debug, Clone, Copy, PartialEq, Eq)]
pub struct LocalDateTime {
    month: u32,
    day: u32,
    weekday: u32,
    hour: u32,
    minute: u32,
}

impl View for LocalDateTime {
    type V = DateTimeFields;

    closed spec fn view(&self) -> DateTimeFields {
        DateTimeFields {
            month: self.month,
            day: self.day,
            weekday: self.weekday,
            hour: self.hour,
            minute: self.minute,
        }
    }
}

impl LocalDateTime {
    #[verifier::type_invariant]
    spec fn fields_in_range(self) -> bool {
        self@.in_range()
    }

    /// Builds a date and time from its fields; `None` when a field is out of range.
    pub fn new(month: u32, day: u32, weekday: u32, hour: u32, minute: u32) -> (r: Option<
        LocalDateTime,
    >)
        ensures
            r is Some <==> (DateTimeFields { month, day, weekday, hour, minute }).in_range(),
            r matches Some(d) ==> d@ == (DateTimeFields { month, day, weekday, hour, minute }),
    {
        if 1 <= month && month <= 12 && 1 <= day && day <= 31 && weekday < 7 && hour < 24
            && minute < 60 {
            Some(LocalDateTime { month, day, weekday, hour, minute })
        } else {
            None
        }
    }

    pub fn month(&self) -> (r: u32)
        ensures
            r == self@.month,
    {
        self.month
    }

    pub fn day(&self) -> (r: u32)
        ensures
            r == self@.day,
    {
        self.day
    }

    pub fn weekday(&self) -> (r: u32)
        ensures
            r == self@.weekday,
    {
        self.weekday
    }

    pub fn hour(&self) -> (r: u32)
        ensures
            r == self@.hour,
    {
        self.hour
    }

    pub fn minute(&self) -> (r: u32)
        ensures
            r == self@.minute,
    {
        self.minute
    }
}

/// The English word for an hour on a twelve-hour clock.
pub open spec fn hour_word(hour: u32) -> Seq<char> {
    if hour == 1 || hour == 13 { "ONE"@ }
    else if hour == 2 || hour == 14 { "TWO"@ }
    else if hour == 3 || hour == 15 { "THREE"@ }
    else if hour == 4 || hour == 16 { "FOUR"@ }
    else if hour == 5 || hour == 17 { "FIVE"@ }
    else if hour == 6 || hour == 18 { "SIX"@ }
    else if hour == 7 || hour == 19 { "SEVEN"@ }
    else if hour == 8 || hour == 20 { "EIGHT"@ }
    else if hour == 9 || hour == 21 { "NINE"@ }
    else if hour == 10 || hour == 22 { "TEN"@ }
    else if hour == 11 || hour == 23 { "ELEVEN"@ }
    else if hour == 12 || hour == 0 { "TWELVE"@ }
    else { "UNKNOWN"@ }
}

/// Names an hour of the day (0 to 23) by its word on a twelve-hour clock.
pub fn hour_to_word(hour: u32) -> (word: &'static str)
    ensures
        word@ == hour_word(hour),
{
    match hour {
        1 | 13 => "ONE",
        2 | 14 => "TWO",
        3 | 15 => "THREE",
        4 | 16 => "FOUR",
        5 | 17 => "FIVE",
        6 | 18 => "SIX",
        7 | 19 => "SEVEN",
        8 | 20 => "EIGHT",
        9 | 21 => "NINE",
        10 | 22 => "TEN",
        11 | 23 => "ELEVEN",
        12 | 0 => "TWELVE",
        _ => "UNKNOWN",
    }
}

/// The hour on a twelve-hour clock, 1 to 12.
pub open spec fn hour12(hour: u32) -> u32 {
    if hour % 12 == 0 {
        12
    } else {
        hour % 12
    }
}

/// The hour after `h` on a twelve-hour clock.
pub open spec fn next_hour12(h: u32) -> u32 {
    if h == 12 {
        1
    } else {
        (h + 1) as u32
    }
}

/// The time of day in words, to the nearest five minutes.
pub open spec fn time_phrase(hour: u32, minute: u32) -> Seq<char> {
    let h = hour_word(hour12(hour));
    let n = hour_word(next_hour12(hour12(hour)));
    if minute <= 2 { h + " O'CLOCK"@ }
    else if minute <= 7 { "FIVE past "@ + h }
    else if minute <= 12 { "TEN past "@ + h }
    else if minute <= 17 { "QUARTER past "@ + h }
    else if minute <= 22 { "TWENTY past "@ + h }
    else if minute <= 27 { "TWENTY FIVE past "@ + h }
    else if minute <= 32 { "HALF past "@ + h }
    else if minute <= 37 { "TWENTY FIVE to "@ + n }
    else if minute <= 42 { "TWENTY to "@ + n }
    else if minute <= 47 { "QUARTER to "@ + n }
    else if minute <= 52 { "TEN to "@ + n }
    else if minute <= 57 { "FIVE to "@ + n }
    else if minute <= 59 { n + " O'CLOCK"@ }
    else { Seq::empty() }
}

/// The day of the week, abbreviated in capitals.
pub open spec fn weekday_name(weekday: u32) -> Seq<char> {
    if weekday == 0 { "MON"@ }
    else if weekday == 1 { "TUE"@ }
    else if weekday == 2 { "WED"@ }
    else if weekday == 3 { "THU"@ }
    else if weekday == 4 { "FRI"@ }
    else if weekday == 5 { "SAT"@ }
    else { "SUN"@ }
}

/// The month, abbreviated in capitals.
pub open spec fn month_name(month: u32) -> Seq<char> {
    if month == 1 { "JAN"@ }
    else if month == 2 { "FEB"@ }
    else if month == 3 { "MAR"@ }
    else if month == 4 { "APR"@ }
    else if month == 5 { "MAY"@ }
    else if month == 6 { "JUNE"@ }
    else if month == 7 { "JULY"@ }
    else if month == 8 { "AUG"@ }
    else if month == 9 { "SEPT"@ }
    else if month == 10 { "OCT"@ }
    else if month == 11 { "NOV"@ }
    else if month == 12 { "DEC"@ }
    else { ""@ }
}

/// The date in words, such as `MON JAN 5,`.
pub open spec fn date_phrase(d: DateTimeFields) -> Seq<char> {
    weekday_name(d.weekday) + " "@ + month_name(d.month) + " "@ + decimal_text(d.day as nat) + ","@
}

/// The whole fuzzy date, such as `MON JAN 5, FIVE past TWO`.
pub open spec fn fuzzy_date_text(d: DateTimeFields) -> Seq<char> {
    date_phrase(d) + " "@ + time_phrase(d.hour, d.minute)
}

fn weekday_str(weekday: u32) -> (r: &'static str)
    ensures
        r@ == weekday_name(weekday),
{
    match weekday {
        0 => "MON",
        1 => "TUE",
        2 => "WED",
        3 => "THU",
        4 => "FRI",
        5 => "SAT",
        _ => "SUN",
    }
}

fn month_str(month: u32) -> (r: &'static str)
    ensures
        r@ == month_name(month),
{
    match month {
        1 => "JAN",
        2 => "FEB",
        3 => "MAR",
        4 => "APR",
        5 => "MAY",
        6 => "JUNE",
        7 => "JULY",
        8 => "AUG",
        9 => "SEPT",
        10 => "OCT",
        11 => "NOV",
        12 => "DEC",
        _ => "",
    }
}

/// The time part of the fuzzy date, such as `QUARTER to THREE`.
pub fn get_time_part(now: &LocalDateTime) -> (r: String)
    ensures
        r@ == time_phrase(now@.hour, now@.minute),
{
    let minute = now.minute();
    let h = now.hour() % 12;
    let hour: u32 = if h == 0 { 12 } else { h };
    let next_hour: u32 = if hour == 12 { 1 } else { hour + 1 };
    let hour = hour_to_word(hour);
    let next_hour = hour_to_word(next_hour);
    if minute <= 2 {
        String::from_str(hour).concat(" O'CLOCK")
    } else if minute <= 7 {
        String::from_str("FIVE past ").concat(hour)
    } else if minute <= 12 {
        String::from_str("TEN past ").concat(hour)
    } else if minute <= 17 {
        String::from_str("QUARTER past ").concat(hour)
    } else if minute <= 22 {
        String::from_str("TWENTY past ").concat(hour)
    } else if minute <= 27 {
        String::from_str("TWENTY FIVE past ").concat(hour)
    } else if minute <= 32 {
        String::from_str("HALF past ").concat(hour)
    } else if minute <= 37 {
        String::from_str("TWENTY FIVE to ").concat(next_hour)
    } else if minute <= 42 {
        String::from_str("TWENTY to ").concat(next_hour)
    } else if minute <= 47 {
        String::from_str("QUARTER to ").concat(next_hour)
    } else if minute <= 52 {
        String::from_str("TEN to ").concat(next_hour)
    } else if minute <= 57 {
        String::from_str("FIVE to ").concat(next_hour)
    } else if minute <= 59 {
        String::from_str(next_hour).concat(" O'CLOCK")
    } else {
        String::new()
    }
}

/// The date part of the fuzzy date, such as `MON JAN 5,`.
pub fn get_date_part(now: &LocalDateTime) -> (r: String)
    ensures
        r@ == date_phrase(now@),
{
    let mut out = String::from_str(weekday_str(now.weekday()));
    out.append(" ");
    out.append(month_str(now.month()));
    out.append(" ");
    push_decimal(&mut out, now.day());
    out.append(",");
    out
}

/// The fuzzy date of a given moment, such as `MON JAN 5, FIVE past TWO`.
pub fn fuzzy_date_of(now: &LocalDateTime) -> (r: String)
    ensures
        r@ == fuzzy_date_text(now@),
{
    let date_part = get_date_part(now);
    let time_part = get_time_part(now);
    let mut out = date_part;
    out.append(" ");
    out.append(time_part.as_str());
    out
}

/// The fuzzy date of the present moment on the local clock.
pub fn get_fuzzy_date() -> (r: String)
    ensures
        exists|d: DateTimeFields| d.in_range() && r@ == fuzzy_date_text(d),
{
    let reading = read_local_clock();
    let r = fuzzy_date_of_reading(&reading);
    assert(reading_fields(reading).in_range());
    r
}

/// The fields of a clock reading that the fuzzy clock reads.
pub open spec fn reading_fields(r: LocalReading) -> DateTimeFields {
    DateTimeFields { month: r.month, day: r.day, weekday: r.weekday, hour: r.hour, minute: r.minute }
}

/// The fuzzy date of a reading of the local clock.
pub fn fuzzy_date_of_reading(reading: &LocalReading) -> (r: String)
    requires
        reading.in_range(),
    ensures
        r@ == fuzzy_date_text(reading_fields(*reading)),
{
    match LocalDateTime::new(reading.month, reading.day, reading.weekday, reading.hour, reading.minute) {
        Some(d) => {
            let r = fuzzy_date_of(&d);
            assert(d@.in_range());
            r
        },
        None => {
            assert(false);
            String::new()
        },
    }
}

/// Every hour of the day has a word, the same as its hour on the
/// twelve-hour clock.
pub proof fn lemma_hour_word_of_day(hour: u32)
    requires
        hour < 24,
    ensures
        hour_word(hour) == hour_word(hour12(hour)),
        hour_word(hour) != "UNKNOWN"@,
{
    reveal_strlit("UNKNOWN");
    reveal_strlit("ONE");
    reveal_strlit("TWO");
    reveal_strlit("THREE");
    reveal_strlit("FOUR");
    reveal_strlit("FIVE");
    reveal_strlit("SIX");
    reveal_strlit("SEVEN");
    reveal_strlit("EIGHT");
    reveal_strlit("NINE");
    reveal_strlit("TEN");
    reveal_strlit("ELEVEN");
    reveal_strlit("TWELVE");
    assert(hour_word(hour)[0] != 'U');
}

/// The fuzzy time reads a twelve-hour clock: an hour and the hour twelve
/// later read alike.
pub proof fn lemma_time_phrase_twelve_hours(hour: u32, minute: u32)
    requires
        hour < 12,
    ensures
        time_phrase(hour, minute) == time_phrase((hour + 12) as u32, minute),
{
    assert(hour12(hour) == hour12((hour + 12) as u32));
}

/// The fuzzy time is the time to the nearest five minutes: a minute reads
/// as the nearest multiple of five, and the last two minutes of an hour read
/// as the next hour o'clock.
pub proof fn lemma_time_phrase_nearest_five(hour: u32, minute: u32)
    requires
        hour < 24,
        minute < 60,
    ensures
        minute < 58 ==> time_phrase(hour, minute) == time_phrase(hour, (5 * ((minute + 2) / 5)) as u32),
        minute >= 58 ==> time_phrase(hour, minute) == time_phrase(((hour + 1) % 24) as u32, 0),
{
    if minute >= 58 {
        assert(next_hour12(hour12(hour)) == hour12(((hour + 1) % 24) as u32));
    }
}

/// For every minute of an hour the fuzzy time has words.
pub proof fn lemma_time_phrase_not_empty(hour: u32, minute: u32)
    requires
        minute < 60,
    ensures
        time_phrase(hour, minute).len() > 0,
{
    reveal_strlit(" O'CLOCK");
    reveal_strlit("FIVE past ");
    reveal_strlit("TEN past ");
    reveal_strlit("QUARTER past ");
    reveal_strlit("TWENTY past ");
    reveal_strlit("TWENTY FIVE past ");
    reveal_strlit("HALF past ");
    reveal_strlit("TWENTY FIVE to ");
    reveal_strlit("TWENTY to ");
    reveal_strlit("QUARTER to ");
    reveal_strlit("TEN to ");
    reveal_strlit("FIVE to ");
}

/// Whether `t` occurs in `s`.
pub open spec fn contains_text(s: Seq<char>, t: Seq<char>) -> bool {
    exists|i: int| 0 <= i && i + t.len() <= s.len() && #[trigger] s.subrange(i, i + t.len()) == t
}

/// Whether `N` is followed by `K` at position `i` of `s`.
spec fn nk_at(s: Seq<char>, i: int) -> bool {
    s[i] == 'N' && s[i + 1] == 'K'
}

/// `s` holds no `N` followed by `K`.
spec fn no_nk(s: Seq<char>) -> bool {
    forall|i: int| 0 <= i < s.len() - 1 ==> !#[trigger] nk_at(s, i)
}

proof fn lemma_no_nk_concat(a: Seq<char>, b: Seq<char>)
    requires
        no_nk(a),
        no_nk(b),
        a.len() > 0 && b.len() > 0 ==> !(a.last() == 'N' && b[0] == 'K'),
    ensures
        no_nk(a + b),
{
    let s = a + b;
    assert forall|i: int| 0 <= i < s.len() - 1 implies !#[trigger] nk_at(s, i) by {
        if i + 1 < a.len() {
            assert(nk_at(s, i) == nk_at(a, i));
        } else if i >= a.len() {
            assert(nk_at(s, i) == nk_at(b, i - a.len()));
        } else {
            assert(s[i] == a.last());
            assert(s[i + 1] == b[0]);
        }
    }
}

proof fn lemma_unknown_needs_nk(s: Seq<char>)
    requires
        contains_text(s, "UNKNOWN"@),
    ensures
        !no_nk(s),
{
    reveal_strlit("UNKNOWN");
    let t = "UNKNOWN"@;
    let i = choose|i: int| 0 <= i && i + t.len() <= s.len() && #[trigger] s.subrange(i, i + t.len()) == t;
    assert(s.subrange(i, i + t.len())[1] == 'N');
    assert(s.subrange(i, i + t.len())[2] == 'K');
    assert(nk_at(s, i + 1));
}

proof fn lemma_hour_word_no_nk(h: u32)
    requires
        1 <= h <= 12,
    ensures
        no_nk(hour_word(h)),
        hour_word(h).len() > 0,
        hour_word(h)[0] != 'K',
{
    reveal_strlit("ONE");
    reveal_strlit("TWO");
    reveal_strlit("THREE");
    reveal_strlit("FOUR");
    reveal_strlit("FIVE");
    reveal_strlit("SIX");
    reveal_strlit("SEVEN");
    reveal_strlit("EIGHT");
    reveal_strlit("NINE");
    reveal_strlit("TEN");
    reveal_strlit("ELEVEN");
    reveal_strlit("TWELVE");
    let w = hour_word(h);
    assert forall|i: int| 0 <= i < w.len() - 1 implies !#[trigger] nk_at(w, i) by {
        assert(w[i + 1] != 'K');
    }
}

/// The fuzzy time never reads `UNKNOWN`: every minute of every hour names
/// one of the twelve hours.
pub proof fn lemma_time_phrase_never_unknown(hour: u32, minute: u32)
    ensures
        !contains_text(time_phrase(hour, minute), "UNKNOWN"@),
{
    let h = hour12(hour);
    let n = next_hour12(h);
    lemma_hour_word_no_nk(h);
    lemma_hour_word_no_nk(n);
    let hw = hour_word(h);
    let nw = hour_word(n);
    reveal_strlit(" O'CLOCK");
    reveal_strlit("FIVE past ");
    reveal_strlit("TEN past ");
    reveal_strlit("QUARTER past ");
    reveal_strlit("TWENTY past ");
    reveal_strlit("TWENTY FIVE past ");
    reveal_strlit("HALF past ");
    reveal_strlit("TWENTY FIVE to ");
    reveal_strlit("TWENTY to ");
    reveal_strlit("QUARTER to ");
    reveal_strlit("TEN to ");
    reveal_strlit("FIVE to ");
    let lits = seq![
        " O'CLOCK"@, "FIVE past "@, "TEN past "@, "QUARTER past "@, "TWENTY past "@,
        "TWENTY FIVE past "@, "HALF past "@, "TWENTY FIVE to "@, "TWENTY to "@,
        "QUARTER to "@, "TEN to "@, "FIVE to "@,
    ];
    assert forall|k: int| 0 <= k < lits.len() implies no_nk(#[trigger] lits[k]) && lits[k].len() > 0
        && lits[k][0] != 'K' by {
        let l = lits[k];
        assert forall|i: int| 0 <= i < l.len() - 1 implies !#[trigger] nk_at(l, i) by {
            assert(l[i + 1] != 'K' || l[i] != 'N');
        }
    }
    let p = time_phrase(hour, minute);
    if minute <= 2 {
        lemma_no_nk_concat(hw, lits[0]);
    } else if minute <= 7 {
        lemma_no_nk_concat(lits[1], hw);
    } else if minute <= 12 {
        lemma_no_nk_concat(lits[2], hw);
    } else if minute <= 17 {
        lemma_no_nk_concat(lits[3], hw);
    } else if minute <= 22 {
        lemma_no_nk_concat(lits[4], hw);
    } else if minute <= 27 {
        lemma_no_nk_concat(lits[5], hw);
    } else if minute <= 32 {
        lemma_no_nk_concat(lits[6], hw);
    } else if minute <= 37 {
        lemma_no_nk_concat(lits[7], nw);
    } else if minute <= 42 {
        lemma_no_nk_concat(lits[8], nw);
    } else if minute <= 47 {
        lemma_no_nk_concat(lits[9], nw);
    } else if minute <= 52 {
        lemma_no_nk_concat(lits[10], nw);
    } else if minute <= 57 {
        lemma_no_nk_concat(lits[11], nw);
    } else if minute <= 59 {
        lemma_no_nk_concat(nw, lits[0]);
    } else {
        assert(p.len() == 0);
    }
    if contains_text(p, "UNKNOWN"@) {
        lemma_unknown_needs_nk(p);
    }
}

/// Each hour of the twelve-hour clock is named by its English word.
pub proof fn lemma_hour_words_name_the_hours()
    ensures
        hour_word(1) == "ONE"@,
        hour_word(2) == "TWO"@,
        hour_word(3) == "THREE"@,
        hour_word(4) == "FOUR"@,
        hour_word(5) == "FIVE"@,
        hour_word(6) == "SIX"@,
        hour_word(7) == "SEVEN"@,
        hour_word(8) == "EIGHT"@,
        hour_word(9) == "NINE"@,
        hour_word(10) == "TEN"@,
        hour_word(11) == "ELEVEN"@,
        hour_word(12) == "TWELVE"@,
        forall|h: u32| 12 < h < 24 ==> #[trigger] hour_word(h) == hour_word((h - 12) as u32),
        hour_word(0) == "TWELVE"@,
{
}

/// Different hours of the twelve-hour clock have different words, so the
/// fuzzy clock never names one hour by another's word.
pub proof fn lemma_hour_words_distinct(h1: u32, h2: u32)
    requires
        h1 < 24,
        h2 < 24,
        hour12(h1) != hour12(h2),
    ensures
        hour_word(h1) != hour_word(h2),
{
    reveal_strlit("ONE");
    reveal_strlit("TWO");
    reveal_strlit("THREE");
    reveal_strlit("FOUR");
    reveal_strlit("FIVE");
    reveal_strlit("SIX");
    reveal_strlit("SEVEN");
    reveal_strlit("EIGHT");
    reveal_strlit("NINE");
    reveal_strlit("TEN");
    reveal_strlit("ELEVEN");
    reveal_strlit("TWELVE");
    let a = hour_word(h1);
    let b = hour_word(h2);
    if a == b {
        assert(a.len() == b.len());
        assert(a[0] == b[0]);
        assert(a[a.len() - 1] == b[b.len() - 1]);
        assert(a.len() > 1 ==> a[1] == b[1]);
    }
}

/// The fuzzy time names the hour it is in for the first half of the hour,
/// and the next hour from the thirty-third minute on.
pub proof fn lemma_time_phrase_names_the_hour(hour: u32, minute: u32)
    requires
        hour < 24,
        minute < 60,
    ensures
        minute <= 2 ==> time_phrase(hour, minute) == hour_word(hour) + " O'CLOCK"@,
        3 <= minute <= 32 ==> time_phrase(hour, minute).subrange(
            time_phrase(hour, minute).len() - hour_word(hour).len(),
            time_phrase(hour, minute).len() as int,
        ) == hour_word(hour),
        33 <= minute <= 57 ==> time_phrase(hour, minute).subrange(
            time_phrase(hour, minute).len() - hour_word(((hour + 1) % 24) as u32).len(),
            time_phrase(hour, minute).len() as int,
        ) == hour_word(((hour + 1) % 24) as u32),
        58 <= minute ==> time_phrase(hour, minute) == hour_word(((hour + 1) % 24) as u32) + " O'CLOCK"@,
{
    lemma_hour_word_of_day(hour);
    lemma_hour_word_of_day(((hour + 1) % 24) as u32);
    assert(next_hour12(hour12(hour)) == hour12(((hour + 1) % 24) as u32));
    let p = time_phrase(hour, minute);
    let hw = hour_word(hour);
    let nw = hour_word(((hour + 1) % 24) as u32);
    if 3 <= minute <= 32 {
        assert(p.subrange(p.len() - hw.len(), p.len() as int) =~= hw);
    }
    if 33 <= minute <= 57 {
        assert(p.subrange(p.len() - nw.len(), p.len() as int) =~= nw);
    }
}

} // verus!
