use vstd::prelude::*;
use crate::text::{push_char, replace_all, replace_spec};
use crate::settings::{all_digits, digits_value, is_digit, lemma_decimal_digits};

verus! {

/// The digits of `n` in base ten, most significant first.
pub open spec fn decimal(n: nat) -> Seq<char>
    decreases n,
{
    if n < 10 {
        seq![digit_char(n)]
    } else {
        decimal(n / 10).push(digit_char(n % 10))
    }
}

pub open spec fn digit_char(d: nat) -> char {
    ((d + 48) as u32) as char
}

/// `n` in base ten, padded with zeros on the left to at least `width`
/// digits.
pub open spec fn padded_decimal(n: nat, width: nat) -> Seq<char> {
    let d = decimal(n);
    if d.len() < width {
        Seq::new((width - d.len()) as nat, |i: int| '0') + d
    } else {
        d
    }
}

fn digit(d: u64) -> (c: char)
    requires
        d < 10,
    ensures
        c == digit_char(d as nat),
{
    match d {
        0 => '0',
        1 => '1',
        2 => '2',
        3 => '3',
        4 => '4',
        5 => '5',
        6 => '6',
        7 => '7',
        8 => '8',
        _ => '9',
    }
}

proof fn lemma_decimal_len(n: nat)
    ensures
        decimal(n).len() >= 1,
        n >= 10 ==> decimal(n).len() >= 2,
    decreases n,
{
    if n >= 10 {
        lemma_decimal_len(n / 10);
    }
}

/// Appends `n` in base ten.
fn push_decimal(out: &mut String, n: u64)
    ensures
        final(out)@ == old(out)@ + decimal(n as nat),
    decreases n,
{
    if n >= 10 {
        push_decimal(out, n / 10);
        push_char(out, digit(n % 10));
        proof {
            assert(old(out)@ + decimal(n as nat) =~= old(out)@ + decimal((n / 10) as nat) + seq![
                digit_char((n % 10) as nat),
            ]);
        }
    } else {
        push_char(out, digit(n));
        proof {
            assert(old(out)@ + decimal(n as nat) =~= old(out)@.push(digit_char(n as nat)));
        }
    }
}

/// `n` in base ten, at least two digits wide.
fn push_two_digits(out: &mut String, n: u64)
    ensures
        final(out)@ == old(out)@ + padded_decimal(n as nat, 2),
{
    if n < 10 {
        push_char(out, '0');
        push_char(out, digit(n));
        proof {
            assert(decimal(n as nat) == seq![digit_char(n as nat)]);
            assert(padded_decimal(n as nat, 2) =~= seq!['0', digit_char(n as nat)]);
        }
    } else {
        push_decimal(out, n);
        proof {
            lemma_decimal_len(n as nat);
        }
    }
}

/// `n` in base ten (`u64::to_string`).
pub fn u64_to_decimal(n: u64) -> (r: String)
    ensures
        r@ == decimal(n as nat),
{
    let mut out = String::new();
    push_decimal(&mut out, n);
    proof {
        assert(Seq::<char>::empty() + decimal(n as nat) =~= decimal(n as nat));
    }
    out
}

/// A track position as minutes and seconds, "MM:SS"; negative values count
/// as zero and minutes may grow past two digits.
pub open spec fn format_duration_spec(seconds: int) -> Seq<char> {
    let s = if seconds < 0 {
        0
    } else {
        seconds
    };
    padded_decimal((s / 60) as nat, 2) + seq![':'] + padded_decimal((s % 60) as nat, 2)
}

pub fn format_duration(seconds: i64) -> (r: String)
    ensures
        r@ == format_duration_spec(seconds as int),
{
    let s: u64 = if seconds < 0 {
        0
    } else {
        seconds as u64
    };
    let mut out = String::new();
    push_two_digits(&mut out, s / 60);
    push_char(&mut out, ':');
    push_two_digits(&mut out, s % 60);
    proof {
        assert(out@ =~= format_duration_spec(seconds as int));
    }
    out
}

/// Zeros in front of a run of digits do not change its value.
proof fn lemma_leading_zeros(z: Seq<char>, d: Seq<char>)
    requires
        forall|i: int| 0 <= i < z.len() ==> #[trigger] z[i] == '0',
    ensures
        digits_value(z + d) == digits_value(d),
    decreases z.len() + d.len(),
{
    if d.len() == 0 {
        assert(z + d =~= z);
        if z.len() > 0 {
            lemma_leading_zeros(z.drop_last(), d);
            assert(z.drop_last() + d =~= z.drop_last());
            assert(z.last() == '0');
            assert(('0' as nat) == 48);
        }
    } else {
        lemma_leading_zeros(z, d.drop_last());
        assert((z + d).drop_last() =~= z + d.drop_last());
        assert((z + d).last() == d.last());
    }
}

/// A number padded with zeros to a width: only digits, at least that
/// wide, and still worth the number; a number below 100 padded to two
/// places takes exactly two.
pub proof fn lemma_padded_decimal(n: nat, width: nat)
    ensures
        all_digits(padded_decimal(n, width)),
        digits_value(padded_decimal(n, width)) == n,
        padded_decimal(n, width).len() >= width,
        padded_decimal(n, width).len() >= 1,
        n < 100 && width == 2 ==> padded_decimal(n, width).len() == 2,
{
    lemma_decimal_digits(n);
    let d = decimal(n);
    if d.len() < width {
        let z = Seq::new((width - d.len()) as nat, |i: int| '0');
        lemma_leading_zeros(z, d);
        let p = z + d;
        assert(('0' as nat) == 48);
        assert forall|i: int| 0 <= i < p.len() implies is_digit(#[trigger] p[i]) by {
            if i >= z.len() {
                assert(p[i] == d[i - z.len()]);
            }
        }
    }
    if n < 100 {
        if n >= 10 {
            assert(decimal(n / 10).len() == 1);
        }
    }
}

/// A track position reads as minutes, a colon and exactly two digits of
/// seconds: the seconds below sixty, and minutes times sixty plus seconds
/// giving back the position (a negative one counting as zero).
pub proof fn lemma_duration_reads_back(seconds: int)
    ensures
        ({
            let t = format_duration_spec(seconds);
            let minutes = t.take(t.len() - 3);
            let secs = t.skip(t.len() - 2);
            &&& t.len() >= 5
            &&& t[t.len() - 3] == ':'
            &&& all_digits(minutes) && all_digits(secs)
            &&& digits_value(secs) < 60
            &&& digits_value(minutes) * 60 + digits_value(secs) == if seconds < 0 {
                0
            } else {
                seconds
            }
        }),
{
    let s = if seconds < 0 {
        0
    } else {
        seconds
    };
    let a = padded_decimal((s / 60) as nat, 2);
    let b = padded_decimal((s % 60) as nat, 2);
    lemma_padded_decimal((s / 60) as nat, 2);
    lemma_padded_decimal((s % 60) as nat, 2);
    let t = a + seq![':'] + b;
    assert(t == format_duration_spec(seconds));
    assert(t.take(t.len() - 3) =~= a);
    assert(t.skip(t.len() - 2) =~= b);
    assert(t[t.len() - 3] == ':');
}

/// The recorder's clock: "HH:MM:SS" once an hour has passed, else "MM:SS",
/// each part at least two digits.
pub open spec fn record_clock_spec(secs: nat) -> Seq<char> {
    if secs >= 3600 {
        padded_decimal(secs / 3600, 2) + seq![':'] + padded_decimal((secs % 3600) / 60, 2) + seq![
            ':',
        ] + padded_decimal(secs % 60, 2)
    } else {
        padded_decimal(secs / 60, 2) + seq![':'] + padded_decimal(secs % 60, 2)
    }
}

pub fn record_clock(duration_secs: u64) -> (r: String)
    ensures
        r@ == record_clock_spec(duration_secs as nat),
{
    let mut out = String::new();
    if duration_secs >= 3600 {
        push_two_digits(&mut out, duration_secs / 3600);
        push_char(&mut out, ':');
        push_two_digits(&mut out, (duration_secs % 3600) / 60);
        push_char(&mut out, ':');
        push_two_digits(&mut out, duration_secs % 60);
    } else {
        push_two_digits(&mut out, duration_secs / 60);
        push_char(&mut out, ':');
        push_two_digits(&mut out, duration_secs % 60);
    }
    proof {
        assert(out@ =~= record_clock_spec(duration_secs as nat));
    }
    out
}

/// The recorder's clock reads back as the elapsed time: under an hour,
/// minutes and seconds of two digits each; from an hour on, hours,
/// minutes and seconds, minutes and seconds of two digits below sixty.
pub proof fn lemma_record_clock_reads_back(secs: nat)
    ensures
        ({
            let t = record_clock_spec(secs);
            let tail = t.skip(t.len() - 5);
            let mm = tail.take(2);
            let ss = tail.skip(3);
            &&& t.len() >= 5
            &&& tail[2] == ':'
            &&& all_digits(mm) && all_digits(ss)
            &&& digits_value(mm) < 60 && digits_value(ss) < 60
            &&& secs < 3600 ==> t.len() == 5 && digits_value(mm) * 60 + digits_value(ss) == secs
            &&& secs >= 3600 ==> t.len() >= 8 && t[t.len() - 6] == ':' && all_digits(
                t.take(t.len() - 6),
            ) && digits_value(t.take(t.len() - 6)) * 3600 + digits_value(mm) * 60
                + digits_value(ss) == secs
        }),
{
    let t = record_clock_spec(secs);
    lemma_padded_decimal(secs % 60, 2);
    let c = padded_decimal(secs % 60, 2);
    if secs >= 3600 {
        lemma_padded_decimal(secs / 3600, 2);
        lemma_padded_decimal((secs % 3600) / 60, 2);
        let a = padded_decimal(secs / 3600, 2);
        let b = padded_decimal((secs % 3600) / 60, 2);
        assert(t == a + seq![':'] + b + seq![':'] + c);
        let tail = t.skip(t.len() - 5);
        assert(tail =~= b + seq![':'] + c);
        assert(tail.take(2) =~= b);
        assert(tail.skip(3) =~= c);
        assert(t.take(t.len() - 6) =~= a);
        assert(t[t.len() - 6] == ':');
        assert(secs / 3600 * 3600 + (secs % 3600) / 60 * 60 + secs % 60 == secs);
    } else {
        lemma_padded_decimal(secs / 60, 2);
        let a = padded_decimal(secs / 60, 2);
        assert(t == a + seq![':'] + c);
        let tail = t.skip(t.len() - 5);
        assert(tail =~= t);
        assert(tail.take(2) =~= a);
        assert(tail.skip(3) =~= c);
    }
}

/// The clock of the pill, "HH:MM".
pub fn clock_text(hour: u32, minute: u32) -> (r: String)
    ensures
        r@ == padded_decimal(hour as nat, 2) + seq![':'] + padded_decimal(minute as nat, 2),
{
    let mut out = String::new();
    push_two_digits(&mut out, hour as u64);
    push_char(&mut out, ':');
    push_two_digits(&mut out, minute as u64);
    proof {
        assert(out@ =~= padded_decimal(hour as nat, 2) + seq![':'] + padded_decimal(
            minute as nat,
            2,
        ));
    }
    out
}

/// Spanish name of a weekday, Monday being 0.
pub fn weekday_es(weekday: u32) -> (r: &'static str)
    requires
        weekday < 7,
    ensures
        weekday == 0 ==> r@ == "Lunes"@,
        weekday == 1 ==> r@ == "Martes"@,
        weekday == 2 ==> r@ == "Miércoles"@,
        weekday == 3 ==> r@ == "Jueves"@,
        weekday == 4 ==> r@ == "Viernes"@,
        weekday == 5 ==> r@ == "Sábado"@,
        weekday == 6 ==> r@ == "Domingo"@,
{
    match weekday {
        0 => "Lunes",
        1 => "Martes",
        2 => "Miércoles",
        3 => "Jueves",
        4 => "Viernes",
        5 => "Sábado",
        _ => "Domingo",
    }
}

/// English name of a weekday, Monday being 0.
pub fn weekday_en(weekday: u32) -> (r: &'static str)
    requires
        weekday < 7,
    ensures
        weekday == 0 ==> r@ == "Monday"@,
        weekday == 1 ==> r@ == "Tuesday"@,
        weekday == 2 ==> r@ == "Wednesday"@,
        weekday == 3 ==> r@ == "Thursday"@,
        weekday == 4 ==> r@ == "Friday"@,
        weekday == 5 ==> r@ == "Saturday"@,
        weekday == 6 ==> r@ == "Sunday"@,
{
    match weekday {
        0 => "Monday",
        1 => "Tuesday",
        2 => "Wednesday",
        3 => "Thursday",
        4 => "Friday",
        5 => "Saturday",
        _ => "Sunday",
    }
}

/// Spanish name of a month, January being 1; empty for other numbers.
pub fn month_es(month: u32) -> (r: &'static str)
    ensures
        month == 1 ==> r@ == "Enero"@,
        month == 2 ==> r@ == "Febrero"@,
        month == 3 ==> r@ == "Marzo"@,
        month == 4 ==> r@ == "Abril"@,
        month == 5 ==> r@ == "Mayo"@,
        month == 6 ==> r@ == "Junio"@,
        month == 7 ==> r@ == "Julio"@,
        month == 8 ==> r@ == "Agosto"@,
        month == 9 ==> r@ == "Septiembre"@,
        month == 10 ==> r@ == "Octubre"@,
        month == 11 ==> r@ == "Noviembre"@,
        month == 12 ==> r@ == "Diciembre"@,
        !(1 <= month <= 12) ==> r@ == ""@,
{
    match month {
        1 => "Enero",
        2 => "Febrero",
        3 => "Marzo",
        4 => "Abril",
        5 => "Mayo",
        6 => "Junio",
        7 => "Julio",
        8 => "Agosto",
        9 => "Septiembre",
        10 => "Octubre",
        11 => "Noviembre",
        12 => "Diciembre",
        _ => "",
    }
}

pub open spec fn weekday_es_spec(weekday: int) -> Seq<char> {
    if weekday == 0 {
        "Lunes"@
    } else if weekday == 1 {
        "Martes"@
    } else if weekday == 2 {
        "Miércoles"@
    } else if weekday == 3 {
        "Jueves"@
    } else if weekday == 4 {
        "Viernes"@
    } else if weekday == 5 {
        "Sábado"@
    } else {
        "Domingo"@
    }
}

pub open spec fn month_es_spec(month: int) -> Seq<char> {
    if month == 1 {
        "Enero"@
    } else if month == 2 {
        "Febrero"@
    } else if month == 3 {
        "Marzo"@
    } else if month == 4 {
        "Abril"@
    } else if month == 5 {
        "Mayo"@
    } else if month == 6 {
        "Junio"@
    } else if month == 7 {
        "Julio"@
    } else if month == 8 {
        "Agosto"@
    } else if month == 9 {
        "Septiembre"@
    } else if month == 10 {
        "Octubre"@
    } else if month == 11 {
        "Noviembre"@
    } else if month == 12 {
        "Diciembre"@
    } else {
        ""@
    }
}

/// The date line of the idle hover card, "Lunes, 4 de Marzo".
pub fn hover_date(weekday: u32, day: u32, month: u32) -> (r: String)
    requires
        weekday < 7,
    ensures
        r@ == weekday_es_spec(weekday as int) + ", "@ + decimal(day as nat) + " de "@
            + month_es_spec(month as int),
{
    let w = weekday_es(weekday);
    let m = month_es(month);
    let d = u64_to_decimal(day as u64);
    String::from_str(w).concat(", ").concat(d.as_str()).concat(" de ").concat(m)
}

/// Part of the day, as the greetings split it.
#[derive(Clone, Copy, Debug, PartialEq, Eq, Structural)]
pub enum DayPart {
    Morning,
    Afternoon,
    Evening,
}

/// The idle hover card: night before 6, morning before 12, afternoon
/// before 18, night again after.
pub open spec fn hover_greeting_spec(hour: u32) -> DayPart {
    if hour < 6 {
        DayPart::Evening
    } else if hour < 12 {
        DayPart::Morning
    } else if hour < 18 {
        DayPart::Afternoon
    } else {
        DayPart::Evening
    }
}

/// The greeting text and icon of the idle hover card.
pub fn get_greeting_info(hour: u32) -> (r: (&'static str, &'static str))
    ensures
        hour < 6 ==> r.0@ == "¡Buenas noches, Moi!"@ && r.1@ == "sparkles.svg"@,
        6 <= hour < 12 ==> r.0@ == "¡Buenos días, Moi!"@ && r.1@ == "sun.svg"@,
        12 <= hour < 18 ==> r.0@ == "¡Buenas tardes, Moi!"@ && r.1@ == "sun.svg"@,
        hour >= 18 ==> r.0@ == "¡Buenas noches, Moi!"@ && r.1@ == "moon.svg"@,
{
    if hour < 6 {
        ("¡Buenas noches, Moi!", "sparkles.svg")
    } else if hour < 12 {
        ("¡Buenos días, Moi!", "sun.svg")
    } else if hour < 18 {
        ("¡Buenas tardes, Moi!", "sun.svg")
    } else {
        ("¡Buenas noches, Moi!", "moon.svg")
    }
}

/// The dashboard: morning from 5 to 11, afternoon from 12 to 18, evening
/// otherwise.
pub open spec fn dashboard_part_spec(hour: u32) -> DayPart {
    if 5 <= hour <= 11 {
        DayPart::Morning
    } else if 12 <= hour <= 18 {
        DayPart::Afternoon
    } else {
        DayPart::Evening
    }
}

/// The dashboard greeting: its icon, the key of its text in the language
/// bundle, and the text to use when there is no bundle.
pub fn format_greeting(hour: u32) -> (r: (&'static str, &'static str, &'static str))
    ensures
        dashboard_part_spec(hour) == DayPart::Morning ==> r.0@ == "sun.svg"@ && r.1@
            == "dashboard.greeting_morning"@ && r.2@ == "Buenos días"@,
        dashboard_part_spec(hour) == DayPart::Afternoon ==> r.0@ == "sun.svg"@ && r.1@
            == "dashboard.greeting_afternoon"@ && r.2@ == "Buenas tardes"@,
        dashboard_part_spec(hour) == DayPart::Evening ==> r.0@ == "moon.svg"@ && r.1@
            == "dashboard.greeting_evening"@ && r.2@ == "Buenas noches"@,
{
    if 5 <= hour && hour <= 11 {
        ("sun.svg", "dashboard.greeting_morning", "Buenos días")
    } else if 12 <= hour && hour <= 18 {
        ("sun.svg", "dashboard.greeting_afternoon", "Buenas tardes")
    } else {
        ("moon.svg", "dashboard.greeting_evening", "Buenas noches")
    }
}

pub open spec fn weekday_en_spec(weekday: int) -> Seq<char> {
    if weekday == 0 {
        "Monday"@
    } else if weekday == 1 {
        "Tuesday"@
    } else if weekday == 2 {
        "Wednesday"@
    } else if weekday == 3 {
        "Thursday"@
    } else if weekday == 4 {
        "Friday"@
    } else if weekday == 5 {
        "Saturday"@
    } else {
        "Sunday"@
    }
}

/// The weekday's name from the language bundle's list, or its English
/// name when the list is too short.
pub open spec fn weekday_name_spec(weekday: int, days: Seq<String>) -> Seq<char> {
    if weekday < days.len() {
        days[weekday]@
    } else {
        weekday_en_spec(weekday)
    }
}

/// The month's name from the bundle's list (January first), or nothing.
pub open spec fn month_name_spec(month: int, months: Seq<String>) -> Seq<char> {
    let i = if month >= 1 {
        month - 1
    } else {
        0
    };
    if i < months.len() {
        months[i]@
    } else {
        Seq::empty()
    }
}

/// The dashboard's date line: the bundle's template with `{weekday}`,
/// `{day}` and `{month}` filled in; without a template, "Monday, March 4"
/// in English and "Lunes, 4 de Marzo" otherwise.
pub open spec fn dashboard_date_spec(
    weekday: int,
    month: int,
    day: nat,
    days: Seq<String>,
    months: Seq<String>,
    template: Seq<char>,
    english: bool,
) -> Seq<char> {
    let w = weekday_name_spec(weekday, days);
    let m = month_name_spec(month, months);
    let d = decimal(day);
    if template != "datetime.header_date_format"@ && template.len() > 0 {
        replace_spec(
            replace_spec(replace_spec(template, "{weekday}"@, w), "{day}"@, d),
            "{month}"@,
            m,
        )
    } else if english {
        w + ", "@ + m + " "@ + d
    } else {
        w + ", "@ + d + " de "@ + m
    }
}

/// Builds the dashboard's date line. `template` is what the bundle holds
/// under the key `datetime.header_date_format` (the key itself when it
/// holds nothing).
pub fn format_dashboard_date(
    weekday: u32,
    month: u32,
    day: u32,
    days: &Vec<String>,
    months: &Vec<String>,
    template: &str,
    english: bool,
) -> (r: String)
    requires
        weekday < 7,
    ensures
        r@ == dashboard_date_spec(
            weekday as int,
            month as int,
            day as nat,
            days@,
            months@,
            template@,
            english,
        ),
{
    let w = if (weekday as usize) < days.len() {
        days[weekday as usize].clone()
    } else {
        String::from_str(weekday_en(weekday))
    };
    let mi: usize = if month >= 1 {
        (month - 1) as usize
    } else {
        0
    };
    let m = if mi < months.len() {
        months[mi].clone()
    } else {
        String::new()
    };
    let d = u64_to_decimal(day as u64);
    proof {
        if !((weekday as usize) < days@.len()) {
            assert(w@ == weekday_en_spec(weekday as int));
        }
    }
    let key = String::from_str("datetime.header_date_format");
    let given = String::from_str(template);
    proof {
        reveal_strlit("{weekday}");
        reveal_strlit("{day}");
        reveal_strlit("{month}");
    }
    if given != key && template.unicode_len() > 0 {
        let a = replace_all(template, "{weekday}", w.as_str());
        let b = replace_all(a.as_str(), "{day}", d.as_str());
        replace_all(b.as_str(), "{month}", m.as_str())
    } else if english {
        w.concat(", ").concat(m.as_str()).concat(" ").concat(d.as_str())
    } else {
        w.concat(", ").concat(d.as_str()).concat(" de ").concat(m.as_str())
    }
}

} // verus!
