//! Wire-level debugging support: request ids for correlating requests with
//! responses, UTC timestamps, the log-line prefix, and the shortening of
//! long base64 fields before JSON is shown.

use vstd::prelude::*;
use vstd::string::*;
use crate::text::{decimal, u64_to_decimal, usize_to_decimal};
use crate::json::{Json, JsonValue};
use colored::Colorize;

verus! {

/// Hands out request ids: 1, 2, 3, ... (wrapping around after `usize::MAX`).
pub struct RequestCounter {
    next: usize,
}

impl View for RequestCounter {
    type V = usize;

    /// The id the next request gets.
    closed spec fn view(&self) -> usize {
        self.next
    }
}

impl RequestCounter {
    /// A counter whose first id is 1.
    pub fn new() -> (c: Self)
        ensures
            c@ == 1,
    {
        RequestCounter { next: 1 }
    }
}

/// The id after `id`, wrapping around.
pub open spec fn following_id(id: usize) -> usize {
    if id == usize::MAX {
        0
    } else {
        (id + 1) as usize
    }
}

/// Takes the next request id.
pub fn next_request_id(counter: &mut RequestCounter) -> (id: usize)
    ensures
        id == old(counter)@,
        final(counter)@ == following_id(old(counter)@),
{
    let id = counter.next;
    counter.next = if id == usize::MAX {
        0
    } else {
        id + 1
    };
    id
}

/// Two requests in a row get increasing ids, unless the counter wraps.
pub proof fn lemma_request_ids_increase(first: usize)
    requires
        first < usize::MAX,
    ensures
        following_id(first) > first,
{
}

/// Gregorian leap years.
pub open spec fn leap(y: int) -> bool {
    (y % 4 == 0 && y % 100 != 0) || y % 400 == 0
}

/// Whether `year` is a leap year in the Gregorian calendar.
pub fn is_leap_year(year: i64) -> (b: bool)
    ensures
        b == leap(year as int),
{
    let a: u64 = if year >= 0 {
        year as u64
    } else {
        (-(year as i128)) as u64
    };
    proof {
        let y = year as int;
        assert(a as int == y || a as int == -y);
        assert((a as int % 4 == 0) == (y % 4 == 0));
        assert((a as int % 100 == 0) == (y % 100 == 0));
        assert((a as int % 400 == 0) == (y % 400 == 0));
    }
    (a % 4 == 0 && a % 100 != 0) || a % 400 == 0
}

pub open spec fn days_in_year(y: int) -> int {
    if leap(y) {
        366
    } else {
        365
    }
}

/// The year that day number `days` (counted from the first day of `year`,
/// from 0) falls in, and the day's number within that year.
pub open spec fn year_and_day(days: int, year: int) -> (int, int)
    decreases days,
{
    if days < days_in_year(year) || days < 0 {
        (year, days)
    } else {
        year_and_day(days - days_in_year(year), year + 1)
    }
}

/// The number of days in month `i` (0 for January).
pub open spec fn days_in_month(i: int, leap: bool) -> int {
    if i == 1 {
        if leap {
            29
        } else {
            28
        }
    } else if i == 3 || i == 5 || i == 8 || i == 10 {
        30
    } else {
        31
    }
}

/// Month and day of month of day `remaining` of the year (from 1), counting
/// from month `i`; past December it is December 31.
pub open spec fn month_day_from(remaining: int, i: int, leap: bool) -> (int, int)
    decreases 12 - i,
{
    if i >= 12 {
        (12, 31)
    } else if remaining <= days_in_month(i, leap) {
        (i + 1, remaining)
    } else {
        month_day_from(remaining - days_in_month(i, leap), i + 1, leap)
    }
}

fn month_days(i: u32, leap: bool) -> (d: u32)
    ensures
        d == days_in_month(i as int, leap),
{
    if i == 1 {
        if leap {
            29
        } else {
            28
        }
    } else if i == 3 || i == 5 || i == 8 || i == 10 {
        30
    } else {
        31
    }
}

/// The month (1 to 12) and day of month of a day of the year (from 1).
pub fn day_of_year_to_month_day(day_of_year: u32, leap: bool) -> (r: (u32, u32))
    ensures
        (r.0 as int, r.1 as int) == month_day_from(day_of_year as int, 0, leap),
{
    let mut remaining = day_of_year;
    let mut i: u32 = 0;
    while i < 12
        invariant
            i <= 12,
            month_day_from(day_of_year as int, 0, leap) == month_day_from(remaining as int, i as int, leap),
        decreases 12 - i,
    {
        let days = month_days(i, leap);
        if remaining <= days {
            return (i + 1, remaining);
        }
        remaining = remaining - days;
        i = i + 1;
    }
    (12, 31)
}

/// The decimal digits of `n`, with zeros in front up to `width` digits.
pub open spec fn padded(n: nat, width: nat) -> Seq<char> {
    let d = decimal(n);
    if d.len() < width {
        Seq::new((width - d.len()) as nat, |i: int| '0') + d
    } else {
        d
    }
}

/// The UTC date and time of `secs` seconds after the Unix epoch, as
/// `YYYY-MM-DDTHH:MM:SSZ`.
pub open spec fn timestamp_text(secs: nat) -> Seq<char> {
    let days = secs / 86400;
    let st = secs % 86400;
    let yd = year_and_day(days as int, 1970);
    let md = month_day_from(yd.1 + 1, 0, leap(yd.0));
    padded(yd.0 as nat, 4) + "-"@ + padded(md.0 as nat, 2) + "-"@ + padded(md.1 as nat, 2) + "T"@
        + padded(st / 3600, 2) + ":"@ + padded((st % 3600) / 60, 2) + ":"@ + padded(st % 60, 2) + "Z"@
}

fn padded_decimal(n: u64, width: usize) -> (r: String)
    ensures
        r@ == padded(n as nat, width as nat),
{
    let d = u64_to_decimal(n);
    let len = d.as_str().unicode_len();
    if len >= width {
        return d;
    }
    let mut r = String::new();
    let mut i: usize = 0;
    while i < width - len
        invariant
            len < width,
            i <= width - len,
            r@ == Seq::new(i as nat, |j: int| '0'),
        decreases width - len - i,
    {
        crate::text::push_char(&mut r, '0');
        proof {
            assert(r@ =~= Seq::new((i + 1) as nat, |j: int| '0'));
        }
        i = i + 1;
    }
    r.append(d.as_str());
    r
}

/// The UTC date and time of `secs` seconds after the Unix epoch.
pub fn format_timestamp(secs: u64) -> (r: String)
    ensures
        r@ == timestamp_text(secs as nat),
{
    let days = secs / 86400;
    let secs_today = secs % 86400;
    let hours = secs_today / 3600;
    let minutes = (secs_today % 3600) / 60;
    let seconds = secs_today % 60;
    let mut remaining_days: i64 = days as i64;
    let mut year: i64 = 1970;
    loop
        invariant_except_break
            0 <= remaining_days <= days,
            1970 <= year <= 1970 + (days - remaining_days),
            days <= 213503982334601,
            year_and_day(days as int, 1970) == year_and_day(remaining_days as int, year as int),
        ensures
            0 <= remaining_days < days_in_year(year as int),
            1970 <= year,
            year_and_day(days as int, 1970) == (year as int, remaining_days as int),
        decreases remaining_days,
    {
        let days_in_year: i64 = if is_leap_year(year) {
            366
        } else {
            365
        };
        if remaining_days < days_in_year {
            break;
        }
        remaining_days = remaining_days - days_in_year;
        year = year + 1;
    }
    let leap = is_leap_year(year);
    let (month, day) = day_of_year_to_month_day(remaining_days as u32 + 1, leap);
    let mut r = padded_decimal(year as u64, 4);
    r.append("-");
    r.append(padded_decimal(month as u64, 2).as_str());
    r.append("-");
    r.append(padded_decimal(day as u64, 2).as_str());
    r.append("T");
    r.append(padded_decimal(hours, 2).as_str());
    r.append(":");
    r.append(padded_decimal(minutes, 2).as_str());
    r.append(":");
    r.append(padded_decimal(seconds, 2).as_str());
    r.append("Z");
    r
}

#[verifier::external_type_specification]
#[verifier::external_body]
pub struct ExSystemTime(std::time::SystemTime);

/// `SystemTime::now`: the current time of the system clock.
#[verifier::external_body]
fn system_now() -> (t: std::time::SystemTime) {
    std::time::SystemTime::now()
}

/// `SystemTime::duration_since(UNIX_EPOCH)`: how long after the Unix epoch
/// `t` is, or `None` when `t` lies before it.
#[verifier::external_body]
fn since_unix_epoch(t: &std::time::SystemTime) -> (d: Option<core::time::Duration>) {
    t.duration_since(std::time::UNIX_EPOCH).ok()
}

/// `Duration::as_secs`: the whole seconds of a duration.
#[verifier::external_body]
fn whole_seconds(d: &core::time::Duration) -> (s: u64) {
    d.as_secs()
}

/// The current UTC time as `YYYY-MM-DDTHH:MM:SSZ`; a clock set before the
/// Unix epoch reads as the epoch.
pub fn timestamp() -> (r: String)
    ensures
        exists|secs: u64| r@ == timestamp_text(secs as nat),
{
    let now = system_now();
    let secs = match since_unix_epoch(&now) {
        Some(d) => whole_seconds(&d),
        None => 0,
    };
    format_timestamp(secs)
}

proof fn lemma_decimal_width(n: nat)
    ensures
        n < 10 ==> decimal(n).len() == 1,
        10 <= n < 100 ==> decimal(n).len() == 2,
        1000 <= n < 10000 ==> decimal(n).len() == 4,
{
    reveal_with_fuel(decimal, 4);
}

proof fn lemma_month_day_bounds(remaining: int, i: int, leap: bool)
    requires
        1 <= remaining,
        0 <= i,
    ensures
        1 <= month_day_from(remaining, i, leap).0 <= 12,
        1 <= month_day_from(remaining, i, leap).1 <= 31,
    decreases 12 - i,
{
    if i < 12 && remaining > days_in_month(i, leap) {
        lemma_month_day_bounds(remaining - days_in_month(i, leap), i + 1, leap);
    }
}

proof fn lemma_year_at_least(days: int, year: int)
    ensures
        year_and_day(days, year).0 >= year,
    decreases days,
{
    if !(days < days_in_year(year) || days < 0) {
        lemma_year_at_least(days - days_in_year(year), year + 1);
    }
}

proof fn lemma_padded_two(n: nat)
    requires
        n < 100,
    ensures
        padded(n, 2).len() == 2,
{
    lemma_decimal_width(n);
}

/// Up to year 9999 a timestamp is exactly `YYYY-MM-DDTHH:MM:SSZ`: twenty
/// characters with the separators in place.
pub proof fn lemma_timestamp_shape(secs: nat)
    requires
        year_and_day((secs / 86400) as int, 1970).0 < 10000,
    ensures
        timestamp_text(secs).len() == 20,
        timestamp_text(secs)[4] == '-',
        timestamp_text(secs)[7] == '-',
        timestamp_text(secs)[10] == 'T',
        timestamp_text(secs)[13] == ':',
        timestamp_text(secs)[16] == ':',
        timestamp_text(secs)[19] == 'Z',
{
    let days = secs / 86400;
    let st = secs % 86400;
    let yd = year_and_day(days as int, 1970);
    lemma_year_at_least(days as int, 1970);
    let md = month_day_from(yd.1 + 1, 0, leap(yd.0));
    assert(yd.1 >= 0) by {
        lemma_year_day_nonneg(days as int, 1970);
    }
    lemma_month_day_bounds(yd.1 + 1, 0, leap(yd.0));
    lemma_decimal_width(yd.0 as nat);
    lemma_padded_two(md.0 as nat);
    lemma_padded_two(md.1 as nat);
    lemma_padded_two(st / 3600);
    lemma_padded_two((st % 3600) / 60);
    lemma_padded_two(st % 60);
    reveal_strlit("-");
    reveal_strlit("T");
    reveal_strlit(":");
    reveal_strlit("Z");
    assert("-"@.len() == 1 && "T"@.len() == 1 && ":"@.len() == 1 && "Z"@.len() == 1);
    let t = timestamp_text(secs);
    assert(padded(yd.0 as nat, 4).len() == 4);
}

proof fn lemma_year_day_nonneg(days: int, year: int)
    requires
        days >= 0,
    ensures
        year_and_day(days, year).1 >= 0,
    decreases days,
{
    if !(days < days_in_year(year) || days < 0) {
        lemma_year_day_nonneg(days - days_in_year(year), year + 1);
    }
}

/// Text wrapped in an ANSI style: the style code, the text, the reset.
pub open spec fn ansi_styled(code: Seq<char>, s: Seq<char>) -> Seq<char> {
    "\x1B["@ + code + "m"@ + s + "\x1B[0m"@
}

/// Text as the `colored` crate renders it with a style: unchanged when
/// colors are off, else wrapped in the style's escape codes.
pub open spec fn rendered(code: Seq<char>, s: Seq<char>, r: Seq<char>) -> bool {
    r == s || r == ansi_styled(code, s)
}

/// `colored`'s `bold`, rendered: the text, or the text in bold (code 1);
/// said only of text without an escape character, in which `colored`
/// would also re-style its inner resets.
#[verifier::external_body]
fn bold_text(s: &str) -> (r: String)
    ensures
        !s@.contains('\x1B') ==> rendered("1"@, s@, r@),
{
    s.bold().to_string()
}

/// `colored`'s `dimmed`, rendered: the text, or the text dimmed (code 2);
/// said only of text without an escape character.
#[verifier::external_body]
fn dimmed_text(s: &str) -> (r: String)
    ensures
        !s@.contains('\x1B') ==> rendered("2"@, s@, r@),
{
    s.dimmed().to_string()
}

/// `colored`'s `cyan`, rendered: the text, or the text in cyan (code 36);
/// said only of text without an escape character.
#[verifier::external_body]
fn cyan_text(s: &str) -> (r: String)
    ensures
        !s@.contains('\x1B') ==> rendered("36"@, s@, r@),
{
    s.cyan().to_string()
}

/// The request tag `[REQ#<id>]`.
pub open spec fn request_tag(request_id: usize) -> Seq<char> {
    "[REQ#"@ + decimal(request_id as nat) + "]"@
}

/// A log-line prefix: `[LOUD_WIRE]` in bold, the timestamp dimmed and the
/// request tag in cyan, separated by spaces (each unstyled when colors are off).
pub open spec fn is_prefix_line(r: Seq<char>, ts: Seq<char>, request_id: usize) -> bool {
    exists|a: Seq<char>, b: Seq<char>, c: Seq<char>|
        rendered("1"@, "[LOUD_WIRE]"@, a) && rendered("2"@, ts, b) && rendered("36"@, request_tag(request_id), c)
            && r == a + " "@ + b + " "@ + c
}

/// The log-line prefix for a request, around a given timestamp.
pub fn prefix_with(request_id: usize, ts: &str) -> (r: String)
    requires
        !ts@.contains('\x1B'),
    ensures
        is_prefix_line(r@, ts@, request_id),
{
    let mut tag = String::from_str("[REQ#");
    tag.append(usize_to_decimal(request_id).as_str());
    tag.append("]");
    proof {
        reveal_strlit("[REQ#");
        reveal_strlit("]");
        reveal_strlit("[LOUD_WIRE]");
        crate::text::lemma_decimal_digits(request_id as nat);
        assert forall|i: int| 0 <= i < tag@.len() implies tag@[i] != '\x1B' by {
            if 5 <= i < 5 + decimal(request_id as nat).len() {
                assert(tag@[i] == decimal(request_id as nat)[i - 5]);
            }
        }
        assert forall|i: int| 0 <= i < "[LOUD_WIRE]"@.len() implies "[LOUD_WIRE]"@[i] != '\x1B' by {}
    }
    let a = bold_text("[LOUD_WIRE]");
    let b = dimmed_text(ts);
    let c = cyan_text(tag.as_str());
    let mut r = a;
    r.append(" ");
    r.append(b.as_str());
    r.append(" ");
    r.append(c.as_str());
    r
}

/// The log-line prefix for a request, stamped with the current time.
pub fn prefix(request_id: usize) -> (r: String)
    ensures
        exists|secs: u64| is_prefix_line(r@, timestamp_text(secs as nat), request_id),
{
    let ts = timestamp();
    proof {
        let secs = choose|secs: u64| ts@ == timestamp_text(secs as nat);
        lemma_timestamp_no_escape(secs as nat);
    }
    prefix_with(request_id, ts.as_str())
}

proof fn lemma_padded_digits(n: nat, w: nat)
    ensures
        forall|i: int| 0 <= i < padded(n, w).len() ==> #[trigger] padded(n, w)[i] != '\x1B',
{
    crate::text::lemma_decimal_digits(n);
    let d = decimal(n);
    if d.len() < w {
        let z = Seq::new((w - d.len()) as nat, |i: int| '0');
        assert forall|i: int| 0 <= i < padded(n, w).len() implies #[trigger] padded(n, w)[i] != '\x1B' by {
            if i < z.len() {
                assert(padded(n, w)[i] == '0');
            } else {
                assert(padded(n, w)[i] == d[i - z.len()]);
            }
        }
    }
}

proof fn lemma_timestamp_no_escape(secs: nat)
    ensures
        !timestamp_text(secs).contains('\x1B'),
{
    let days = secs / 86400;
    let st = secs % 86400;
    let yd = year_and_day(days as int, 1970);
    let md = month_day_from(yd.1 + 1, 0, leap(yd.0));
    lemma_padded_digits(yd.0 as nat, 4);
    lemma_padded_digits(md.0 as nat, 2);
    lemma_padded_digits(md.1 as nat, 2);
    lemma_padded_digits(st / 3600, 2);
    lemma_padded_digits((st % 3600) / 60, 2);
    lemma_padded_digits(st % 60, 2);
    reveal_strlit("-");
    reveal_strlit("T");
    reveal_strlit(":");
    reveal_strlit("Z");
    let t = timestamp_text(secs);
    if t.contains('\x1B') {
        let k = choose|k: int| 0 <= k < t.len() && t[k] == '\x1B';
        assert(false);
    }
}

/// Fields whose long values are shortened for display: they hold base64 data.
pub open spec fn is_shortened_key(k: Seq<char>) -> bool {
    k == "data"@ || k == "signature"@
}

/// Values longer than this many characters are shortened.
pub const TRUNCATE_THRESHOLD: usize = 100;

/// A text cut to its first `limit` characters and marked with `...` when
/// it is longer than that; unchanged otherwise.
pub open spec fn cut_text(s: Seq<char>, limit: nat) -> Seq<char> {
    if s.len() > limit {
        s.take(limit as int) + "..."@
    } else {
        s
    }
}

/// A JSON value with every string under a `data` or `signature` key cut
/// to 100 characters, at any depth; other members are walked into.
pub open spec fn shortened_json(v: Json) -> Json
    decreases v,
{
    match v {
        Json::Object(fs) => {
            proof {
                assert forall|i: int| 0 <= i < fs.len() implies decreases_to!(v => fs[i].1) by {
                    assert(decreases_to!(v => fs));
                    assert(decreases_to!(fs => fs[i]));
                    assert(decreases_to!(fs[i] => fs[i].1));
                }
            }
            Json::Object(
                Seq::new(
                    fs.len(),
                    |i: int|
                        if 0 <= i < fs.len() {
                            (
                                fs[i].0,
                                if is_shortened_key(fs[i].0) {
                                    match fs[i].1 {
                                        Json::Str(s) => Json::Str(cut_text(s, 100)),
                                        other => other,
                                    }
                                } else {
                                    shortened_json(fs[i].1)
                                },
                            )
                        } else {
                            (Seq::empty(), Json::Null)
                        },
                ),
            )
        },
        Json::Array(items) => {
            proof {
                assert forall|i: int| 0 <= i < items.len() implies decreases_to!(v => items[i]) by {
                    assert(decreases_to!(v => items));
                    assert(decreases_to!(items => items[i]));
                }
            }
            Json::Array(
                Seq::new(
                    items.len(),
                    |i: int|
                        if 0 <= i < items.len() {
                            shortened_json(items[i])
                        } else {
                            Json::Null
                        },
                ),
            )
        },
        _ => v,
    }
}

/// Cutting a text twice at 100 characters gives what cutting it once gave.
pub proof fn lemma_cut_twice(s: Seq<char>)
    ensures
        cut_text(cut_text(s, 100), 100) == cut_text(s, 100),
{
    reveal_strlit("...");
    assert("..."@.len() == 3);
    if s.len() > 100 {
        let t = cut_text(s, 100);
        assert(t.take(100) =~= s.take(100));
    }
}

/// Shortening is idempotent: shortening an already shortened value changes
/// nothing, and is always safe to do.
pub proof fn lemma_shortening_idempotent(v: Json)
    ensures
        shortened_json(shortened_json(v)) == shortened_json(v),
    decreases v,
{
    match v {
        Json::Object(fs) => {
            let w = shortened_json(v);
            let gs = w->Object_0;
            assert(gs.len() == fs.len());
            let ws = shortened_json(w)->Object_0;
            assert forall|i: int| 0 <= i < fs.len() implies #[trigger] ws[i] == gs[i] by {
                assert(gs[i].0 == fs[i].0);
                if is_shortened_key(fs[i].0) {
                    if let Json::Str(s0) = fs[i].1 {
                        lemma_cut_twice(s0);
                    }
                } else {
                    assert(decreases_to!(v => fs));
                    assert(decreases_to!(fs => fs[i]));
                    assert(decreases_to!(fs[i] => fs[i].1));
                    lemma_shortening_idempotent(fs[i].1);
                }
            }
            assert(ws =~= gs);
        },
        Json::Array(items) => {
            let w = shortened_json(v);
            let gs = w->Array_0;
            assert forall|i: int| 0 <= i < items.len() implies shortened_json(#[trigger] gs[i]) == gs[i] by {
                assert(decreases_to!(v => items));
                assert(decreases_to!(items => items[i]));
                lemma_shortening_idempotent(items[i]);
            }
            assert(shortened_json(w)->Array_0 =~= gs);
        },
        _ => {},
    }
}

/// A text cut to `limit` characters with `...` added, when it is longer.
pub fn cut_at(s: &str, limit: usize) -> (r: String)
    ensures
        r@ == cut_text(s@, limit as nat),
{
    let cs = crate::text::chars_of(s);
    if cs.len() <= limit {
        return s.to_owned();
    }
    let mut r = String::new();
    let mut i: usize = 0;
    while i < limit
        invariant
            cs@ == s@,
            limit < cs@.len(),
            i <= limit,
            r@ == s@.take(i as int),
        decreases limit - i,
    {
        crate::text::push_char(&mut r, cs[i]);
        proof {
            assert(s@.take(i as int).push(s@[i as int]) =~= s@.take(i + 1));
        }
        i = i + 1;
    }
    r.append("...");
    r
}

#[verifier::loop_isolation(false)]
fn shortened_copy(v: &JsonValue) -> (r: JsonValue)
    ensures
        r@ == shortened_json(v@),
    decreases v,
{
    match v {
        JsonValue::Array(items) => {
            let mut out: Vec<JsonValue> = Vec::new();
            let mut i: usize = 0;
            proof {
                crate::json::lemma_array_view(*items);
            }
            while i < items.len()
                invariant
                    v@ == Json::Array(crate::json::values_view(items@)),
                    i <= items@.len(),
                    out@.len() == i,
                    forall|j: int| 0 <= j < i ==> out@[j]@ == shortened_json(items@[j]@),
                decreases items@.len() - i,
            {
                proof {
                    assert(decreases_to!(items => items@));
                    assert(decreases_to!(items@ => items@[i as int]));
                    assert(crate::json::values_view(items@)[i as int] == items@[i as int]@);
                }
                let c = shortened_copy(&items[i]);
                out.push(c);
                i = i + 1;
            }
            let r = crate::json::array_of(out);
            proof {
                assert(r@->Array_0 =~= shortened_json(v@)->Array_0);
            }
            r
        },
        JsonValue::Object(fields) => {
            let mut out: Vec<(String, JsonValue)> = Vec::new();
            let mut i: usize = 0;
            proof {
                crate::json::lemma_object_view(*fields);
                reveal_strlit("data");
                reveal_strlit("signature");
            }
            while i < fields.len()
                invariant
                    v@ == Json::Object(crate::json::entries_view(fields@)),
                    i <= fields@.len(),
                    out@.len() == i,
                    forall|j: int| 0 <= j < i ==> (#[trigger] out@[j]).0@ == fields@[j].0@
                        && out@[j].1@ == shortened_json(v@)->Object_0[j].1,
                decreases fields@.len() - i,
            {
                proof {
                    assert(decreases_to!(fields => fields@));
                    assert(decreases_to!(fields@ => fields@[i as int]));
                    assert(decreases_to!(fields@[i as int] => fields@[i as int].1));
                    assert(crate::json::entries_view(fields@)[i as int] == (fields@[i as int].0@, fields@[i as int].1@));
                }
                let key = fields[i].0.as_str();
                let shortened_key = crate::json::str_eq(key, "data") || crate::json::str_eq(key, "signature");
                let c = if shortened_key {
                    match &fields[i].1 {
                        JsonValue::String(s) => JsonValue::String(cut_at(s.as_str(), TRUNCATE_THRESHOLD)),
                        other => other.deep_clone(),
                    }
                } else {
                    shortened_copy(&fields[i].1)
                };
                proof {
                    let fs = v@->Object_0;
                    assert(shortened_json(v@)->Object_0[i as int] == (
                        fs[i as int].0,
                        if is_shortened_key(fs[i as int].0) {
                            match fs[i as int].1 {
                                Json::Str(s) => Json::Str(cut_text(s, 100)),
                                other => other,
                            }
                        } else {
                            shortened_json(fs[i as int].1)
                        },
                    ));
                    assert(fs[i as int].0 == key@);
                    assert(fs[i as int].1 == fields@[i as int].1@);
                }
                let k2 = fields[i].0.clone();
                out.push((k2, c));
                i = i + 1;
            }
            let r = crate::json::object_of(out);
            proof {
                assert(r@->Object_0 =~= shortened_json(v@)->Object_0);
            }
            r
        },
        _ => v.deep_clone(),
    }
}

/// Shortens, at any depth, the strings under `data` and `signature` keys
/// that are longer than 100 characters to their first 100 characters and `...`.
pub fn truncate_long_fields(value: &mut JsonValue)
    ensures
        final(value)@ == shortened_json(old(value)@),
{
    let r = shortened_copy(value);
    *value = r;
}

/// The text of an HTTP status for the log: `<code> OK` below 300, else
/// `<code> ERROR`.
pub fn status_label(status: u16) -> (r: String)
    ensures
        r@ == decimal(status as nat) + if status < 300 {
            " OK"@
        } else {
            " ERROR"@
        },
{
    let mut r = u64_to_decimal(status as u64);
    if status < 300 {
        r.append(" OK");
    } else {
        r.append(" ERROR");
    }
    r
}

} // verus!
