use chrono::Datelike;
use vstd::prelude::*;

use crate::args::Forecast;
use crate::params::lemma_push_contains;

verus! {

/// A day of the week.
#[derive(PartialEq, Eq, Structural, Debug, Clone, Copy)]
pub enum Weekday {
    Mon,
    Tue,
    Wed,
    Thu,
    Fri,
    Sat,
    Sun,
}

impl Weekday {
    /// The number of the day, Monday being 1 and Sunday 7.
    pub open spec fn number(self) -> u32 {
        match self {
            Weekday::Mon => 1,
            Weekday::Tue => 2,
            Weekday::Wed => 3,
            Weekday::Thu => 4,
            Weekday::Fri => 5,
            Weekday::Sat => 6,
            Weekday::Sun => 7,
        }
    }

    pub fn number_from_monday(&self) -> (r: u32)
        ensures
            r == self.number(),
            1 <= r <= 7,
    {
        match self {
            Weekday::Mon => 1,
            Weekday::Tue => 2,
            Weekday::Wed => 3,
            Weekday::Thu => 4,
            Weekday::Fri => 5,
            Weekday::Sat => 6,
            Weekday::Sun => 7,
        }
    }
}

/// How many days after the reference day (numbered from Monday) the next
/// `forecast_day` is: 0 for the reference day itself.
pub open spec fn day_distance(days_from_ref_day: int, forecast_day: Weekday) -> int {
    (forecast_day.number() - days_from_ref_day) % 7
}

/// The index of a requested day in the API's answer, from its distance to the current day.
pub fn get_day_index(days_from_ref_day: u32, forecast_day: Weekday) -> (r: usize)
    requires
        days_from_ref_day <= 127,
    ensures
        r == day_distance(days_from_ref_day as int, forecast_day),
        r < 7,
{
    let d: i32 = forecast_day.number_from_monday() as i32 - days_from_ref_day as i32;
    // d lies in -126..=7; adding 19 weeks makes it non-negative without changing it modulo 7.
    let shifted: u32 = (d + 133) as u32;
    assert(((d + 133) % 7) == (d % 7)) by (nonlinear_arith);
    (shifted % 7) as usize
}

/// The index a requested forecast is drawn at: 0 for the current day, 1 for
/// tomorrow, 1 to 6 for the weekdays after today, 7 for the week overview.
pub open spec fn forecast_index(f: Forecast, days_from_ref_day: int) -> int {
    match f {
        Forecast::week => 7,
        Forecast::tomorrow => 1,
        Forecast::mo => day_distance(days_from_ref_day, Weekday::Mon),
        Forecast::tu => day_distance(days_from_ref_day, Weekday::Tue),
        Forecast::we => day_distance(days_from_ref_day, Weekday::Wed),
        Forecast::th => day_distance(days_from_ref_day, Weekday::Thu),
        Forecast::fr => day_distance(days_from_ref_day, Weekday::Fri),
        Forecast::sa => day_distance(days_from_ref_day, Weekday::Sat),
        Forecast::su => day_distance(days_from_ref_day, Weekday::Sun),
        _ => 0,
    }
}

/// A weekday asked for is drawn at its distance in days from the current
/// weekday `d` (Monday 1 to Sunday 7): Monday at `(1 - d) mod 7`, Tuesday at
/// `(2 - d) mod 7`, and so on to Sunday at `(7 - d) mod 7`; the current day
/// at 0, tomorrow at 1 and the week's overview at 7.
pub proof fn lemma_forecast_index_is_distance(d: int)
    requires
        1 <= d <= 7,
    ensures
        forecast_index(Forecast::mo, d) == (8 - d) % 7,
        forecast_index(Forecast::tu, d) == (9 - d) % 7,
        forecast_index(Forecast::we, d) == (10 - d) % 7,
        forecast_index(Forecast::th, d) == (11 - d) % 7,
        forecast_index(Forecast::fr, d) == (12 - d) % 7,
        forecast_index(Forecast::sa, d) == (13 - d) % 7,
        forecast_index(Forecast::su, d) == (14 - d) % 7,
        forecast_index(Forecast::day, d) == 0,
        forecast_index(Forecast::tomorrow, d) == 1,
        forecast_index(Forecast::week, d) == 7,
{
    assert(d == 1 || d == 2 || d == 3 || d == 4 || d == 5 || d == 6 || d == 7);
}

/// A weekday asked for is drawn as the current day's panel exactly on that
/// weekday.
pub proof fn lemma_weekday_drawn_today(d: Weekday)
    ensures
        forecast_index(Forecast::mo, d.number() as int) == 0 <==> d == Weekday::Mon,
        forecast_index(Forecast::tu, d.number() as int) == 0 <==> d == Weekday::Tue,
        forecast_index(Forecast::we, d.number() as int) == 0 <==> d == Weekday::Wed,
        forecast_index(Forecast::th, d.number() as int) == 0 <==> d == Weekday::Thu,
        forecast_index(Forecast::fr, d.number() as int) == 0 <==> d == Weekday::Fri,
        forecast_index(Forecast::sa, d.number() as int) == 0 <==> d == Weekday::Sat,
        forecast_index(Forecast::su, d.number() as int) == 0 <==> d == Weekday::Sun,
{
    lemma_forecast_index_is_distance(d.number() as int);
}

/// How often `v` occurs in `s`.
pub open spec fn count(s: Seq<usize>, v: int) -> nat
    decreases s.len(),
{
    if s.len() == 0 {
        0
    } else {
        count(s.drop_last(), v) + if s.last() == v { 1nat } else { 0nat }
    }
}

/// `v`, `n` times.
pub open spec fn copies(v: usize, n: nat) -> Seq<usize> {
    Seq::new(n, |i: int| v)
}

/// The values of `s` below `bound` in ascending order: all its zeros, then
/// all its ones, and so on.
pub open spec fn ascending(s: Seq<usize>, bound: nat) -> Seq<usize>
    decreases bound,
{
    if bound == 0 {
        Seq::empty()
    } else {
        ascending(s, (bound - 1) as nat) + copies((bound - 1) as usize, count(s, bound - 1))
    }
}

/// Counting over two sequences one after the other adds up.
proof fn lemma_count_concat(a: Seq<usize>, b: Seq<usize>, v: int)
    ensures
        count(a + b, v) == count(a, v) + count(b, v),
    decreases b.len(),
{
    if b.len() == 0 {
        assert(a + b =~= a);
    } else {
        lemma_count_concat(a, b.drop_last(), v);
        assert((a + b).drop_last() =~= a + b.drop_last());
    }
}

/// `n` copies of `w` hold `w` `n` times and nothing else.
proof fn lemma_count_copies(w: usize, n: nat, v: int)
    ensures
        count(copies(w, n), v) == if v == w { n } else { 0 },
    decreases n,
{
    if n > 0 {
        lemma_count_copies(w, (n - 1) as nat, v);
        assert(copies(w, n).drop_last() =~= copies(w, (n - 1) as nat));
    }
}

/// The indices of the forecasts to show come in ascending order, each as
/// often as it was asked for: sorting keeps every index below `bound` and
/// adds none.
pub proof fn lemma_ascending_sorts(s: Seq<usize>, bound: nat)
    requires
        bound <= usize::MAX,
    ensures
        forall|i: int, j: int|
            0 <= i <= j < ascending(s, bound).len() ==> ascending(s, bound)[i] <= ascending(s, bound)[j],
        forall|i: int| 0 <= i < ascending(s, bound).len() ==> ascending(s, bound)[i] < bound,
        forall|v: int| 0 <= v < bound ==> #[trigger] count(ascending(s, bound), v) == count(s, v),
        forall|v: int| v < 0 || v >= bound ==> #[trigger] count(ascending(s, bound), v) == 0,
    decreases bound,
{
    if bound > 0 {
        let b = (bound - 1) as nat;
        lemma_ascending_sorts(s, b);
        let prev = ascending(s, b);
        let more = copies(b as usize, count(s, b as int));
        let all = ascending(s, bound);
        assert(all == prev + more);
        assert forall|v: int| #[trigger] count(all, v) == count(prev, v) + count(more, v) by {
            lemma_count_concat(prev, more, v);
        }
        assert forall|v: int| #[trigger] count(more, v) == (if v == b { count(s, b as int) } else { 0 }) by {
            lemma_count_copies(b as usize, count(s, b as int), v);
        }
        assert forall|i: int, j: int| 0 <= i <= j < all.len() implies all[i] <= all[j] by {
            if j >= prev.len() {
                assert(all[j] == more[j - prev.len()]);
                if i < prev.len() {
                    assert(all[i] == prev[i]);
                } else {
                    assert(all[i] == more[i - prev.len()]);
                }
            } else {
                assert(all[i] == prev[i] && all[j] == prev[j]);
            }
        }
        assert forall|i: int| 0 <= i < all.len() implies all[i] < bound by {
            if i >= prev.len() {
                assert(all[i] == more[i - prev.len()]);
            } else {
                assert(all[i] == prev[i]);
            }
        }
    }
}

/// The index of each requested forecast, in the order requested.
pub open spec fn forecast_indices(forecast: Seq<Forecast>, days_from_ref_day: int) -> Seq<usize> {
    forecast.map_values(|f: Forecast| forecast_index(f, days_from_ref_day) as usize)
}

fn index_of(f: Forecast, days_from_ref_day: u32) -> (r: usize)
    requires
        days_from_ref_day <= 127,
    ensures
        r == forecast_index(f, days_from_ref_day as int),
        r <= 7,
{
    match f {
        Forecast::week => 7,
        Forecast::tomorrow => 1,
        Forecast::mo => get_day_index(days_from_ref_day, Weekday::Mon),
        Forecast::tu => get_day_index(days_from_ref_day, Weekday::Tue),
        Forecast::we => get_day_index(days_from_ref_day, Weekday::Wed),
        Forecast::th => get_day_index(days_from_ref_day, Weekday::Thu),
        Forecast::fr => get_day_index(days_from_ref_day, Weekday::Fri),
        Forecast::sa => get_day_index(days_from_ref_day, Weekday::Sat),
        Forecast::su => get_day_index(days_from_ref_day, Weekday::Sun),
        _ => 0,
    }
}

/// Which panels are asked for, as a table of nine: `[0]` the current day,
/// `[1]` to `[6]` the days after it, `[7]` the week's overview, and `[8]`
/// none at all (`disable`).
pub open spec fn index_table(forecast: Seq<Forecast>, days_from_ref_day: int) -> Seq<bool> {
    Seq::new(
        9,
        |i: int|
            if i == 8 {
                forecast.contains(Forecast::disable)
            } else {
                exists|k: int|
                    0 <= k < forecast.len() && forecast[k] != Forecast::disable && #[trigger] forecast_index(
                        forecast[k],
                        days_from_ref_day,
                    ) == i
            },
    )
}

/// The table of the panels asked for, on a `curr_day`.
pub fn forecast_table(forecast: &[Forecast], curr_day: Weekday) -> (r: [bool; 9])
    ensures
        r@ == index_table(forecast@, curr_day.number() as int),
{
    let days_from_ref_day = curr_day.number_from_monday();
    let ghost d = days_from_ref_day as int;
    let mut table = [false; 9];
    let mut j: usize = 0;
    while j < forecast.len()
        invariant
            j <= forecast@.len(),
            1 <= days_from_ref_day <= 7,
            d == days_from_ref_day,
            table@.len() == 9,
            forall|i: int|
                0 <= i < 8 ==> table@[i] == exists|k: int|
                    0 <= k < j && forecast@[k] != Forecast::disable && #[trigger] forecast_index(forecast@[k], d) == i,
            table@[8] == forecast@.subrange(0, j as int).contains(Forecast::disable),
        decreases forecast@.len() - j,
    {
        let ghost before = table@;
        let f = forecast[j];
        proof {
            assert(forecast@.subrange(0, j + 1) =~= forecast@.subrange(0, j as int).push(f));
            lemma_push_contains(forecast@.subrange(0, j as int), f, Forecast::disable);
        }
        if f == Forecast::disable {
            table[8] = true;
        } else {
            let idx = index_of(f, days_from_ref_day);
            table[idx] = true;
            assert(forecast_index(forecast@[j as int], d) == idx);
        }
        j = j + 1;
    }
    assert(forecast@.subrange(0, forecast@.len() as int) =~= forecast@);
    assert(table@ =~= index_table(forecast@, curr_day.number() as int));
    table
}

/// The indices of the requested forecasts, in ascending order.
pub fn get_indices(forecast: &[Forecast], curr_day: Weekday) -> (r: Vec<usize>)
    ensures
        r@ == ascending(forecast_indices(forecast@, curr_day.number() as int), 8),
{
    let days_from_ref_day = curr_day.number_from_monday();
    let ghost mapped_spec = forecast_indices(forecast@, days_from_ref_day as int);
    let mut mapped: Vec<usize> = Vec::new();
    let mut j: usize = 0;
    while j < forecast.len()
        invariant
            j <= forecast@.len(),
            1 <= days_from_ref_day <= 7,
            mapped_spec == forecast_indices(forecast@, days_from_ref_day as int),
            mapped@ == mapped_spec.subrange(0, j as int),
        decreases forecast@.len() - j,
    {
        let idx = index_of(forecast[j], days_from_ref_day);
        mapped.push(idx);
        proof {
            assert(mapped_spec.subrange(0, j + 1) =~= mapped_spec.subrange(0, j as int).push(idx));
        }
        j = j + 1;
    }
    assert(mapped@ =~= mapped_spec);
    let mut result: Vec<usize> = Vec::new();
    let mut v: usize = 0;
    while v < 8
        invariant
            v <= 8,
            mapped@ == mapped_spec,
            result@ == ascending(mapped_spec, v as nat),
        decreases 8 - v,
    {
        let ghost before = result@;
        let mut k: usize = 0;
        while k < mapped.len()
            invariant
                k <= mapped@.len(),
                v < 8,
                mapped@ == mapped_spec,
                before == ascending(mapped_spec, v as nat),
                result@ == before + copies(v, count(mapped_spec.subrange(0, k as int), v as int)),
            decreases mapped@.len() - k,
        {
            proof {
                let next = mapped_spec.subrange(0, k + 1);
                assert(next.drop_last() =~= mapped_spec.subrange(0, k as int));
            }
            if mapped[k] == v {
                let ghost n = count(mapped_spec.subrange(0, k as int), v as int);
                result.push(v);
                assert(before + copies(v, n + 1) =~= (before + copies(v, n)).push(v));
            }
            k = k + 1;
        }
        assert(mapped_spec.subrange(0, mapped@.len() as int) =~= mapped_spec);
        v = v + 1;
    }
    result
}

/// The number of today's weekday, Monday being 1, from the local clock
/// (`chrono::Local::now().weekday().number_from_monday()`). Only the range of
/// the result is claimed: which day it is depends on the clock.
#[verifier::external_body]
fn today_number_from_monday() -> (r: u32)
    ensures
        1 <= r <= 7,
{
    chrono::Local::now().weekday().number_from_monday()
}

/// Today's weekday by the local clock.
pub(crate) fn today_weekday() -> Weekday {
    let today = today_number_from_monday();
    if today == 1 {
        Weekday::Mon
    } else if today == 2 {
        Weekday::Tue
    } else if today == 3 {
        Weekday::Wed
    } else if today == 4 {
        Weekday::Thu
    } else if today == 5 {
        Weekday::Fri
    } else if today == 6 {
        Weekday::Sat
    } else {
        Weekday::Sun
    }
}

/// The indices of the requested forecasts, in ascending order, counted from today.
pub fn get_forecast_indices(forecast: &[Forecast]) -> (r: Vec<usize>)
    ensures
        exists|today: Weekday| r@ == ascending(forecast_indices(forecast@, today.number() as int), 8),
{
    get_indices(forecast, today_weekday())
}

} // verus!
