use vstd::prelude::*;

use crate::models::{Booking, Student, TrainingLevel};
use crate::numfmt::dec_digits;
use crate::safety::{calculate_weather_score, default_minimums, default_weather_minimums,
    is_safe_spec, score_spec, is_flight_safe};
use crate::text::str_eq;
use crate::timefmt::{format_utc_minute, utc_minute_text};
use crate::weather::WeatherData;

verus! {

/// How long a cached suggestion response stays valid: six hours.
pub const CACHE_TTL_SECONDS: i64 = 21600;

/// The weather score of a placeholder option: 5 points.
pub const PLACEHOLDER_SCORE_UNITS: u32 = 37500;

/// One reschedule candidate: a time, a human-readable reason, a weather
/// score in score sub-units, and an instructor-availability flag.
#[derive(Debug)]
pub struct RescheduleOption {
    pub date_time: i64,
    pub reason: String,
    pub weather_score: u32,
    pub instructor_available: bool,
}

/// The mathematical content of a reschedule option.
pub struct OptionModel {
    pub date_time: int,
    pub reason: Seq<char>,
    pub weather_score: int,
    pub instructor_available: bool,
}

impl View for RescheduleOption {
    type V = OptionModel;

    open spec fn view(&self) -> OptionModel {
        OptionModel {
            date_time: self.date_time as int,
            reason: self.reason@,
            weather_score: self.weather_score as int,
            instructor_available: self.instructor_available,
        }
    }
}

/// The models of a sequence of options.
pub open spec fn options_model(v: Seq<RescheduleOption>) -> Seq<OptionModel> {
    v.map_values(|o: RescheduleOption| o@)
}

/// A set of reschedule candidates, as cached and as returned.
#[derive(Debug)]
pub struct RescheduleResponse {
    pub options: Vec<RescheduleOption>,
}

impl View for RescheduleResponse {
    type V = Seq<OptionModel>;

    open spec fn view(&self) -> Seq<OptionModel> {
        options_model(self.options@)
    }
}

/// An exact copy of a reschedule option.
pub fn clone_option(o: &RescheduleOption) -> (r: RescheduleOption)
    ensures
        r == *o,
{
    RescheduleOption {
        date_time: o.date_time,
        reason: o.reason.clone(),
        weather_score: o.weather_score,
        instructor_available: o.instructor_available,
    }
}

/// An exact copy of the first `k` options.
pub fn clone_option_prefix(v: &Vec<RescheduleOption>, k: usize) -> (r: Vec<RescheduleOption>)
    requires
        k <= v@.len(),
    ensures
        r@ == v@.take(k as int),
{
    let mut r: Vec<RescheduleOption> = Vec::new();
    let mut i: usize = 0;
    while i < k
        invariant
            0 <= i <= k <= v@.len(),
            r@.len() == i,
            forall|j: int| 0 <= j < i ==> r@[j] == v@[j],
        decreases k - i,
    {
        r.push(clone_option(&v[i]));
        i += 1;
    }
    proof {
        assert(r@ =~= v@.take(k as int));
    }
    r
}

fn clone_response(resp: &RescheduleResponse) -> (r: RescheduleResponse)
    ensures
        r.options@ == resp.options@,
        r@ == resp@,
{
    let all = clone_option_prefix(&resp.options, resp.options.len());
    proof {
        assert(resp.options@.take(resp.options@.len() as int) =~= resp.options@);
    }
    RescheduleResponse { options: all }
}

// ---------------------------------------------------------------------------
// Suggestion cache
// ---------------------------------------------------------------------------
/// One cache slot: the suggestion fingerprint (booking id, original
/// scheduled time) with the cached response and its creation time.
pub struct CacheEntryModel {
    pub booking_id: Seq<char>,
    pub scheduled_ts: int,
    pub options: Seq<OptionModel>,
    pub created_at: int,
}

struct CacheEntry {
    booking_id: String,
    scheduled_ts: i64,
    response: RescheduleResponse,
    created_at: i64,
}

impl View for CacheEntry {
    type V = CacheEntryModel;

    closed spec fn view(&self) -> CacheEntryModel {
        CacheEntryModel {
            booking_id: self.booking_id@,
            scheduled_ts: self.scheduled_ts as int,
            options: self.response@,
            created_at: self.created_at as int,
        }
    }
}

/// Whether an entry created at `created_at` is still fresh at `now`,
/// matching a whole-hours age check against a six-hour limit.
pub open spec fn entry_fresh(created_at: int, now: int) -> bool {
    now - created_at < CACHE_TTL_SECONDS as int
}

/// What a cache holding `entries` answers for the key
/// (`booking_id`, `scheduled_ts`) at time `now`: the options of the first
/// entry with that key, provided it is fresh.
pub open spec fn cache_lookup(
    entries: Seq<CacheEntryModel>,
    booking_id: Seq<char>,
    scheduled_ts: int,
    now: int,
) -> Option<Seq<OptionModel>>
    decreases entries.len(),
{
    if entries.len() == 0 {
        None
    } else if entries.first().booking_id == booking_id && entries.first().scheduled_ts
        == scheduled_ts {
        if entry_fresh(entries.first().created_at, now) {
            Some(entries.first().options)
        } else {
            None
        }
    } else {
        cache_lookup(entries.drop_first(), booking_id, scheduled_ts, now)
    }
}

/// `entries` without the slots whose key is (`booking_id`, `scheduled_ts`).
pub open spec fn remove_key(
    entries: Seq<CacheEntryModel>,
    booking_id: Seq<char>,
    scheduled_ts: int,
) -> Seq<CacheEntryModel>
    decreases entries.len(),
{
    if entries.len() == 0 {
        Seq::empty()
    } else {
        let rest = remove_key(entries.drop_first(), booking_id, scheduled_ts);
        if entries.first().booking_id == booking_id && entries.first().scheduled_ts
            == scheduled_ts {
            rest
        } else {
            seq![entries.first()] + rest
        }
    }
}

/// What writing an entry does: any slot with the same key is dropped and
/// the new entry goes to the end.
pub open spec fn cache_insert(entries: Seq<CacheEntryModel>, e: CacheEntryModel) -> Seq<
    CacheEntryModel,
> {
    remove_key(entries, e.booking_id, e.scheduled_ts).push(e)
}

/// `entries` keeping only the slots still fresh at `now`.
pub open spec fn keep_fresh(entries: Seq<CacheEntryModel>, now: int) -> Seq<CacheEntryModel>
    decreases entries.len(),
{
    if entries.len() == 0 {
        Seq::empty()
    } else {
        let rest = keep_fresh(entries.drop_first(), now);
        if entry_fresh(entries.first().created_at, now) {
            seq![entries.first()] + rest
        } else {
            rest
        }
    }
}

/// No slot that `remove_key` keeps carries the removed key.
proof fn lemma_remove_key_removes(
    entries: Seq<CacheEntryModel>,
    booking_id: Seq<char>,
    scheduled_ts: int,
)
    ensures
        forall|j: int|
            0 <= j < remove_key(entries, booking_id, scheduled_ts).len() ==> !(#[trigger] remove_key(
                entries,
                booking_id,
                scheduled_ts,
            )[j].booking_id == booking_id && remove_key(
                entries,
                booking_id,
                scheduled_ts,
            )[j].scheduled_ts == scheduled_ts),
    decreases entries.len(),
{
    if entries.len() > 0 {
        lemma_remove_key_removes(entries.drop_first(), booking_id, scheduled_ts);
        let rest = remove_key(entries.drop_first(), booking_id, scheduled_ts);
        let whole = remove_key(entries, booking_id, scheduled_ts);
        if !(entries.first().booking_id == booking_id && entries.first().scheduled_ts
            == scheduled_ts) {
            assert(whole == seq![entries.first()] + rest);
            assert forall|j: int|
                0 <= j < whole.len() implies !(#[trigger] whole[j].booking_id == booking_id
                && whole[j].scheduled_ts == scheduled_ts) by {
                if j > 0 {
                    assert(whole[j] == rest[j - 1]);
                }
            }
        }
    }
}

/// Looking up a key skips a front segment free of that key.
proof fn lemma_lookup_skips_mismatches(
    front: Seq<CacheEntryModel>,
    back: Seq<CacheEntryModel>,
    booking_id: Seq<char>,
    scheduled_ts: int,
    now: int,
)
    requires
        forall|j: int|
            0 <= j < front.len() ==> !(#[trigger] front[j].booking_id == booking_id
                && front[j].scheduled_ts == scheduled_ts),
    ensures
        cache_lookup(front + back, booking_id, scheduled_ts, now) == cache_lookup(
            back,
            booking_id,
            scheduled_ts,
            now,
        ),
    decreases front.len(),
{
    if front.len() == 0 {
        assert(front + back =~= back);
    } else {
        assert((front + back).drop_first() =~= front.drop_first() + back);
        lemma_lookup_skips_mismatches(front.drop_first(), back, booking_id, scheduled_ts, now);
    }
}

/// Cache round trip: after writing a response for a key, reading that key
/// within the six-hour lifetime returns exactly the written options, and
/// reading it once the lifetime has passed returns nothing.
pub proof fn lemma_cache_round_trip(entries: Seq<CacheEntryModel>, e: CacheEntryModel, now: int)
    ensures
        entry_fresh(e.created_at, now) ==> cache_lookup(
            cache_insert(entries, e),
            e.booking_id,
            e.scheduled_ts,
            now,
        ) == Some(e.options),
        !entry_fresh(e.created_at, now) ==> cache_lookup(
            cache_insert(entries, e),
            e.booking_id,
            e.scheduled_ts,
            now,
        ) is None,
{
    let cleaned = remove_key(entries, e.booking_id, e.scheduled_ts);
    lemma_remove_key_removes(entries, e.booking_id, e.scheduled_ts);
    assert(cleaned.push(e) =~= cleaned + seq![e]);
    lemma_lookup_skips_mismatches(cleaned, seq![e], e.booking_id, e.scheduled_ts, now);
    assert(seq![e].first() == e);
}

/// Writing one key leaves what every other key reads unchanged.
pub proof fn lemma_cache_insert_other_keys(
    entries: Seq<CacheEntryModel>,
    e: CacheEntryModel,
    booking_id: Seq<char>,
    scheduled_ts: int,
    now: int,
)
    requires
        !(booking_id == e.booking_id && scheduled_ts == e.scheduled_ts),
    ensures
        cache_lookup(cache_insert(entries, e), booking_id, scheduled_ts, now) == cache_lookup(
            entries,
            booking_id,
            scheduled_ts,
            now,
        ),
    decreases entries.len(),
{
    if entries.len() == 0 {
        assert(cache_insert(entries, e) =~= seq![e]);
        assert(cache_insert(entries, e).first() == e);
        assert(cache_insert(entries, e).drop_first() =~= Seq::<CacheEntryModel>::empty());
        assert(cache_lookup(Seq::<CacheEntryModel>::empty(), booking_id, scheduled_ts, now)
            is None);
        assert(cache_lookup(cache_insert(entries, e), booking_id, scheduled_ts, now) is None);
    } else {
        let first = entries.first();
        lemma_cache_insert_other_keys(entries.drop_first(), e, booking_id, scheduled_ts, now);
        if first.booking_id == e.booking_id && first.scheduled_ts == e.scheduled_ts {
            // The lookup key differs from e's key, hence from first's key:
            // the scan of `entries` steps over `first`.
            assert(cache_insert(entries, e) =~= cache_insert(entries.drop_first(), e));
            assert(cache_lookup(entries, booking_id, scheduled_ts, now) == cache_lookup(
                entries.drop_first(),
                booking_id,
                scheduled_ts,
                now,
            ));
        } else {
            let inserted = seq![first] + cache_insert(entries.drop_first(), e);
            assert(cache_insert(entries, e) =~= inserted);
            assert(inserted.first() == first);
            assert(inserted.drop_first() =~= cache_insert(entries.drop_first(), e));
        }
    }
}

/// Whether an entry created at `created_at` is still fresh at `now`.
fn is_fresh(created_at: i64, now: i64) -> (r: bool)
    ensures
        r == entry_fresh(created_at as int, now as int),
{
    if created_at >= now {
        true
    } else if created_at > i64::MAX - CACHE_TTL_SECONDS {
        true
    } else {
        now < created_at + CACHE_TTL_SECONDS
    }
}

/// Time-boxed suggestion cache: responses keyed by suggestion fingerprint,
/// expiring six hours after creation.
pub struct AiCache {
    entries: Vec<CacheEntry>,
}

impl View for AiCache {
    type V = Seq<CacheEntryModel>;

    closed spec fn view(&self) -> Seq<CacheEntryModel> {
        self.entries@.map_values(|e: CacheEntry| e@)
    }
}

impl AiCache {
    /// An empty cache.
    pub fn new() -> (r: Self)
        ensures
            r@ =~= Seq::<CacheEntryModel>::empty(),
    {
        let r = AiCache { entries: Vec::new() };
        proof {
            assert(r@ =~= Seq::<CacheEntryModel>::empty());
        }
        r
    }

    /// Reads the response cached under (`booking_id`, `scheduled_ts`), if
    /// one exists and is still fresh at `now`.
    pub fn get(&self, booking_id: &str, scheduled_ts: i64, now: i64) -> (r: Option<
        RescheduleResponse,
    >)
        ensures
            r is Some <==> cache_lookup(self@, booking_id@, scheduled_ts as int, now as int)
                is Some,
            r is Some ==> r.unwrap()@ == cache_lookup(
                self@,
                booking_id@,
                scheduled_ts as int,
                now as int,
            ).unwrap(),
    {
        let n = self.entries.len();
        let mut i: usize = 0;
        proof {
            assert(self@.skip(0) =~= self@);
        }
        while i < n
            invariant
                n == self.entries@.len(),
                0 <= i <= n,
                self@.len() == n,
                cache_lookup(self@, booking_id@, scheduled_ts as int, now as int) == cache_lookup(
                    self@.skip(i as int),
                    booking_id@,
                    scheduled_ts as int,
                    now as int,
                ),
            decreases n - i,
        {
            proof {
                assert(self@.skip(i as int).first() == self.entries@[i as int]@);
            }
            let e = &self.entries[i];
            if str_eq(e.booking_id.as_str(), booking_id) && e.scheduled_ts == scheduled_ts {
                if is_fresh(e.created_at, now) {
                    let resp = clone_response(&e.response);
                    return Some(resp);
                } else {
                    return None;
                }
            }
            proof {
                assert(self@.skip(i as int).drop_first() =~= self@.skip(i as int + 1));
            }
            i += 1;
        }
        proof {
            assert(self@.skip(n as int) =~= Seq::<CacheEntryModel>::empty());
        }
        None
    }

    /// Writes a response under (`booking_id`, `scheduled_ts`), created at
    /// `now`, replacing any slot with the same key.
    pub fn set(
        &mut self,
        booking_id: String,
        scheduled_ts: i64,
        response: RescheduleResponse,
        now: i64,
    )
        ensures
            final(self)@ =~= cache_insert(
                old(self)@,
                (CacheEntryModel {
                    booking_id: booking_id@,
                    scheduled_ts: scheduled_ts as int,
                    options: response@,
                    created_at: now as int,
                }),
            ),
    {
        let ghost target = remove_key(old(self)@, booking_id@, scheduled_ts as int);
        let n = self.entries.len();
        let mut kept: Vec<CacheEntry> = Vec::new();
        let mut i: usize = 0;
        proof {
            assert(self@.skip(0) =~= self@);
            assert(kept@.map_values(|e: CacheEntry| e@) + remove_key(
                self@,
                booking_id@,
                scheduled_ts as int,
            ) =~= target);
        }
        while i < n
            invariant
                n == self.entries@.len(),
                0 <= i <= n,
                self.entries == old(self).entries,
                self@.len() == n,
                kept@.map_values(|e: CacheEntry| e@) + remove_key(
                    self@.skip(i as int),
                    booking_id@,
                    scheduled_ts as int,
                ) =~= target,
            decreases n - i,
        {
            proof {
                assert(self@.skip(i as int).first() == self.entries@[i as int]@);
                assert(self@.skip(i as int).drop_first() =~= self@.skip(i as int + 1));
            }
            let e = &self.entries[i];
            if !(str_eq(e.booking_id.as_str(), booking_id.as_str()) && e.scheduled_ts
                == scheduled_ts) {
                let ghost kept_models = kept@.map_values(|e: CacheEntry| e@);
                kept.push(
                    CacheEntry {
                        booking_id: e.booking_id.clone(),
                        scheduled_ts: e.scheduled_ts,
                        response: clone_response(&e.response),
                        created_at: e.created_at,
                    },
                );
                proof {
                    assert(kept@.map_values(|e: CacheEntry| e@) =~= kept_models.push(
                        self.entries@[i as int]@,
                    ));
                    assert(kept_models.push(self.entries@[i as int]@) + remove_key(
                        self@.skip(i as int + 1),
                        booking_id@,
                        scheduled_ts as int,
                    ) =~= kept_models + remove_key(
                        self@.skip(i as int),
                        booking_id@,
                        scheduled_ts as int,
                    ));
                }
            }
            i += 1;
        }
        proof {
            assert(self@.skip(n as int) =~= Seq::<CacheEntryModel>::empty());
            assert(kept@.map_values(|e: CacheEntry| e@) =~= target);
        }
        kept.push(
            CacheEntry { booking_id: booking_id, scheduled_ts: scheduled_ts, response: response, created_at: now },
        );
        self.entries = kept;
        proof {
            assert(final(self)@ =~= target.push(
                (CacheEntryModel {
                    booking_id: booking_id@,
                    scheduled_ts: scheduled_ts as int,
                    options: response@,
                    created_at: now as int,
                }),
            ));
        }
    }

    /// Drops every slot that is no longer fresh at `now`.
    pub fn clear_expired(&mut self, now: i64)
        ensures
            final(self)@ =~= keep_fresh(old(self)@, now as int),
    {
        let ghost target = keep_fresh(old(self)@, now as int);
        let n = self.entries.len();
        let mut kept: Vec<CacheEntry> = Vec::new();
        let mut i: usize = 0;
        proof {
            assert(self@.skip(0) =~= self@);
            assert(kept@.map_values(|e: CacheEntry| e@) + keep_fresh(self@, now as int)
                =~= target);
        }
        while i < n
            invariant
                n == self.entries@.len(),
                0 <= i <= n,
                self.entries == old(self).entries,
                self@.len() == n,
                kept@.map_values(|e: CacheEntry| e@) + keep_fresh(
                    self@.skip(i as int),
                    now as int,
                ) =~= target,
            decreases n - i,
        {
            proof {
                assert(self@.skip(i as int).first() == self.entries@[i as int]@);
                assert(self@.skip(i as int).drop_first() =~= self@.skip(i as int + 1));
            }
            let e = &self.entries[i];
            if is_fresh(e.created_at, now) {
                let ghost kept_models = kept@.map_values(|e: CacheEntry| e@);
                kept.push(
                    CacheEntry {
                        booking_id: e.booking_id.clone(),
                        scheduled_ts: e.scheduled_ts,
                        response: clone_response(&e.response),
                        created_at: e.created_at,
                    },
                );
                proof {
                    assert(kept@.map_values(|e: CacheEntry| e@) =~= kept_models.push(
                        self.entries@[i as int]@,
                    ));
                    assert(kept_models.push(self.entries@[i as int]@) + keep_fresh(
                        self@.skip(i as int + 1),
                        now as int,
                    ) =~= kept_models + keep_fresh(self@.skip(i as int), now as int));
                }
            }
            i += 1;
        }
        proof {
            assert(self@.skip(n as int) =~= Seq::<CacheEntryModel>::empty());
            assert(kept@.map_values(|e: CacheEntry| e@) =~= target);
        }
        self.entries = kept;
    }
}


// ---------------------------------------------------------------------------
// Deterministic fallback generation
// ---------------------------------------------------------------------------
/// How far the fallback scans the forecast for good weather: the first
/// fourteen samples.
pub open spec fn phase1_limit(forecast_len: int) -> int {
    if forecast_len < 14 {
        forecast_len
    } else {
        14
    }
}

/// Where the marginal phase stops: three options or the end of the forecast.
pub open spec fn phase2_end(forecast_len: int) -> int {
    if forecast_len < 3 {
        forecast_len
    } else {
        3
    }
}

/// The indices of the forecast samples the good-weather phase collects: the
/// first (up to three) samples among the first `upto` that are safe for the
/// level under its default minimums.
pub open spec fn safe_pick_indices(
    level: TrainingLevel,
    forecast: Seq<WeatherData>,
    upto: int,
) -> Seq<int>
    decreases upto,
{
    if upto <= 0 {
        Seq::empty()
    } else {
        let p = safe_pick_indices(level, forecast, upto - 1);
        if p.len() < 3 && is_safe_spec(level, forecast[upto - 1], default_minimums(level)) {
            p.push(upto - 1)
        } else {
            p
        }
    }
}

proof fn lemma_picks_bounds(level: TrainingLevel, forecast: Seq<WeatherData>, upto: int)
    requires
        upto >= 0,
    ensures
        safe_pick_indices(level, forecast, upto).len() <= 3,
        safe_pick_indices(level, forecast, upto).len() <= upto,
        forall|j: int|
            0 <= j < safe_pick_indices(level, forecast, upto).len() ==> 0 <= #[trigger]
            safe_pick_indices(level, forecast, upto)[j] < upto,
    decreases upto,
{
    if upto > 0 {
        lemma_picks_bounds(level, forecast, upto - 1);
    }
}

proof fn lemma_picks_stable(level: TrainingLevel, forecast: Seq<WeatherData>, i: int, j: int)
    requires
        0 <= i <= j,
        safe_pick_indices(level, forecast, i).len() >= 3,
    ensures
        safe_pick_indices(level, forecast, j) == safe_pick_indices(level, forecast, i),
    decreases j - i,
{
    if j > i {
        lemma_picks_stable(level, forecast, i, j - 1);
    }
}

/// The reason text of a good-weather option; the wind is rendered in whole
/// knots, rounded with halves away from zero.
pub open spec fn good_reason(w: WeatherData) -> Seq<char> {
    "Good weather conditions: "@ + w.conditions@ + " with "@ + dec_digits(
        ((w.wind_speed_kt_tenths + 5) / 10) as nat,
    ) + "kt winds"@
}

/// The reason text of a marginal-conditions option.
pub open spec fn marginal_reason(w: WeatherData) -> Seq<char> {
    "Marginal conditions: "@ + w.conditions@
}

fn good_reason_message(w: &WeatherData) -> (r: String)
    ensures
        r@ == good_reason(*w),
{
    let mut m = String::from_str("Good weather conditions: ");
    m.append(w.conditions.as_str());
    m.append(" with ");
    let rounded = ((w.wind_speed_kt_tenths as u64) + 5) / 10;
    let t = crate::numfmt::fmt_u64(rounded);
    m.append(t.as_str());
    m.append("kt winds");
    m
}

fn marginal_reason_message(w: &WeatherData) -> (r: String)
    ensures
        r@ == marginal_reason(*w),
{
    let mut m = String::from_str("Marginal conditions: ");
    m.append(w.conditions.as_str());
    m
}

/// A good-weather slot built from forecast sample `k`.
pub open spec fn fallback_slot_good(
    level: TrainingLevel,
    forecast: Seq<WeatherData>,
    k: int,
    o: OptionModel,
) -> bool {
    &&& o.date_time == forecast[k].date_time
    &&& o.weather_score == score_spec(level, forecast[k])
    &&& o.instructor_available
    &&& o.reason == good_reason(forecast[k])
}

/// A marginal-conditions slot built from forecast sample `k`.
pub open spec fn fallback_slot_marginal(
    level: TrainingLevel,
    forecast: Seq<WeatherData>,
    k: int,
    o: OptionModel,
) -> bool {
    &&& o.date_time == forecast[k].date_time
    &&& o.weather_score == score_spec(level, forecast[k])
    &&& o.instructor_available
    &&& o.reason == marginal_reason(forecast[k])
}

/// A placeholder slot at position `i`: `i + 1` days past the original
/// booking, a flat score of five points, no instructor.
pub open spec fn fallback_slot_placeholder(booking: Booking, i: int, o: OptionModel) -> bool {
    &&& o.date_time == booking.scheduled_date + (i + 1) * 86400
    &&& o.weather_score == PLACEHOLDER_SCORE_UNITS as int
    &&& !o.instructor_available
    &&& o.reason == "Please contact your instructor to schedule - limited weather data available"@
}

/// Everything the deterministic fallback promises: exactly three options;
/// first the safe samples among the first fourteen, then unvetted samples
/// labelled marginal, then day-offset placeholders.
pub open spec fn fallback_post(
    booking: Booking,
    level: TrainingLevel,
    forecast: Seq<WeatherData>,
    r: Seq<OptionModel>,
) -> bool {
    let picks = safe_pick_indices(level, forecast, phase1_limit(forecast.len() as int));
    let n1 = picks.len() as int;
    let n2 = phase2_end(forecast.len() as int) - n1;
    &&& r.len() == 3
    &&& forall|i: int|
        0 <= i < n1 ==> fallback_slot_good(level, forecast, picks[i], #[trigger] r[i])
    &&& forall|i: int|
        n1 <= i < n1 + n2 ==> fallback_slot_marginal(level, forecast, i, #[trigger] r[i])
    &&& forall|i: int| n1 + n2 <= i < 3 ==> fallback_slot_placeholder(booking, i, #[trigger] r[i])
}

/// Deterministic reschedule options from the forecast alone: up to three
/// safe samples among the first fourteen, padded with marginal samples and
/// then with day-offset placeholders, always exactly three.
pub fn generate_fallback_options(
    booking: &Booking,
    student: &Student,
    weather_forecast: &Vec<WeatherData>,
    _instructor_schedule: &Vec<Booking>,
) -> (r: Vec<RescheduleOption>)
    requires
        booking.scheduled_date + 259200 <= i64::MAX,
    ensures
        r@.len() == 3,
        fallback_post(*booking, student.training_level, weather_forecast@, options_model(r@)),
{
    let level = student.training_level;
    let minimums_table = default_weather_minimums();
    let minimums = minimums_table.get(&level).unwrap();

    let flen = weather_forecast.len();
    let lim: usize = if flen < 14 {
        flen
    } else {
        14
    };
    let mut options: Vec<RescheduleOption> = Vec::new();
    let mut i: usize = 0;
    while i < lim && options.len() < 3
        invariant
            lim == phase1_limit(weather_forecast@.len() as int),
            lim <= weather_forecast@.len(),
            0 <= i <= lim,
            *minimums == default_minimums(level),
            level == student.training_level,
            options@.len() == safe_pick_indices(level, weather_forecast@, i as int).len(),
            options@.len() <= 3,
            forall|j: int|
                0 <= j < options@.len() ==> fallback_slot_good(
                    level,
                    weather_forecast@,
                    safe_pick_indices(level, weather_forecast@, i as int)[j],
                    #[trigger] options_model(options@)[j],
                ),
        decreases lim - i,
    {
        let ghost prev = options@;
        let ghost picks_i = safe_pick_indices(level, weather_forecast@, i as int);
        let w = &weather_forecast[i];
        let (safe, _) = is_flight_safe(&level, w, minimums);
        if safe {
            let score = calculate_weather_score(&level, w);
            let reason = good_reason_message(w);
            let opt = RescheduleOption {
                date_time: w.date_time,
                reason,
                weather_score: score,
                instructor_available: true,
            };
            options.push(opt);
            proof {
                let picks_n = safe_pick_indices(level, weather_forecast@, i as int + 1);
                assert(picks_n == picks_i.push(i as int));
                assert forall|j: int|
                    0 <= j < options@.len() implies fallback_slot_good(
                    level,
                    weather_forecast@,
                    picks_n[j],
                    #[trigger] options_model(options@)[j],
                ) by {
                    if j < prev.len() {
                        assert(options@[j] == prev[j]);
                        assert(picks_n[j] == picks_i[j]);
                        assert(options_model(options@)[j] == options_model(prev)[j]);
                    } else {
                        assert(options@[j] == opt);
                        assert(picks_n[j] == i as int);
                    }
                }
            }
        } else {
            proof {
                assert(safe_pick_indices(level, weather_forecast@, i as int + 1) == picks_i);
            }
        }
        i += 1;
    }
    proof {
        lemma_picks_bounds(level, weather_forecast@, lim as int);
        if options@.len() >= 3 {
            lemma_picks_stable(level, weather_forecast@, i as int, lim as int);
        }
    }
    let ghost picks = safe_pick_indices(level, weather_forecast@, lim as int);
    let ghost n1 = options@.len() as int;
    proof {
        assert(n1 == picks.len());
    }

    if options.len() < 3 {
        let end: usize = if flen < 3 {
            flen
        } else {
            3
        };
        proof {
            assert(n1 <= lim);
            assert(end == phase2_end(weather_forecast@.len() as int));
            assert(n1 <= end as int);
        }
        let mut j: usize = options.len();
        while j < end
            invariant
                end == phase2_end(weather_forecast@.len() as int),
                end <= weather_forecast@.len(),
                n1 <= j as int <= end as int,
                options@.len() == j,
                n1 == picks.len(),
                level == student.training_level,
                forall|k: int|
                    0 <= k < n1 ==> fallback_slot_good(
                        level,
                        weather_forecast@,
                        picks[k],
                        #[trigger] options_model(options@)[k],
                    ),
                forall|k: int|
                    n1 <= k < j as int ==> fallback_slot_marginal(
                        level,
                        weather_forecast@,
                        k,
                        #[trigger] options_model(options@)[k],
                    ),
            decreases end - j,
        {
            let ghost prev = options@;
            let w = &weather_forecast[j];
            let score = calculate_weather_score(&level, w);
            let reason = marginal_reason_message(w);
            let opt = RescheduleOption {
                date_time: w.date_time,
                reason,
                weather_score: score,
                instructor_available: true,
            };
            options.push(opt);
            proof {
                assert(options@[j as int] == opt);
                assert forall|k: int|
                    0 <= k < n1 implies fallback_slot_good(
                    level,
                    weather_forecast@,
                    picks[k],
                    #[trigger] options_model(options@)[k],
                ) by {
                    assert(options@[k] == prev[k]);
                    assert(options_model(prev)[k] == options_model(options@)[k]);
                }
                assert forall|k: int|
                    n1 <= k < j as int + 1 implies fallback_slot_marginal(
                    level,
                    weather_forecast@,
                    k,
                    #[trigger] options_model(options@)[k],
                ) by {
                    if k < j as int {
                        assert(options@[k] == prev[k]);
                        assert(options_model(prev)[k] == options_model(options@)[k]);
                    } else {
                        assert(options_model(options@)[k] == opt@);
                    }
                }
            }
            j += 1;
        }
    }
    let ghost n2 = options@.len() - n1;

    while options.len() < 3
        invariant
            booking.scheduled_date + 259200 <= i64::MAX,
            n1 + n2 <= options@.len() <= 3,
            n1 == picks.len(),
            n2 >= 0,
            level == student.training_level,
            forall|k: int|
                0 <= k < n1 ==> fallback_slot_good(
                    level,
                    weather_forecast@,
                    picks[k],
                    #[trigger] options_model(options@)[k],
                ),
            forall|k: int|
                n1 <= k < n1 + n2 ==> fallback_slot_marginal(
                    level,
                    weather_forecast@,
                    k,
                    #[trigger] options_model(options@)[k],
                ),
            forall|k: int|
                n1 + n2 <= k < options@.len() ==> fallback_slot_placeholder(
                    *booking,
                    k,
                    #[trigger] options_model(options@)[k],
                ),
        decreases 3 - options@.len(),
    {
        let ghost prev = options@;
        let days: i64 = (options.len() + 1) as i64;
        let date = booking.scheduled_date + days * 86400;
        let opt = RescheduleOption {
            date_time: date,
            reason: String::from_str(
                "Please contact your instructor to schedule - limited weather data available",
            ),
            weather_score: PLACEHOLDER_SCORE_UNITS,
            instructor_available: false,
        };
        options.push(opt);
        proof {
            assert(options@[prev.len() as int] == opt);
            assert(fallback_slot_placeholder(*booking, prev.len() as int, opt@));
            assert forall|k: int|
                0 <= k < n1 implies fallback_slot_good(
                level,
                weather_forecast@,
                picks[k],
                #[trigger] options_model(options@)[k],
            ) by {
                assert(options@[k] == prev[k]);
                assert(options_model(prev)[k] == options_model(options@)[k]);
            }
            assert forall|k: int|
                n1 <= k < n1 + n2 implies fallback_slot_marginal(
                level,
                weather_forecast@,
                k,
                #[trigger] options_model(options@)[k],
            ) by {
                assert(options@[k] == prev[k]);
                assert(options_model(prev)[k] == options_model(options@)[k]);
            }
            assert forall|k: int|
                n1 + n2 <= k < options@.len() implies fallback_slot_placeholder(
                *booking,
                k,
                #[trigger] options_model(options@)[k],
            ) by {
                if k < prev.len() {
                    assert(options@[k] == prev[k]);
                    assert(options_model(prev)[k] == options_model(options@)[k]);
                } else {
                    assert(options_model(options@)[k] == opt@);
                }
            }
        }
    }
    options
}

// ---------------------------------------------------------------------------
// Orchestration: cache, external attempt, fallback
// ---------------------------------------------------------------------------
/// Whether the cache answers the booking's fingerprint with a response of at
/// least three options at `now`.
pub open spec fn cache_hit_with_full_response(
    entries: Seq<CacheEntryModel>,
    booking: Booking,
    now: int,
) -> bool {
    let hit = cache_lookup(entries, booking.id@, booking.scheduled_date as int, now);
    hit is Some && hit.unwrap().len() >= 3
}

/// Whether an external generation attempt came back usable: present, with
/// at least three options.
pub open spec fn external_usable(external: Option<Vec<RescheduleOption>>) -> bool {
    external is Some && external.unwrap()@.len() >= 3
}

/// Produces exactly three reschedule options. A fresh cached response with
/// at least three options wins; otherwise a usable external attempt is
/// cached and used; otherwise the deterministic fallback answers, and the
/// cache is left untouched.
pub fn generate_reschedule_options(
    cache: &mut AiCache,
    booking: &Booking,
    student: &Student,
    weather_forecast: &Vec<WeatherData>,
    instructor_schedule: &Vec<Booking>,
    external_options: Option<Vec<RescheduleOption>>,
    now: i64,
) -> (r: Vec<RescheduleOption>)
    requires
        booking.scheduled_date + 259200 <= i64::MAX,
    ensures
        r@.len() == 3,
        cache_hit_with_full_response(old(cache)@, *booking, now as int) ==> {
            &&& options_model(r@) == cache_lookup(
                old(cache)@,
                booking.id@,
                booking.scheduled_date as int,
                now as int,
            ).unwrap().take(3)
            &&& final(cache)@ == old(cache)@
        },
        (!cache_hit_with_full_response(old(cache)@, *booking, now as int) && external_usable(
            external_options,
        )) ==> {
            &&& options_model(r@) == options_model(external_options.unwrap()@).take(3)
            &&& final(cache)@ =~= cache_insert(
                old(cache)@,
                (CacheEntryModel {
                    booking_id: booking.id@,
                    scheduled_ts: booking.scheduled_date as int,
                    options: options_model(external_options.unwrap()@),
                    created_at: now as int,
                }),
            )
        },
        (!cache_hit_with_full_response(old(cache)@, *booking, now as int) && !external_usable(
            external_options,
        )) ==> {
            &&& fallback_post(
                *booking,
                student.training_level,
                weather_forecast@,
                options_model(r@),
            )
            &&& final(cache)@ == old(cache)@
        },
{
    let cached = cache.get(booking.id.as_str(), booking.scheduled_date, now);
    match cached {
        Some(hit) => {
            if hit.options.len() >= 3 {
                let mut opts = hit.options;
                proof {
                    assert(options_model(opts@.subrange(0, 3)) =~= options_model(opts@).take(3));
                }
                opts.truncate(3);
                return opts;
            }
        },
        None => {},
    }

    match external_options {
        Some(ext) => {
            if ext.len() >= 3 {
                let first3 = clone_option_prefix(&ext, 3);
                proof {
                    assert(options_model(ext@.take(3)) =~= options_model(ext@).take(3));
                }
                cache.set(
                    booking.id.clone(),
                    booking.scheduled_date,
                    RescheduleResponse { options: ext },
                    now,
                );
                first3
            } else {
                generate_fallback_options(
                    booking,
                    student,
                    weather_forecast,
                    instructor_schedule,
                )
            }
        },
        None => {
            generate_fallback_options(booking, student, weather_forecast, instructor_schedule)
        },
    }
}

// ---------------------------------------------------------------------------
// Request rendering for the external generation attempt
// ---------------------------------------------------------------------------
/// A whole number from a value in tenths, halves rounded away from zero.
pub open spec fn round_to_whole(tenths: int) -> int {
    if tenths >= 0 {
        (tenths + 5) / 10
    } else {
        -((5 - tenths) / 10)
    }
}

fn fmt_round_whole(tenths: i32) -> (r: String)
    ensures
        r@ == crate::numfmt::dec_digits_signed(round_to_whole(tenths as int)),
{
    if tenths >= 0 {
        crate::numfmt::fmt_u64(((tenths as u64) + 5) / 10)
    } else {
        let mag = (-(tenths as i64)) as u64;
        let whole = (5 + mag) / 10;
        if whole == 0 {
            crate::numfmt::fmt_u64(0)
        } else {
            let digits = crate::numfmt::fmt_u64(whole);
            let mut s = String::from_str("-");
            s.append(digits.as_str());
            proof {
                reveal_strlit("-");
                assert(s@ =~= crate::numfmt::dec_digits_signed(round_to_whole(tenths as int)));
            }
            s
        }
    }
}

/// One forecast sample as a compact summary line.
pub open spec fn forecast_line(w: WeatherData) -> Seq<char> {
    utc_minute_text(w.date_time) + ": vis "@ + crate::numfmt::tenths_digits(
        w.visibility_sm_tenths as nat,
    ) + "mi, wind "@ + crate::numfmt::tenths_digits(w.wind_speed_kt_tenths as nat) + "kt, temp "@
        + crate::numfmt::dec_digits_signed(round_to_whole(w.temperature_f_tenths as int)) + "°F, "@
        + w.conditions@
}

fn forecast_line_message(w: &WeatherData) -> (r: String)
    ensures
        r@ == forecast_line(*w),
{
    let mut m = format_utc_minute(w.date_time);
    m.append(": vis ");
    let t1 = crate::numfmt::fmt_tenths(w.visibility_sm_tenths);
    m.append(t1.as_str());
    m.append("mi, wind ");
    let t2 = crate::numfmt::fmt_tenths(w.wind_speed_kt_tenths);
    m.append(t2.as_str());
    m.append("kt, temp ");
    let t3 = fmt_round_whole(w.temperature_f_tenths);
    m.append(t3.as_str());
    m.append("°F, ");
    m.append(w.conditions.as_str());
    m
}

/// How many forecast samples the request renders: the first seven.
pub open spec fn prompt_limit(forecast_len: int) -> int {
    if forecast_len < 7 {
        forecast_len
    } else {
        7
    }
}

/// The first `upto` forecast samples as summary lines joined by newlines.
pub open spec fn forecast_lines(f: Seq<WeatherData>, upto: int) -> Seq<char>
    decreases upto,
{
    if upto <= 0 {
        Seq::empty()
    } else if upto == 1 {
        forecast_line(f[0])
    } else {
        forecast_lines(f, upto - 1) + "\n"@ + forecast_line(f[upto - 1])
    }
}

/// The full request text handed to the external generation attempt.
pub open spec fn prompt_spec(booking: Booking, student: Student, forecast: Seq<WeatherData>) -> Seq<
    char,
> {
    "Flight booking needs rescheduling due to weather conflict.\n\nStudent: "@ + student.name@
        + " (Training Level: "@ + crate::safety::level_label_spec(student.training_level)
        + ")\nOriginal booking: "@ + utc_minute_text(booking.scheduled_date) + " UTC"@
        + "\nDeparture location: "@ + booking.departure_location.name@
        + "\n\n7-day weather forecast:\n"@ + forecast_lines(
        forecast,
        prompt_limit(forecast.len() as int),
    )
        + "\n\nPlease suggest 3 alternative times for rescheduling this flight lesson. Consider:\n1. Weather conditions suitable for "@
        + crate::safety::level_label_spec(student.training_level)
        + " training level\n2. Time of day (prefer daylight hours)\n3. Spread options across different days\n\nReturn JSON with this exact structure:\n{\n  \"options\": [\n    {\n      \"date_time\": \"2024-01-15T14:00:00Z\",\n      \"reason\": \"Clear skies with light winds, excellent training conditions\",\n      \"weather_score\": 9.5,\n      \"instructor_available\": true\n    }\n  ]\n}\n"@
}

/// Builds the structured request for the external generation attempt:
/// student, original booking, and up to the first seven forecast samples as
/// compact summary lines.
pub fn build_prompt(
    booking: &Booking,
    student: &Student,
    weather_forecast: &Vec<WeatherData>,
    _instructor_schedule: &Vec<Booking>,
) -> (r: String)
    ensures
        r@ == prompt_spec(*booking, *student, weather_forecast@),
{
    let flen = weather_forecast.len();
    let lim: usize = if flen < 7 {
        flen
    } else {
        7
    };
    let mut summary = String::new();
    let mut i: usize = 0;
    while i < lim
        invariant
            lim == prompt_limit(weather_forecast@.len() as int),
            lim <= weather_forecast@.len(),
            0 <= i <= lim,
            summary@ == forecast_lines(weather_forecast@, i as int),
        decreases lim - i,
    {
        if i > 0 {
            summary.append("\n");
        }
        let line = forecast_line_message(&weather_forecast[i]);
        summary.append(line.as_str());
        i += 1;
    }

    let mut p = String::from_str(
        "Flight booking needs rescheduling due to weather conflict.\n\nStudent: ",
    );
    p.append(student.name.as_str());
    p.append(" (Training Level: ");
    p.append(crate::safety::level_label(&student.training_level));
    p.append(")\nOriginal booking: ");
    let booked = format_utc_minute(booking.scheduled_date);
    p.append(booked.as_str());
    p.append(" UTC");
    p.append("\nDeparture location: ");
    p.append(booking.departure_location.name.as_str());
    p.append("\n\n7-day weather forecast:\n");
    p.append(summary.as_str());
    p.append(
        "\n\nPlease suggest 3 alternative times for rescheduling this flight lesson. Consider:\n1. Weather conditions suitable for ",
    );
    p.append(crate::safety::level_label(&student.training_level));
    p.append(
        " training level\n2. Time of day (prefer daylight hours)\n3. Spread options across different days\n\nReturn JSON with this exact structure:\n{\n  \"options\": [\n    {\n      \"date_time\": \"2024-01-15T14:00:00Z\",\n      \"reason\": \"Clear skies with light winds, excellent training conditions\",\n      \"weather_score\": 9.5,\n      \"instructor_available\": true\n    }\n  ]\n}\n",
    );
    p
}

} // verus!
