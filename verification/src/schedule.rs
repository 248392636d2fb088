use vstd::prelude::*;

use crate::models::{Booking, BookingStatus, RescheduleEvent, Student, TrainingLevel,
    WeatherMinimum};
use crate::notify::{alert_notification, alert_notification_spec, conflict_notification,
    conflict_notification_spec};
use crate::numfmt::{dec_digits, digit_char, fmt_tenths, fmt_u64, tenths_digits};
use crate::safety::{calculate_weather_score, is_flight_safe, is_safe_spec, score_spec,
    violates_thunderstorms};
use crate::suggest::round_to_whole;
use crate::text::is_substring_of;
use crate::timefmt::{format_rfc3339, rfc3339_text};
use crate::weather::WeatherData;

verus! {

/// Graded alert classification, from immediate danger down to no alert.
#[derive(Debug, Clone, Copy, PartialEq, Eq, Structural)]
pub enum AlertSeverity {
    Severe,
    High,
    Moderate,
    Low,
    Clear,
}

/// Severity thresholds, in score sub-units.
pub const SEVERE_BELOW_UNITS: u32 = 30000;

pub const HIGH_BELOW_UNITS: u32 = 45000;

pub const MODERATE_BELOW_UNITS: u32 = 56250;

pub const LOW_BELOW_UNITS: u32 = 67500;

/// Visibility below one statute mile forces a severe alert.
pub const SEVERE_VISIBILITY_SM_TENTHS: u32 = 10;

/// How a score and the critical conditions classify: thunderstorms or
/// visibility below one mile force Severe; otherwise the score thresholds
/// at 4, 6, 7.5 and 9 points decide.
pub open spec fn severity_spec(score: int, w: WeatherData) -> AlertSeverity {
    if w.has_thunderstorms {
        AlertSeverity::Severe
    } else if w.visibility_sm_tenths < SEVERE_VISIBILITY_SM_TENTHS {
        AlertSeverity::Severe
    } else if score < SEVERE_BELOW_UNITS as int {
        AlertSeverity::Severe
    } else if score < HIGH_BELOW_UNITS as int {
        AlertSeverity::High
    } else if score < MODERATE_BELOW_UNITS as int {
        AlertSeverity::Moderate
    } else if score < LOW_BELOW_UNITS as int {
        AlertSeverity::Low
    } else {
        AlertSeverity::Clear
    }
}

/// Classifies the weather for alerting.
pub fn determine_severity(score: u32, weather: &WeatherData) -> (s: AlertSeverity)
    ensures
        s == severity_spec(score as int, *weather),
{
    if weather.has_thunderstorms {
        return AlertSeverity::Severe;
    }
    if weather.visibility_sm_tenths < SEVERE_VISIBILITY_SM_TENTHS {
        return AlertSeverity::Severe;
    }
    if score < SEVERE_BELOW_UNITS {
        AlertSeverity::Severe
    } else if score < HIGH_BELOW_UNITS {
        AlertSeverity::High
    } else if score < MODERATE_BELOW_UNITS {
        AlertSeverity::Moderate
    } else if score < LOW_BELOW_UNITS {
        AlertSeverity::Low
    } else {
        AlertSeverity::Clear
    }
}

/// The wire name of a severity.
pub open spec fn severity_name_spec(s: AlertSeverity) -> Seq<char> {
    match s {
        AlertSeverity::Severe => "severe"@,
        AlertSeverity::High => "high"@,
        AlertSeverity::Moderate => "moderate"@,
        AlertSeverity::Low => "low"@,
        AlertSeverity::Clear => "clear"@,
    }
}

/// The wire name of a severity.
pub fn severity_to_string(severity: &AlertSeverity) -> (r: &'static str)
    ensures
        r@ == severity_name_spec(*severity),
{
    match severity {
        AlertSeverity::Severe => "severe",
        AlertSeverity::High => "high",
        AlertSeverity::Moderate => "moderate",
        AlertSeverity::Low => "low",
        AlertSeverity::Clear => "clear",
    }
}

/// The score classifies as Clear exactly when it reaches nine points: the
/// forced-severe conditions each already cost more than one point, so they
/// never occur with a score of nine or better.
pub proof fn lemma_severity_clear_iff_high_score(level: TrainingLevel, w: WeatherData)
    ensures
        (severity_spec(score_spec(level, w), w) == AlertSeverity::Clear) <==> score_spec(level, w)
            >= LOW_BELOW_UNITS as int,
{
}

/// The spoken form of a training level, as used in alert messages.
pub open spec fn pilot_label_spec(level: TrainingLevel) -> Seq<char> {
    match level {
        TrainingLevel::StudentPilot => "student pilot"@,
        TrainingLevel::PrivatePilot => "private pilot"@,
        TrainingLevel::InstrumentRated => "instrument-rated pilot"@,
    }
}

fn pilot_label(level: &TrainingLevel) -> (r: &'static str)
    ensures
        r@ == pilot_label_spec(*level),
{
    match level {
        TrainingLevel::StudentPilot => "student pilot",
        TrainingLevel::PrivatePilot => "private pilot",
        TrainingLevel::InstrumentRated => "instrument-rated pilot",
    }
}

/// A score in sub-units rendered as points with one decimal digit, halves
/// rounded up.
pub open spec fn score_points_digits(score: int) -> Seq<char>
    recommends
        0 <= score,
{
    tenths_digits((((score + 375) / 750)) as nat)
}

fn fmt_score_points(score: u32) -> (r: String)
    ensures
        r@ == score_points_digits(score as int),
{
    fmt_tenths(((score as u64 + 375) / 750) as u32)
}

/// The alert message for one severity grade, weather sample, training level
/// and score.
pub open spec fn alert_message_spec(
    severity: AlertSeverity,
    w: WeatherData,
    level: TrainingLevel,
    score: int,
) -> Seq<char> {
    match severity {
        AlertSeverity::Severe => {
            if w.has_thunderstorms {
                "SEVERE WEATHER ALERT: Thunderstorms reported. Flight not safe for "@
                    + pilot_label_spec(level) + ". Consider rescheduling."@
            } else if w.visibility_sm_tenths < SEVERE_VISIBILITY_SM_TENTHS {
                "SEVERE WEATHER ALERT: Visibility "@ + tenths_digits(
                    w.visibility_sm_tenths as nat,
                ) + " miles, below safe minimums. Flight cancelled for safety."@
            } else {
                "SEVERE WEATHER ALERT: Dangerous conditions detected (score: "@
                    + score_points_digits(score) + "/10). Flight should be cancelled."@
            }
        },
        AlertSeverity::High => {
            "HIGH ALERT: Poor weather conditions (score: "@ + score_points_digits(score)
                + "/10). Visibility "@ + tenths_digits(w.visibility_sm_tenths as nat)
                + " miles, winds "@ + crate::numfmt::dec_digits_signed(
                round_to_whole(w.wind_speed_kt_tenths as int),
            ) + " kt. Not recommended for "@ + pilot_label_spec(level) + "."@
        },
        AlertSeverity::Moderate => {
            "MODERATE ALERT: Marginal weather conditions (score: "@ + score_points_digits(score)
                + "/10). Winds "@ + crate::numfmt::dec_digits_signed(
                round_to_whole(w.wind_speed_kt_tenths as int),
            ) + " kt, visibility "@ + tenths_digits(w.visibility_sm_tenths as nat)
                + " miles. Use caution."@
        },
        AlertSeverity::Low => {
            "Weather advisory: Conditions may be challenging (score: "@ + score_points_digits(
                score,
            ) + "/10). Winds "@ + crate::numfmt::dec_digits_signed(
                round_to_whole(w.wind_speed_kt_tenths as int),
            ) + " kt. Monitor before departure."@
        },
        AlertSeverity::Clear => "Weather conditions are favorable for flight."@,
    }
}

fn fmt_wind_whole(w: &WeatherData) -> (r: String)
    ensures
        r@ == crate::numfmt::dec_digits_signed(round_to_whole(w.wind_speed_kt_tenths as int)),
{
    crate::numfmt::fmt_u64((((w.wind_speed_kt_tenths as u64) + 5) / 10))
}

/// Builds the severity-specific alert message.
pub fn create_alert_message(
    severity: &AlertSeverity,
    weather: &WeatherData,
    student: &Student,
    score: u32,
) -> (r: String)
    ensures
        r@ == alert_message_spec(*severity, *weather, student.training_level, score as int),
{
    let level = &student.training_level;
    match severity {
        AlertSeverity::Severe => {
            if weather.has_thunderstorms {
                let mut m = String::from_str(
                    "SEVERE WEATHER ALERT: Thunderstorms reported. Flight not safe for ",
                );
                m.append(pilot_label(level));
                m.append(". Consider rescheduling.");
                m
            } else if weather.visibility_sm_tenths < SEVERE_VISIBILITY_SM_TENTHS {
                let mut m = String::from_str("SEVERE WEATHER ALERT: Visibility ");
                let t = fmt_tenths(weather.visibility_sm_tenths);
                m.append(t.as_str());
                m.append(" miles, below safe minimums. Flight cancelled for safety.");
                m
            } else {
                let mut m = String::from_str(
                    "SEVERE WEATHER ALERT: Dangerous conditions detected (score: ",
                );
                let t = fmt_score_points(score);
                m.append(t.as_str());
                m.append("/10). Flight should be cancelled.");
                m
            }
        },
        AlertSeverity::High => {
            let mut m = String::from_str("HIGH ALERT: Poor weather conditions (score: ");
            let t = fmt_score_points(score);
            m.append(t.as_str());
            m.append("/10). Visibility ");
            let v = fmt_tenths(weather.visibility_sm_tenths);
            m.append(v.as_str());
            m.append(" miles, winds ");
            let wnd = fmt_wind_whole(weather);
            m.append(wnd.as_str());
            m.append(" kt. Not recommended for ");
            m.append(pilot_label(level));
            m.append(".");
            m
        },
        AlertSeverity::Moderate => {
            let mut m = String::from_str("MODERATE ALERT: Marginal weather conditions (score: ");
            let t = fmt_score_points(score);
            m.append(t.as_str());
            m.append("/10). Winds ");
            let wnd = fmt_wind_whole(weather);
            m.append(wnd.as_str());
            m.append(" kt, visibility ");
            let v = fmt_tenths(weather.visibility_sm_tenths);
            m.append(v.as_str());
            m.append(" miles. Use caution.");
            m
        },
        AlertSeverity::Low => {
            let mut m = String::from_str(
                "Weather advisory: Conditions may be challenging (score: ",
            );
            let t = fmt_score_points(score);
            m.append(t.as_str());
            m.append("/10). Winds ");
            let wnd = fmt_wind_whole(weather);
            m.append(wnd.as_str());
            m.append(" kt. Monitor before departure.");
            m
        },
        AlertSeverity::Clear => String::from_str("Weather conditions are favorable for flight."),
    }
}

// ---------------------------------------------------------------------------
// Hourly conflict sweep: per-booking decision
// ---------------------------------------------------------------------------
/// Sweep summary for observability.
#[derive(Debug)]
pub struct ConflictSummary {
    pub total_checked: usize,
    pub conflicts_found: usize,
}

/// What the hourly sweep does about one unsafe booking: cancel it, record
/// why, and notify.
pub struct ConflictAction {
    pub new_status: BookingStatus,
    pub reason: String,
    pub message: String,
    pub notification_json: String,
}

/// Decides one booking of the hourly conflict sweep: nothing when the
/// weather is safe for the student's level; otherwise the cancellation,
/// the joined reason, the user-facing message and the notification payload.
pub fn check_flight_safety(
    booking: &Booking,
    student: &Student,
    weather: &WeatherData,
    minimums: &WeatherMinimum,
) -> (r: Option<ConflictAction>)
    ensures
        r is Some <==> !is_safe_spec(student.training_level, *weather, *minimums),
        r is Some ==> r.unwrap().new_status == BookingStatus::Cancelled,
        r is Some ==> r.unwrap().message@ == "Flight cancelled: "@ + r.unwrap().reason@,
        r is Some ==> r.unwrap().notification_json@ == conflict_notification_spec(
            booking.id@,
            "Flight cancelled: "@ + r.unwrap().reason@,
            rfc3339_text(booking.scheduled_date),
            student.name@,
        ),
        violates_thunderstorms(*minimums, *weather) ==> is_substring_of(
            "Thunderstorms present"@,
            r.unwrap().reason@,
        ),
{
    let (safe, reason) = is_flight_safe(&student.training_level, weather, minimums);
    if safe {
        None
    } else {
        let reason_text = match reason {
            Some(t) => t,
            None => String::new(),
        };
        let mut message = String::from_str("Flight cancelled: ");
        message.append(reason_text.as_str());
        let stamp = format_rfc3339(booking.scheduled_date);
        let message_copy = message.clone();
        let notification_json = conflict_notification(
            booking.id.as_str(),
            message.as_str(),
            stamp.as_str(),
            student.name.as_str(),
        );
        Some(
            ConflictAction {
                new_status: BookingStatus::Cancelled,
                reason: reason_text,
                message: message_copy,
                notification_json,
            },
        )
    }
}

/// The reschedule-event placeholder the hourly sweep records for a
/// cancellation: both dates stand at the original booking time until the
/// student picks a new one, attributed to the system.
pub fn reschedule_placeholder(id: String, booking: &Booking) -> (r: RescheduleEvent)
    ensures
        r.id@ == id@,
        r.booking_id@ == booking.id@,
        r.original_date == booking.scheduled_date,
        r.new_date == booking.scheduled_date,
        r.suggested_by@ == "SYSTEM"@,
        r.ai_suggestions is None,
{
    RescheduleEvent {
        id,
        booking_id: booking.id.clone(),
        original_date: booking.scheduled_date,
        new_date: booking.scheduled_date,
        suggested_by: String::from_str("SYSTEM"),
        ai_suggestions: None,
    }
}

// ---------------------------------------------------------------------------
// Five-minute alert sweep: per-booking decision
// ---------------------------------------------------------------------------
/// A persisted weather alert record. Timestamps are Unix seconds.
#[derive(Debug, Clone)]
pub struct WeatherAlert {
    pub id: String,
    pub booking_id: Option<String>,
    pub severity: String,
    pub message: String,
    pub location: String,
    pub student_name: Option<String>,
    pub original_date: Option<i64>,
    pub created_at: i64,
    pub dismissed_at: Option<i64>,
}

/// Four zero-padded decimal digits.
pub open spec fn four_digits(n: int) -> Seq<char>
    recommends
        0 <= n < 10000,
{
    seq![
        digit_char(n / 1000),
        digit_char((n / 100) % 10),
        digit_char((n / 10) % 10),
        digit_char(n % 10),
    ]
}

/// A coordinate in millionths of a degree rendered with four digits after
/// the decimal point, halves rounded away from zero.
pub open spec fn microdeg_4dp(v: int) -> Seq<char> {
    let mag = if v < 0 {
        -v
    } else {
        v
    };
    let r = (mag + 50) / 100;
    (if v < 0 {
        seq!['-']
    } else {
        Seq::<char>::empty()
    }) + dec_digits((r / 10000) as nat) + seq!['.'] + four_digits(r % 10000)
}

fn append_four_digits(out: &mut String, n: u64)
    requires
        n < 10000,
    ensures
        final(out)@ == old(out)@ + four_digits(n as int),
{
    out.append(crate::numfmt::digit_str(n / 1000));
    out.append(crate::numfmt::digit_str((n / 100) % 10));
    out.append(crate::numfmt::digit_str((n / 10) % 10));
    out.append(crate::numfmt::digit_str(n % 10));
    proof {
        assert(final(out)@ =~= old(out)@ + four_digits(n as int));
    }
}

fn append_microdeg(out: &mut String, v: i64)
    ensures
        final(out)@ == old(out)@ + microdeg_4dp(v as int),
{
    let mag: u64 = if v >= 0 {
        v as u64
    } else {
        ((-(v + 1)) as u64) + 1
    };
    proof {
        assert(mag == (if v < 0 {
            -(v as int)
        } else {
            v as int
        }));
    }
    if v < 0 {
        out.append("-");
        proof {
            reveal_strlit("-");
        }
    }
    let r = (mag + 50) / 100;
    let whole = fmt_u64(r / 10000);
    out.append(whole.as_str());
    out.append(".");
    proof {
        reveal_strlit(".");
    }
    append_four_digits(out, r % 10000);
    proof {
        assert(final(out)@ =~= old(out)@ + microdeg_4dp(v as int));
    }
}

/// The location string of an alert: the coordinates to four decimal places.
pub open spec fn location_text_spec(lat_microdeg: int, lon_microdeg: int) -> Seq<char> {
    "("@ + microdeg_4dp(lat_microdeg) + ", "@ + microdeg_4dp(lon_microdeg) + ")"@
}

/// Renders a booking's departure coordinates for an alert record.
pub fn location_text(lat_microdeg: i64, lon_microdeg: i64) -> (r: String)
    ensures
        r@ == location_text_spec(lat_microdeg as int, lon_microdeg as int),
{
    let mut out = String::from_str("(");
    append_microdeg(&mut out, lat_microdeg);
    out.append(", ");
    append_microdeg(&mut out, lon_microdeg);
    out.append(")");
    out
}

/// What the five-minute sweep does about one concerning booking: the alert
/// record to persist and the payload to publish.
pub struct WeatherAlertNotice {
    pub alert: WeatherAlert,
    pub payload_json: String,
    pub score: u32,
    pub severity: AlertSeverity,
}

/// Decides one booking of the five-minute alert sweep: nothing when the
/// score reaches nine points; otherwise the graded alert record, keyed by
/// the caller-supplied alert id and stamped `now`, and its notification
/// payload.
pub fn weather_alert_decision(
    alert_id: String,
    booking: &Booking,
    student: &Student,
    weather: &WeatherData,
    now: i64,
) -> (r: Option<WeatherAlertNotice>)
    ensures
        r is Some <==> score_spec(student.training_level, *weather) < LOW_BELOW_UNITS as int,
        r is Some ==> {
            let score = score_spec(student.training_level, *weather);
            let sev = severity_spec(score, *weather);
            let message = alert_message_spec(sev, *weather, student.training_level, score);
            let location = location_text_spec(
                booking.departure_location.lat_microdeg as int,
                booking.departure_location.lon_microdeg as int,
            );
            &&& r.unwrap().score == score
            &&& r.unwrap().severity == sev
            &&& sev != AlertSeverity::Clear
            &&& r.unwrap().alert.id@ == alert_id@
            &&& r.unwrap().alert.booking_id matches Some(b) && b@ == booking.id@
            &&& r.unwrap().alert.severity@ == severity_name_spec(sev)
            &&& r.unwrap().alert.message@ == message
            &&& r.unwrap().alert.location@ == location
            &&& r.unwrap().alert.student_name matches Some(n) && n@ == student.name@
            &&& r.unwrap().alert.original_date == Some(booking.scheduled_date)
            &&& r.unwrap().alert.created_at == now
            &&& r.unwrap().alert.dismissed_at is None
            &&& r.unwrap().payload_json@ == alert_notification_spec(
                alert_id@,
                booking.id@,
                location,
                message,
                rfc3339_text(booking.scheduled_date),
                severity_name_spec(sev),
                student.name@,
                rfc3339_text(now),
            )
        },
{
    let score = calculate_weather_score(&student.training_level, weather);
    if score >= LOW_BELOW_UNITS {
        return None;
    }
    let severity = determine_severity(score, weather);
    let message = create_alert_message(&severity, weather, student, score);
    let location = location_text(
        booking.departure_location.lat_microdeg,
        booking.departure_location.lon_microdeg,
    );
    let original_stamp = format_rfc3339(booking.scheduled_date);
    let now_stamp = format_rfc3339(now);
    let severity_name = severity_to_string(&severity);
    let payload_json = alert_notification(
        alert_id.as_str(),
        booking.id.as_str(),
        location.as_str(),
        message.as_str(),
        original_stamp.as_str(),
        severity_name,
        student.name.as_str(),
        now_stamp.as_str(),
    );
    proof {
        lemma_severity_clear_iff_high_score(student.training_level, *weather);
    }
    let alert = WeatherAlert {
        id: alert_id,
        booking_id: Some(booking.id.clone()),
        severity: String::from_str(severity_name),
        message,
        location,
        student_name: Some(student.name.clone()),
        original_date: Some(booking.scheduled_date),
        created_at: now,
        dismissed_at: None,
    };
    Some(WeatherAlertNotice { alert, payload_json, score, severity })
}

// ---------------------------------------------------------------------------
// Sweep-scoped weather cache and retry policy
// ---------------------------------------------------------------------------
/// What a sweep-scoped cache holding `entries` answers for a coordinate
/// pair: the first sample stored under it.
pub open spec fn location_lookup(
    entries: Seq<(i64, i64, WeatherData)>,
    lat: i64,
    lon: i64,
) -> Option<WeatherData>
    decreases entries.len(),
{
    if entries.len() == 0 {
        None
    } else if entries.first().0 == lat && entries.first().1 == lon {
        Some(entries.first().2)
    } else {
        location_lookup(entries.drop_first(), lat, lon)
    }
}

/// Sweep-scoped weather cache, keyed by departure coordinates, so one sweep
/// fetches each location once. The first sample stored for a location wins.
pub struct LocationWeatherCache {
    entries: Vec<(i64, i64, WeatherData)>,
}

impl View for LocationWeatherCache {
    type V = Seq<(i64, i64, WeatherData)>;

    closed spec fn view(&self) -> Seq<(i64, i64, WeatherData)> {
        self.entries@
    }
}

impl LocationWeatherCache {
    /// An empty sweep cache.
    pub fn new() -> (r: Self)
        ensures
            r@ =~= Seq::<(i64, i64, WeatherData)>::empty(),
    {
        LocationWeatherCache { entries: Vec::new() }
    }

    /// The sample stored for a coordinate pair, if any.
    pub fn get(&self, lat: i64, lon: i64) -> (r: Option<&WeatherData>)
        ensures
            r is Some <==> location_lookup(self@, lat, lon) is Some,
            r is Some ==> *r.unwrap() == location_lookup(self@, lat, lon).unwrap(),
    {
        let n = self.entries.len();
        let mut i: usize = 0;
        proof {
            assert(self@.skip(0) =~= self@);
        }
        while i < n
            invariant
                n == self.entries@.len(),
                0 <= i <= n,
                location_lookup(self@, lat, lon) == location_lookup(self@.skip(i as int), lat, lon),
            decreases n - i,
        {
            proof {
                assert(self@.skip(i as int).first() == self.entries@[i as int]);
                assert(self@.skip(i as int).drop_first() =~= self@.skip(i as int + 1));
            }
            let e = &self.entries[i];
            if e.0 == lat && e.1 == lon {
                return Some(&e.2);
            }
            i += 1;
        }
        proof {
            assert(self@.skip(n as int) =~= Seq::<(i64, i64, WeatherData)>::empty());
        }
        None
    }

    /// Stores a sample for a coordinate pair. An earlier sample for the
    /// same pair keeps answering lookups.
    pub fn insert(&mut self, lat: i64, lon: i64, weather: WeatherData)
        ensures
            final(self)@ == old(self)@.push((lat, lon, weather)),
    {
        self.entries.push((lat, lon, weather));
    }
}

/// How many attempts an external call gets before its failure surfaces.
pub const RETRY_MAX_ATTEMPTS: u32 = 3;

/// The backoff before retrying a failed external call: 100 ms doubled for
/// each completed attempt.
pub fn retry_delay_ms(attempt: u32) -> (d: u64)
    requires
        attempt < RETRY_MAX_ATTEMPTS,
    ensures
        attempt == 0 ==> d == 100,
        attempt == 1 ==> d == 200,
        attempt == 2 ==> d == 400,
{
    match attempt {
        0 => 100,
        1 => 200,
        _ => 400,
    }
}

} // verus!
