use vstd::prelude::*;

use crate::models::{TrainingLevel, WeatherMinimum};
use crate::numfmt::{dec_digits, fmt_tenths, fmt_u64, tenths_digits};
use crate::text::{
    is_substring_of, lemma_append_makes_substring, lemma_prefix_is_substring,
    lemma_substring_trans,
};
use crate::weather::WeatherData;

verus! {

// Weather scoring constants. A score point is divided into
// `SCORE_UNITS_PER_POINT` sub-units so that every deduction of the scoring
// rules is an exact integer.
pub const SCORE_UNITS_PER_POINT: u32 = 7500;

pub const PERFECT_SCORE_UNITS: u32 = 75000;

pub const THUNDERSTORM_PENALTY_UNITS: u32 = 37500;

pub const ICING_PENALTY_UNITS: u32 = 22500;

pub const IDEAL_VISIBILITY_SM_TENTHS: u32 = 100;

/// Visibility deduction: 2 points spread over the 100 tenths below ideal.
pub const VISIBILITY_PENALTY_UNITS_PER_TENTH: u32 = 150;

pub const CALM_WIND_KT_TENTHS: u32 = 50;

pub const MAX_WIND_PENALTY_KT_TENTHS: u32 = 150;

/// Wind deduction: 2 points spread over the 150 tenths of the penalty band.
pub const WIND_PENALTY_UNITS_PER_TENTH: u32 = 100;

pub const IDEAL_CEILING_FT: u32 = 5000;

/// Ceiling deduction: 2 points spread over the 5000 ft below ideal.
pub const CEILING_PENALTY_UNITS_PER_FT: u32 = 3;

pub const STUDENT_HIGH_WIND_THRESHOLD_KT_TENTHS: u32 = 100;

pub const STUDENT_HIGH_WIND_PENALTY_UNITS: u32 = 15000;

pub const STUDENT_CEILING_FLOOR_FT: u32 = 3000;

pub const IMC_CEILING_FT: u32 = 1000;

pub const IMC_VISIBILITY_SM_TENTHS: u32 = 30;

// ---------------------------------------------------------------------------
// Safety rules
// ---------------------------------------------------------------------------
pub open spec fn violates_thunderstorms(m: WeatherMinimum, w: WeatherData) -> bool {
    m.no_thunderstorms && w.has_thunderstorms
}

pub open spec fn violates_icing(m: WeatherMinimum, w: WeatherData) -> bool {
    m.no_icing && w.has_icing
}

pub open spec fn violates_visibility(m: WeatherMinimum, w: WeatherData) -> bool {
    w.visibility_sm_tenths < m.min_visibility_sm_tenths
}

pub open spec fn violates_wind(m: WeatherMinimum, w: WeatherData) -> bool {
    w.wind_speed_kt_tenths > m.max_wind_speed_kt_tenths
}

pub open spec fn violates_ceiling(m: WeatherMinimum, w: WeatherData) -> bool {
    m.min_ceiling_ft is Some && w.ceiling_ft is Some && w.ceiling_ft.unwrap()
        < m.min_ceiling_ft.unwrap()
}

/// Hard floor for student pilots, independent of the configured minimums.
pub open spec fn violates_student_ceiling(level: TrainingLevel, w: WeatherData) -> bool {
    level == TrainingLevel::StudentPilot && w.ceiling_ft is Some && w.ceiling_ft.unwrap()
        < STUDENT_CEILING_FLOOR_FT
}

/// IMC proxy: when IMC is disallowed and a reported ceiling is below 1000 ft
/// or visibility is below 3 statute miles. A missing ceiling is treated as
/// clear skies and triggers nothing.
pub open spec fn violates_imc(m: WeatherMinimum, w: WeatherData) -> bool {
    !m.allow_imc && w.ceiling_ft is Some && (w.ceiling_ft.unwrap() < IMC_CEILING_FT
        || w.visibility_sm_tenths < IMC_VISIBILITY_SM_TENTHS)
}

/// A sample is safe exactly when none of the rules is violated.
pub open spec fn is_safe_spec(level: TrainingLevel, w: WeatherData, m: WeatherMinimum) -> bool {
    &&& !violates_thunderstorms(m, w)
    &&& !violates_icing(m, w)
    &&& !violates_visibility(m, w)
    &&& !violates_wind(m, w)
    &&& !violates_ceiling(m, w)
    &&& !violates_student_ceiling(level, w)
    &&& !violates_imc(m, w)
}

/// How many of the rules are violated.
pub open spec fn violation_count(level: TrainingLevel, w: WeatherData, m: WeatherMinimum) -> int {
    (if violates_thunderstorms(m, w) {
        1int
    } else {
        0int
    }) + (if violates_icing(m, w) {
        1int
    } else {
        0int
    }) + (if violates_visibility(m, w) {
        1int
    } else {
        0int
    }) + (if violates_wind(m, w) {
        1int
    } else {
        0int
    }) + (if violates_ceiling(m, w) {
        1int
    } else {
        0int
    }) + (if violates_student_ceiling(level, w) {
        1int
    } else {
        0int
    }) + (if violates_imc(m, w) {
        1int
    } else {
        0int
    })
}

/// Which rule index is violated: the rules in evaluation order.
pub open spec fn rule_violated(k: int, level: TrainingLevel, w: WeatherData, m: WeatherMinimum) -> bool {
    if k == 0 {
        violates_thunderstorms(m, w)
    } else if k == 1 {
        violates_icing(m, w)
    } else if k == 2 {
        violates_visibility(m, w)
    } else if k == 3 {
        violates_wind(m, w)
    } else if k == 4 {
        violates_ceiling(m, w)
    } else if k == 5 {
        violates_student_ceiling(level, w)
    } else {
        violates_imc(m, w)
    }
}

/// The message of one rule, meaningful when the rule is violated.
pub open spec fn rule_message(k: int, level: TrainingLevel, w: WeatherData, m: WeatherMinimum) -> Seq<char> {
    if k == 0 {
        "Thunderstorms present"@
    } else if k == 1 {
        "Icing conditions present"@
    } else if k == 2 {
        "Visibility "@ + tenths_digits(w.visibility_sm_tenths as nat) + "mi below minimum "@
            + tenths_digits(m.min_visibility_sm_tenths as nat) + "mi for "@ + level_label_spec(
            level,
        )
    } else if k == 3 {
        "Wind speed "@ + tenths_digits(w.wind_speed_kt_tenths as nat) + "kt exceeds maximum "@
            + tenths_digits(m.max_wind_speed_kt_tenths as nat) + "kt for "@ + level_label_spec(
            level,
        )
    } else if k == 4 {
        "Ceiling "@ + dec_digits(w.ceiling_ft.unwrap() as nat) + "ft below minimum "@ + dec_digits(
            m.min_ceiling_ft.unwrap() as nat,
        ) + "ft for "@ + level_label_spec(level)
    } else if k == 5 {
        "Ceiling "@ + dec_digits(w.ceiling_ft.unwrap() as nat)
            + "ft too low for student pilot (minimum 3000ft)"@
    } else {
        "IMC conditions not allowed for this training level"@
    }
}

/// The reason text accumulated over the first `k` rules: the messages of
/// the violated rules, in rule order, joined with `"; "`.
pub open spec fn reason_upto(k: int, level: TrainingLevel, w: WeatherData, m: WeatherMinimum) -> Seq<char>
    decreases k,
{
    if k <= 0 {
        Seq::empty()
    } else {
        let acc = reason_upto(k - 1, level, w, m);
        if rule_violated(k - 1, level, w, m) {
            if acc.len() == 0 {
                rule_message(k - 1, level, w, m)
            } else {
                acc + "; "@ + rule_message(k - 1, level, w, m)
            }
        } else {
            acc
        }
    }
}

/// The full reason text of an unsafe sample.
pub open spec fn reason_text(level: TrainingLevel, w: WeatherData, m: WeatherMinimum) -> Seq<char> {
    reason_upto(7, level, w, m)
}

/// The derive-style name of a training level, as it appears in reasons.
pub open spec fn level_label_spec(level: TrainingLevel) -> Seq<char> {
    match level {
        TrainingLevel::StudentPilot => "StudentPilot"@,
        TrainingLevel::PrivatePilot => "PrivatePilot"@,
        TrainingLevel::InstrumentRated => "InstrumentRated"@,
    }
}

pub(crate) fn level_label(level: &TrainingLevel) -> (r: &'static str)
    ensures
        r@ == level_label_spec(*level),
{
    match level {
        TrainingLevel::StudentPilot => "StudentPilot",
        TrainingLevel::PrivatePilot => "PrivatePilot",
        TrainingLevel::InstrumentRated => "InstrumentRated",
    }
}

fn visibility_message(vis: u32, min_vis: u32, level: &TrainingLevel) -> (r: String)
    ensures
        r@ == "Visibility "@ + tenths_digits(vis as nat) + "mi below minimum "@ + tenths_digits(
            min_vis as nat,
        ) + "mi for "@ + level_label_spec(*level),
        is_substring_of("Visibility "@, r@),
{
    let mut m = String::from_str("Visibility ");
    let t1 = fmt_tenths(vis);
    m.append(t1.as_str());
    m.append("mi below minimum ");
    let t2 = fmt_tenths(min_vis);
    m.append(t2.as_str());
    m.append("mi for ");
    m.append(level_label(level));
    proof {
        assert(m@.subrange(0, "Visibility "@.len() as int) =~= "Visibility "@);
        lemma_prefix_is_substring("Visibility "@, m@);
    }
    m
}

fn wind_message(wind: u32, max_wind: u32, level: &TrainingLevel) -> (r: String)
    ensures
        r@ == "Wind speed "@ + tenths_digits(wind as nat) + "kt exceeds maximum "@ + tenths_digits(
            max_wind as nat,
        ) + "kt for "@ + level_label_spec(*level),
        is_substring_of("Wind speed "@, r@),
{
    let mut m = String::from_str("Wind speed ");
    let t1 = fmt_tenths(wind);
    m.append(t1.as_str());
    m.append("kt exceeds maximum ");
    let t2 = fmt_tenths(max_wind);
    m.append(t2.as_str());
    m.append("kt for ");
    m.append(level_label(level));
    proof {
        assert(m@.subrange(0, "Wind speed "@.len() as int) =~= "Wind speed "@);
        lemma_prefix_is_substring("Wind speed "@, m@);
    }
    m
}

fn ceiling_message(ceiling: u32, min_ceiling: u32, level: &TrainingLevel) -> (r: String)
    ensures
        r@ == "Ceiling "@ + dec_digits(ceiling as nat) + "ft below minimum "@ + dec_digits(
            min_ceiling as nat,
        ) + "ft for "@ + level_label_spec(*level),
        is_substring_of("Ceiling "@, r@),
{
    let mut m = String::from_str("Ceiling ");
    let t1 = fmt_u64(ceiling as u64);
    m.append(t1.as_str());
    m.append("ft below minimum ");
    let t2 = fmt_u64(min_ceiling as u64);
    m.append(t2.as_str());
    m.append("ft for ");
    m.append(level_label(level));
    proof {
        assert(m@.subrange(0, "Ceiling "@.len() as int) =~= "Ceiling "@);
        lemma_prefix_is_substring("Ceiling "@, m@);
    }
    m
}

fn student_ceiling_message(ceiling: u32) -> (r: String)
    ensures
        r@ == "Ceiling "@ + dec_digits(ceiling as nat)
            + "ft too low for student pilot (minimum 3000ft)"@,
        is_substring_of("too low for student pilot"@, r@),
{
    let mut m = String::from_str("Ceiling ");
    let t1 = fmt_u64(ceiling as u64);
    m.append(t1.as_str());
    m.append("ft too low for student pilot (minimum 3000ft)");
    proof {
        reveal_strlit("ft too low for student pilot (minimum 3000ft)");
        reveal_strlit("too low for student pilot");
        let tail = "ft too low for student pilot (minimum 3000ft)"@;
        let sub = "too low for student pilot"@;
        assert(tail.subrange(3, 3 + sub.len() as int) =~= sub);
        assert(is_substring_of(sub, tail));
        lemma_append_makes_substring("Ceiling "@ + dec_digits(ceiling as nat), tail);
        lemma_substring_trans(sub, tail, m@);
    }
    m
}

/// Appends one violation message, preceded by the `"; "` separator when
/// `sep` is set, and keeps every substring of the previous text a substring.
fn push_reason(reason: &mut String, sep: bool, msg: &str)
    ensures
        sep ==> final(reason)@ == old(reason)@ + "; "@ + msg@,
        !sep ==> final(reason)@ == old(reason)@ + msg@,
        is_substring_of(msg@, final(reason)@),
        sep ==> is_substring_of("; "@, final(reason)@),
        forall|s: Seq<char>| #[trigger]
            is_substring_of(s, old(reason)@) ==> is_substring_of(s, final(reason)@),
{
    if sep {
        reason.append("; ");
        reason.append(msg);
        proof {
            lemma_append_makes_substring(old(reason)@ + "; "@, msg@);
            lemma_append_makes_substring(old(reason)@, "; "@);
            crate::text::lemma_substring_extend("; "@, old(reason)@ + "; "@, msg@);
            assert(is_substring_of("; "@, (old(reason)@ + "; "@) + msg@));
            assert forall|s: Seq<char>| #[trigger]
                is_substring_of(s, old(reason)@) implies is_substring_of(s, final(reason)@) by {
                crate::text::lemma_substring_extend(s, old(reason)@, "; "@);
                crate::text::lemma_substring_extend(s, old(reason)@ + "; "@, msg@);
            }
        }
    } else {
        reason.append(msg);
        proof {
            lemma_append_makes_substring(old(reason)@, msg@);
            assert forall|s: Seq<char>| #[trigger]
                is_substring_of(s, old(reason)@) implies is_substring_of(s, final(reason)@) by {
                crate::text::lemma_substring_extend(s, old(reason)@, msg@);
            }
        }
    }
}

/// Checks whether a flight is safe for the given training level and weather.
///
/// Returns the safety verdict and, when unsafe, every violated rule's
/// message joined in rule order with `"; "`.
#[verifier::rlimit(60)]
pub fn is_flight_safe(
    training_level: &TrainingLevel,
    weather: &WeatherData,
    minimums: &WeatherMinimum,
) -> (r: (bool, Option<String>))
    ensures
        r.0 == is_safe_spec(*training_level, *weather, *minimums),
        r.1 is Some <==> !r.0,
        violates_thunderstorms(*minimums, *weather) ==> is_substring_of(
            "Thunderstorms present"@,
            r.1.unwrap()@,
        ),
        violates_icing(*minimums, *weather) ==> is_substring_of(
            "Icing conditions present"@,
            r.1.unwrap()@,
        ),
        violates_visibility(*minimums, *weather) ==> is_substring_of(
            "Visibility "@,
            r.1.unwrap()@,
        ),
        violates_wind(*minimums, *weather) ==> is_substring_of("Wind speed "@, r.1.unwrap()@),
        violates_ceiling(*minimums, *weather) ==> is_substring_of("Ceiling "@, r.1.unwrap()@),
        violates_student_ceiling(*training_level, *weather) ==> is_substring_of(
            "too low for student pilot"@,
            r.1.unwrap()@,
        ),
        violates_imc(*minimums, *weather) ==> is_substring_of(
            "IMC conditions not allowed for this training level"@,
            r.1.unwrap()@,
        ),
        violation_count(*training_level, *weather, *minimums) >= 2 ==> is_substring_of(
            "; "@,
            r.1.unwrap()@,
        ),
        r.1 matches Some(t) ==> t@ == reason_text(*training_level, *weather, *minimums),
{
    let ghost lvl = *training_level;
    let ghost wx = *weather;
    let ghost mins = *minimums;
    let mut reason = String::new();
    let mut n: u64 = 0;
    proof {
        assert(reason@ =~= reason_upto(0, lvl, wx, mins));
    }

    if minimums.no_thunderstorms && weather.has_thunderstorms {
        push_reason(&mut reason, n > 0, "Thunderstorms present");
        proof {
            reveal_strlit("Thunderstorms present");
        }
        n += 1;
    }
    proof {
        assert(reason@ =~= reason_upto(1, lvl, wx, mins));
        assert((n == 0) <==> reason@.len() == 0);
    }

    if minimums.no_icing && weather.has_icing {
        push_reason(&mut reason, n > 0, "Icing conditions present");
        proof {
            reveal_strlit("Icing conditions present");
        }
        n += 1;
    }
    proof {
        assert(reason@ =~= reason_upto(2, lvl, wx, mins));
        assert((n == 0) <==> reason@.len() == 0);
    }

    if weather.visibility_sm_tenths < minimums.min_visibility_sm_tenths {
        let msg = visibility_message(
            weather.visibility_sm_tenths,
            minimums.min_visibility_sm_tenths,
            training_level,
        );
        push_reason(&mut reason, n > 0, msg.as_str());
        proof {
            lemma_substring_trans("Visibility "@, msg@, reason@);
            reveal_strlit("Visibility ");
        }
        n += 1;
    }
    proof {
        assert(reason@ =~= reason_upto(3, lvl, wx, mins));
        assert((n == 0) <==> reason@.len() == 0);
    }

    if weather.wind_speed_kt_tenths > minimums.max_wind_speed_kt_tenths {
        let msg = wind_message(
            weather.wind_speed_kt_tenths,
            minimums.max_wind_speed_kt_tenths,
            training_level,
        );
        push_reason(&mut reason, n > 0, msg.as_str());
        proof {
            lemma_substring_trans("Wind speed "@, msg@, reason@);
            reveal_strlit("Wind speed ");
        }
        n += 1;
    }
    proof {
        assert(reason@ =~= reason_upto(4, lvl, wx, mins));
        assert((n == 0) <==> reason@.len() == 0);
    }

    if let Some(min_ceiling) = minimums.min_ceiling_ft {
        if let Some(ceiling) = weather.ceiling_ft {
            if ceiling < min_ceiling {
                let msg = ceiling_message(ceiling, min_ceiling, training_level);
                push_reason(&mut reason, n > 0, msg.as_str());
                proof {
                    lemma_substring_trans("Ceiling "@, msg@, reason@);
                }
                n += 1;
            }
        }
        // A missing ceiling with IMC disallowed is deliberately not flagged:
        // an absent ceiling stands for clear or unlimited skies.
    }
    proof {
        reveal_strlit("Ceiling ");
        assert(reason@ =~= reason_upto(5, lvl, wx, mins));
        assert((n == 0) <==> reason@.len() == 0);
    }

    if matches!(training_level, TrainingLevel::StudentPilot) {
        if let Some(ceiling) = weather.ceiling_ft {
            if ceiling < STUDENT_CEILING_FLOOR_FT {
                let msg = student_ceiling_message(ceiling);
                push_reason(&mut reason, n > 0, msg.as_str());
                proof {
                    lemma_substring_trans("too low for student pilot"@, msg@, reason@);
                    reveal_strlit("Ceiling ");
                }
                n += 1;
            }
        }
    }
    proof {
        assert(reason@ =~= reason_upto(6, lvl, wx, mins));
        assert((n == 0) <==> reason@.len() == 0);
    }

    if !minimums.allow_imc {
        if let Some(ceiling) = weather.ceiling_ft {
            if ceiling < IMC_CEILING_FT || weather.visibility_sm_tenths
                < IMC_VISIBILITY_SM_TENTHS {
                push_reason(
                    &mut reason,
                    n > 0,
                    "IMC conditions not allowed for this training level",
                );
                proof {
                    reveal_strlit("IMC conditions not allowed for this training level");
                }
                n += 1;
            }
        }
    }
    proof {
        assert(reason@ =~= reason_upto(7, lvl, wx, mins));
    }

    if n == 0 {
        (true, None)
    } else {
        (false, Some(reason))
    }
}

// ---------------------------------------------------------------------------
// Weather scoring
// ---------------------------------------------------------------------------
/// Total deduction of the scoring rules, in score sub-units, before clamping.
pub open spec fn score_deductions(level: TrainingLevel, w: WeatherData) -> int {
    (if w.has_thunderstorms {
        THUNDERSTORM_PENALTY_UNITS as int
    } else {
        0int
    }) + (if w.has_icing {
        ICING_PENALTY_UNITS as int
    } else {
        0int
    }) + (if w.visibility_sm_tenths < IDEAL_VISIBILITY_SM_TENTHS {
        (IDEAL_VISIBILITY_SM_TENTHS - w.visibility_sm_tenths) * VISIBILITY_PENALTY_UNITS_PER_TENTH
    } else {
        0int
    }) + (if w.wind_speed_kt_tenths > CALM_WIND_KT_TENTHS {
        (if w.wind_speed_kt_tenths - CALM_WIND_KT_TENTHS <= MAX_WIND_PENALTY_KT_TENTHS {
            w.wind_speed_kt_tenths - CALM_WIND_KT_TENTHS
        } else {
            MAX_WIND_PENALTY_KT_TENTHS as int
        }) * WIND_PENALTY_UNITS_PER_TENTH
    } else {
        0int
    }) + (if w.ceiling_ft is Some && w.ceiling_ft.unwrap() < IDEAL_CEILING_FT {
        (IDEAL_CEILING_FT - w.ceiling_ft.unwrap()) * CEILING_PENALTY_UNITS_PER_FT
    } else {
        0int
    }) + (if level == TrainingLevel::StudentPilot && w.wind_speed_kt_tenths
        > STUDENT_HIGH_WIND_THRESHOLD_KT_TENTHS {
        STUDENT_HIGH_WIND_PENALTY_UNITS as int
    } else {
        0int
    })
}

/// The weather score in sub-units: the perfect score minus the deductions,
/// clamped to `[0, PERFECT_SCORE_UNITS]`.
pub open spec fn score_spec(level: TrainingLevel, w: WeatherData) -> int {
    if score_deductions(level, w) >= PERFECT_SCORE_UNITS as int {
        0int
    } else {
        PERFECT_SCORE_UNITS - score_deductions(level, w)
    }
}

/// Calculates the weather score, in sub-units of `SCORE_UNITS_PER_POINT`
/// per point, on the 0 to 10 point scale (so 0 to 75000 sub-units).
pub fn calculate_weather_score(training_level: &TrainingLevel, weather: &WeatherData) -> (r: u32)
    ensures
        r == score_spec(*training_level, *weather),
        r <= PERFECT_SCORE_UNITS,
{
    let mut deductions: u64 = 0;

    if weather.has_thunderstorms {
        deductions += THUNDERSTORM_PENALTY_UNITS as u64;
    }
    if weather.has_icing {
        deductions += ICING_PENALTY_UNITS as u64;
    }
    if weather.visibility_sm_tenths < IDEAL_VISIBILITY_SM_TENTHS {
        deductions += ((IDEAL_VISIBILITY_SM_TENTHS - weather.visibility_sm_tenths)
            * VISIBILITY_PENALTY_UNITS_PER_TENTH) as u64;
    }
    if weather.wind_speed_kt_tenths > CALM_WIND_KT_TENTHS {
        let over = weather.wind_speed_kt_tenths - CALM_WIND_KT_TENTHS;
        let capped = if over <= MAX_WIND_PENALTY_KT_TENTHS {
            over
        } else {
            MAX_WIND_PENALTY_KT_TENTHS
        };
        deductions += (capped * WIND_PENALTY_UNITS_PER_TENTH) as u64;
    }
    if let Some(ceiling) = weather.ceiling_ft {
        if ceiling < IDEAL_CEILING_FT {
            deductions += ((IDEAL_CEILING_FT - ceiling) * CEILING_PENALTY_UNITS_PER_FT) as u64;
        }
    }
    if matches!(training_level, TrainingLevel::StudentPilot) {
        if weather.wind_speed_kt_tenths > STUDENT_HIGH_WIND_THRESHOLD_KT_TENTHS {
            deductions += STUDENT_HIGH_WIND_PENALTY_UNITS as u64;
        }
    }

    if deductions >= PERFECT_SCORE_UNITS as u64 {
        0
    } else {
        PERFECT_SCORE_UNITS - (deductions as u32)
    }
}

// ---------------------------------------------------------------------------
// Default minimums
// ---------------------------------------------------------------------------
/// The default weather minimums for one training level.
pub open spec fn default_minimums(level: TrainingLevel) -> WeatherMinimum {
    match level {
        TrainingLevel::StudentPilot => WeatherMinimum {
            training_level: TrainingLevel::StudentPilot,
            min_visibility_sm_tenths: 50,
            max_wind_speed_kt_tenths: 120,
            min_ceiling_ft: Some(3000u32),
            allow_imc: false,
            no_thunderstorms: true,
            no_icing: true,
        },
        TrainingLevel::PrivatePilot => WeatherMinimum {
            training_level: TrainingLevel::PrivatePilot,
            min_visibility_sm_tenths: 30,
            max_wind_speed_kt_tenths: 200,
            min_ceiling_ft: Some(1000u32),
            allow_imc: false,
            no_thunderstorms: true,
            no_icing: true,
        },
        TrainingLevel::InstrumentRated => WeatherMinimum {
            training_level: TrainingLevel::InstrumentRated,
            min_visibility_sm_tenths: 10,
            max_wind_speed_kt_tenths: 300,
            min_ceiling_ft: None,
            allow_imc: true,
            no_thunderstorms: true,
            no_icing: true,
        },
    }
}

/// The per-level minimums table, exactly one entry per training level.
pub struct MinimumsTable {
    pub student_pilot: WeatherMinimum,
    pub private_pilot: WeatherMinimum,
    pub instrument_rated: WeatherMinimum,
}

impl MinimumsTable {
    /// Every slot holds the default record for its level.
    pub open spec fn is_default(&self) -> bool {
        &&& self.student_pilot == default_minimums(TrainingLevel::StudentPilot)
        &&& self.private_pilot == default_minimums(TrainingLevel::PrivatePilot)
        &&& self.instrument_rated == default_minimums(TrainingLevel::InstrumentRated)
    }

    /// Looks up the minimums for a training level; every level has an entry.
    pub fn get(&self, level: &TrainingLevel) -> (r: Option<&WeatherMinimum>)
        ensures
            r is Some,
            *level == TrainingLevel::StudentPilot ==> *r.unwrap() == self.student_pilot,
            *level == TrainingLevel::PrivatePilot ==> *r.unwrap() == self.private_pilot,
            *level == TrainingLevel::InstrumentRated ==> *r.unwrap() == self.instrument_rated,
            self.is_default() ==> *r.unwrap() == default_minimums(*level),
    {
        match level {
            TrainingLevel::StudentPilot => Some(&self.student_pilot),
            TrainingLevel::PrivatePilot => Some(&self.private_pilot),
            TrainingLevel::InstrumentRated => Some(&self.instrument_rated),
        }
    }
}

/// Default weather minimums for each training level.
pub fn default_weather_minimums() -> (r: MinimumsTable)
    ensures
        r.is_default(),
{
    MinimumsTable {
        student_pilot: WeatherMinimum {
            training_level: TrainingLevel::StudentPilot,
            min_visibility_sm_tenths: 50,
            max_wind_speed_kt_tenths: 120,
            min_ceiling_ft: Some(3000),
            allow_imc: false,
            no_thunderstorms: true,
            no_icing: true,
        },
        private_pilot: WeatherMinimum {
            training_level: TrainingLevel::PrivatePilot,
            min_visibility_sm_tenths: 30,
            max_wind_speed_kt_tenths: 200,
            min_ceiling_ft: Some(1000),
            allow_imc: false,
            no_thunderstorms: true,
            no_icing: true,
        },
        instrument_rated: WeatherMinimum {
            training_level: TrainingLevel::InstrumentRated,
            min_visibility_sm_tenths: 10,
            max_wind_speed_kt_tenths: 300,
            min_ceiling_ft: None,
            allow_imc: true,
            no_thunderstorms: true,
            no_icing: true,
        },
    }
}

// ---------------------------------------------------------------------------
// Laws of the evaluator
// ---------------------------------------------------------------------------
/// Monotonic relaxation, first step: a sample safe under the student-pilot
/// default minimums is safe under the private-pilot default minimums.
pub proof fn lemma_student_safe_implies_private_safe(w: WeatherData)
    requires
        is_safe_spec(
            TrainingLevel::StudentPilot,
            w,
            default_minimums(TrainingLevel::StudentPilot),
        ),
    ensures
        is_safe_spec(TrainingLevel::PrivatePilot, w, default_minimums(TrainingLevel::PrivatePilot)),
{
}

/// Monotonic relaxation, second step: a sample safe under the private-pilot
/// default minimums is safe under the instrument-rated default minimums.
pub proof fn lemma_private_safe_implies_instrument_safe(w: WeatherData)
    requires
        is_safe_spec(
            TrainingLevel::PrivatePilot,
            w,
            default_minimums(TrainingLevel::PrivatePilot),
        ),
    ensures
        is_safe_spec(
            TrainingLevel::InstrumentRated,
            w,
            default_minimums(TrainingLevel::InstrumentRated),
        ),
{
}

/// A sample with thunderstorms present is unsafe for every training level
/// under the default minimums.
pub proof fn lemma_thunderstorms_always_unsafe(level: TrainingLevel, w: WeatherData)
    requires
        w.has_thunderstorms,
    ensures
        !is_safe_spec(level, w, default_minimums(level)),
{
}

/// A sample with zero visibility is unsafe for every training level under
/// the default minimums.
pub proof fn lemma_zero_visibility_always_unsafe(level: TrainingLevel, w: WeatherData)
    requires
        w.visibility_sm_tenths == 0,
    ensures
        !is_safe_spec(level, w, default_minimums(level)),
{
}

/// The score is monotone: a sample that is at least as bad on every factor
/// (visibility and ceiling no higher, wind no lower, thunderstorms and icing
/// no fewer) never scores better. A missing ceiling counts as ideal.
pub proof fn lemma_score_monotone(level: TrainingLevel, better: WeatherData, worse: WeatherData)
    requires
        worse.visibility_sm_tenths <= better.visibility_sm_tenths,
        worse.wind_speed_kt_tenths >= better.wind_speed_kt_tenths,
        better.ceiling_ft is Some ==> worse.ceiling_ft is Some && worse.ceiling_ft.unwrap()
            <= better.ceiling_ft.unwrap(),
        better.has_thunderstorms ==> worse.has_thunderstorms,
        better.has_icing ==> worse.has_icing,
    ensures
        score_spec(level, worse) <= score_spec(level, better),
{
}

/// The score never leaves the 0 to 10 point scale.
pub proof fn lemma_score_bounded(level: TrainingLevel, w: WeatherData)
    ensures
        0 <= score_spec(level, w) <= PERFECT_SCORE_UNITS,
{
}

} // verus!
