use vstd::prelude::*;

use crate::text::{contains_substr, is_substring_of, push_char};

verus! {

/// Weather data normalized to aviation units and carried as scaled
/// integers: visibility in tenths of a statute mile, wind in tenths of a
/// knot, ceiling in feet (`None` means clear/unlimited), temperature in
/// tenths of a degree Fahrenheit, and the observation instant as Unix
/// seconds.
#[derive(Debug, Clone)]
pub struct WeatherData {
    pub visibility_sm_tenths: u32,
    pub wind_speed_kt_tenths: u32,
    pub ceiling_ft: Option<u32>,
    pub temperature_f_tenths: i32,
    pub conditions: String,
    pub has_thunderstorms: bool,
    pub has_icing: bool,
    pub date_time: i64,
}


/// One reported weather condition of a raw observation.
#[derive(Debug, Clone)]
pub struct RawWeatherCondition {
    pub main: String,
    pub description: String,
}

/// A raw observation as the weather collaborator reports it, in scaled
/// integers: temperature in hundredths of a kelvin, visibility in meters,
/// wind in hundredths of a meter per second, cloud cover in whole percent,
/// and the observation instant as Unix seconds.
#[derive(Debug, Clone)]
pub struct RawObservation {
    pub weather: Vec<RawWeatherCondition>,
    pub temp_centi_k: u32,
    pub visibility_m: Option<u32>,
    pub wind_centi_ms: u32,
    pub clouds_pct: Option<u32>,
    pub dt: i64,
}

/// The visibility fallback when the observation reports none: ten
/// kilometers.
pub const DEFAULT_VISIBILITY_M: u32 = 10000;

/// Meters to tenths of a statute mile, rounded down
/// (one meter is 0.000621371 statute miles).
pub open spec fn meters_to_sm_tenths(m: int) -> int {
    m * 621371 / 100000000
}

/// Hundredths of a meter per second to tenths of a knot, rounded down
/// (one meter per second is 1.94384 knots).
pub open spec fn centi_ms_to_kt_tenths(c: int) -> int {
    c * 194384 / 1000000
}

/// Hundredths of a kelvin to tenths of a degree Fahrenheit, the fractional
/// part dropped.
pub open spec fn centi_kelvin_to_f_tenths(ck: int) -> int {
    if ck >= 27315 {
        (ck - 27315) * 18 / 100 + 320
    } else {
        320 - (27315 - ck) * 18 / 100
    }
}

/// Converts a visibility in meters.
pub fn visibility_from_meters(m: u32) -> (r: u32)
    ensures
        r as int == meters_to_sm_tenths(m as int),
{
    let prod: u64 = (m as u64) * 621371;
    proof {
        assert(prod <= 4294967295u64 * 621371);
        assert(prod / 100000000 <= 4294967295u64 * 621371 / 100000000) by (nonlinear_arith)
            requires
                prod <= 4294967295u64 * 621371,
        ;
    }
    (prod / 100000000) as u32
}

/// Converts a wind speed in hundredths of a meter per second.
pub fn wind_from_centi_ms(c: u32) -> (r: u32)
    ensures
        r as int == centi_ms_to_kt_tenths(c as int),
{
    let prod: u64 = (c as u64) * 194384;
    proof {
        assert(prod <= 4294967295u64 * 194384);
        assert(prod / 1000000 <= 4294967295u64 * 194384 / 1000000) by (nonlinear_arith)
            requires
                prod <= 4294967295u64 * 194384,
        ;
    }
    (prod / 1000000) as u32
}

/// Converts a temperature in hundredths of a kelvin.
pub fn temp_from_centi_kelvin(ck: u32) -> (r: i32)
    ensures
        r as int == centi_kelvin_to_f_tenths(ck as int),
{
    if ck >= 27315 {
        let above: u64 = (ck - 27315) as u64;
        let f: u64 = above * 18 / 100 + 320;
        proof {
            assert(above * 18 <= 4294967295u64 * 18);
            assert(above * 18 / 100 + 320 <= 4294967295u64 * 18 / 100 + 320) by (nonlinear_arith)
                requires
                    above * 18 <= 4294967295u64 * 18,
            ;
        }
        f as i32
    } else {
        let below: u64 = ((27315 - ck) as u64) * 18 / 100;
        proof {
            assert(((27315 - ck) as u64) * 18 <= 27315u64 * 18);
            assert(below <= 27315u64 * 18 / 100) by (nonlinear_arith)
                requires
                    ((27315 - ck) as u64) * 18 <= 27315u64 * 18,
                    below == ((27315 - ck) as u64) * 18 / 100,
            ;
        }
        320 - (below as i32)
    }
}

/// An ASCII letter lowered; every other character unchanged.
pub open spec fn ascii_lower_char(c: char) -> char {
    if 'A' <= c && c <= 'Z' {
        (((c as u8) + 32) as char)
    } else {
        c
    }
}

/// A string with its ASCII letters lowered.
pub open spec fn ascii_lower(s: Seq<char>) -> Seq<char> {
    s.map_values(|c: char| ascii_lower_char(c))
}

/// Lowers the ASCII letters of a string.
pub fn to_ascii_lower(s: &str) -> (r: String)
    ensures
        r@ == ascii_lower(s@),
{
    let n = s.unicode_len();
    let mut out = String::new();
    let mut i: usize = 0;
    proof {
        assert(out@ =~= ascii_lower(s@.take(0)));
    }
    while i < n
        invariant
            n == s@.len(),
            0 <= i <= n,
            out@ == ascii_lower(s@.take(i as int)),
        decreases n - i,
    {
        let c = s.get_char(i);
        let low = if 'A' <= c && c <= 'Z' {
            ((c as u8) + 32) as char
        } else {
            c
        };
        push_char(&mut out, low);
        proof {
            assert(out@ =~= ascii_lower(s@.take(i as int + 1)));
        }
        i += 1;
    }
    proof {
        assert(s@.take(n as int) =~= s@);
    }
    out
}

/// Whether any reported condition names a thunderstorm, checked on the
/// ASCII-lowered condition group.
pub open spec fn any_thunderstorm_spec(conds: Seq<RawWeatherCondition>) -> bool {
    exists|i: int|
        0 <= i < conds.len() && is_substring_of(
            "thunderstorm"@,
            ascii_lower(#[trigger] conds[i].main@),
        )
}

fn any_thunderstorm(conds: &Vec<RawWeatherCondition>) -> (r: bool)
    ensures
        r == any_thunderstorm_spec(conds@),
{
    let n = conds.len();
    let mut i: usize = 0;
    while i < n
        invariant
            n == conds@.len(),
            0 <= i <= n,
            forall|j: int|
                0 <= j < i ==> !is_substring_of(
                    "thunderstorm"@,
                    ascii_lower(#[trigger] conds@[j].main@),
                ),
        decreases n - i,
    {
        let lowered = to_ascii_lower(conds[i].main.as_str());
        if contains_substr(lowered.as_str(), "thunderstorm") {
            return true;
        }
        i += 1;
    }
    false
}

/// The cloud ceiling estimated from cloud cover: heavy cover reads as a low
/// deck, moderate cover as a mid-level deck, anything else as clear.
pub open spec fn ceiling_estimate(clouds_pct: Option<u32>) -> Option<u32> {
    if clouds_pct is Some && clouds_pct.unwrap() > 80 {
        Some(2000u32)
    } else if clouds_pct is Some && clouds_pct.unwrap() > 50 {
        Some(5000u32)
    } else {
        None
    }
}

/// Icing risk: temperature below freezing under significant cloud cover.
pub open spec fn icing_risk(temp_f_tenths: int, clouds_pct: Option<u32>) -> bool {
    temp_f_tenths < 320 && clouds_pct is Some && clouds_pct.unwrap() > 50
}

/// Normalizes a raw observation to aviation units: visibility defaults to
/// ten kilometers when unreported, the conditions text is the first
/// reported description (or `Unknown`), thunderstorms are read from the
/// condition groups, and icing and the ceiling are estimated from
/// temperature and cloud cover.
pub fn convert_to_weather_data(raw: &RawObservation) -> (r: WeatherData)
    ensures
        r.visibility_sm_tenths as int == meters_to_sm_tenths(
            (if raw.visibility_m is Some {
                raw.visibility_m.unwrap() as int
            } else {
                DEFAULT_VISIBILITY_M as int
            }),
        ),
        r.wind_speed_kt_tenths as int == centi_ms_to_kt_tenths(raw.wind_centi_ms as int),
        r.temperature_f_tenths as int == centi_kelvin_to_f_tenths(raw.temp_centi_k as int),
        r.ceiling_ft == ceiling_estimate(raw.clouds_pct),
        r.has_icing == icing_risk(r.temperature_f_tenths as int, raw.clouds_pct),
        r.has_thunderstorms == any_thunderstorm_spec(raw.weather@),
        raw.weather@.len() > 0 ==> r.conditions@ == raw.weather@[0].description@,
        raw.weather@.len() == 0 ==> r.conditions@ == "Unknown"@,
        r.date_time == raw.dt,
{
    let meters = match raw.visibility_m {
        Some(m) => m,
        None => DEFAULT_VISIBILITY_M,
    };
    let visibility_sm_tenths = visibility_from_meters(meters);
    let wind_speed_kt_tenths = wind_from_centi_ms(raw.wind_centi_ms);
    let temperature_f_tenths = temp_from_centi_kelvin(raw.temp_centi_k);

    let conditions = if raw.weather.len() > 0 {
        let mut c = String::new();
        c.append(raw.weather[0].description.as_str());
        proof {
            assert(c@ =~= raw.weather@[0].description@);
        }
        c
    } else {
        String::from_str("Unknown")
    };

    let has_thunderstorms = any_thunderstorm(&raw.weather);

    let has_icing = temperature_f_tenths < 320 && (match raw.clouds_pct {
        Some(p) => p > 50,
        None => false,
    });

    let ceiling_ft = match raw.clouds_pct {
        Some(p) => {
            if p > 80 {
                Some(2000)
            } else if p > 50 {
                Some(5000)
            } else {
                None
            }
        },
        None => None,
    };

    WeatherData {
        visibility_sm_tenths,
        wind_speed_kt_tenths,
        ceiling_ft,
        temperature_f_tenths,
        conditions,
        has_thunderstorms,
        has_icing,
        date_time: raw.dt,
    }
}

} // verus!
