use weather_core::models::{Booking, BookingStatus, Location, Student, TrainingLevel};
use weather_core::suggest::{build_prompt, generate_fallback_options, generate_reschedule_options,
    AiCache, RescheduleOption, RescheduleResponse};
use weather_core::weather::WeatherData;

fn create_test_booking() -> Booking {
    Booking {
        id: "test123".to_string(),
        student_id: "student1".to_string(),
        scheduled_date: 1705327200,
        departure_location: Location {
            lat_microdeg: 33_811_300,
            lon_microdeg: -118_151_500,
            name: "KTOA".to_string(),
        },
        status: BookingStatus::Scheduled,
    }
}

fn create_test_student() -> Student {
    Student {
        id: "student1".to_string(),
        name: "John Doe".to_string(),
        email: "john@example.com".to_string(),
        phone: "+1234567890".to_string(),
        training_level: TrainingLevel::StudentPilot,
    }
}

fn sample(
    visibility_sm_tenths: u32,
    wind_speed_kt_tenths: u32,
    ceiling_ft: Option<u32>,
    conditions: &str,
    date_time: i64,
) -> WeatherData {
    WeatherData {
        visibility_sm_tenths,
        wind_speed_kt_tenths,
        ceiling_ft,
        temperature_f_tenths: 650,
        conditions: conditions.to_string(),
        has_thunderstorms: false,
        has_icing: false,
        date_time,
    }
}

fn create_test_weather() -> Vec<WeatherData> {
    vec![
        sample(100, 50, Some(5000), "Clear", 1705327200),
        sample(80, 80, Some(4000), "Partly Cloudy", 1705327200 + 86400),
        sample(60, 100, Some(3500), "Scattered Clouds", 1705327200 + 2 * 86400),
    ]
}

#[test]
fn test_cache() {
    let cache = AiCache::new();
    let t0: i64 = 1705327200;

    // Cache miss
    assert!(cache.get("test_key", 0, t0).is_none());

    // Set cache
    let mut cache = cache;
    let response = RescheduleResponse { options: vec![] };
    cache.set("test_key".to_string(), 0, response, t0);

    // Cache hit
    assert!(cache.get("test_key", 0, t0).is_some());
}

#[test]
fn test_fallback_generation() {
    let booking = create_test_booking();
    let student = create_test_student();
    let weather = create_test_weather();

    let options = generate_fallback_options(&booking, &student, &weather, &vec![]);

    assert_eq!(options.len(), 3);
    assert!(options[0].weather_score > 0);
}

#[test]
fn test_cache_round_trip_and_expiry() {
    // Writing a response for a key then reading it within six hours returns
    // the same options; reading after six hours returns none.
    let mut cache = AiCache::new();
    let t0: i64 = 1705327200;
    let options = vec![
        RescheduleOption {
            date_time: t0 + 86400,
            reason: "Clear skies".to_string(),
            weather_score: 70000,
            instructor_available: true,
        },
        RescheduleOption {
            date_time: t0 + 2 * 86400,
            reason: "Light winds".to_string(),
            weather_score: 69000,
            instructor_available: true,
        },
        RescheduleOption {
            date_time: t0 + 3 * 86400,
            reason: "Good conditions".to_string(),
            weather_score: 68000,
            instructor_available: false,
        },
    ];
    cache.set("bk1".to_string(), t0, RescheduleResponse { options }, t0);

    let fresh = cache.get("bk1", t0, t0 + 6 * 3600 - 1);
    let fresh = fresh.expect("a write should be readable within six hours");
    assert_eq!(fresh.options.len(), 3);
    assert_eq!(fresh.options[0].reason, "Clear skies");
    assert_eq!(fresh.options[0].date_time, t0 + 86400);
    assert_eq!(fresh.options[0].weather_score, 70000);
    assert!(fresh.options[0].instructor_available);
    assert_eq!(fresh.options[2].reason, "Good conditions");

    assert!(
        cache.get("bk1", t0, t0 + 6 * 3600).is_none(),
        "a write must expire six hours after creation"
    );
    assert!(cache.get("bk2", t0, t0).is_none(), "other keys stay unanswered");
}

#[test]
fn test_cache_clear_expired() {
    let mut cache = AiCache::new();
    let t0: i64 = 1705327200;
    cache.set("old".to_string(), 1, RescheduleResponse { options: vec![] }, t0 - 7 * 3600);
    cache.set("new".to_string(), 2, RescheduleResponse { options: vec![] }, t0);
    cache.clear_expired(t0);
    assert!(cache.get("new", 2, t0).is_some());
    assert!(cache.get("old", 1, t0).is_none());
}

#[test]
fn test_suggest_single_unsafe_sample_pads() {
    // A forecast with one usable sample that is unsafe yields one
    // marginal-labelled option for it plus two day-offset placeholders with
    // a score of five points and no instructor.
    let booking = create_test_booking();
    let student = create_test_student();
    let weather = vec![sample(5, 300, Some(400), "Fog", 1705327200 + 3600)];

    let options = generate_fallback_options(&booking, &student, &weather, &vec![]);
    assert_eq!(options.len(), 3);

    assert!(options[0].reason.starts_with("Marginal conditions: "));
    assert_eq!(options[0].date_time, 1705327200 + 3600);

    for (i, opt) in options.iter().enumerate().skip(1) {
        assert_eq!(
            opt.reason,
            "Please contact your instructor to schedule - limited weather data available"
        );
        assert_eq!(opt.weather_score, 37500);
        assert!(!opt.instructor_available);
        assert_eq!(opt.date_time, 1705327200 + ((i as i64) + 1) * 86400);
    }
}

#[test]
fn test_suggest_empty_forecast_three_placeholders() {
    // Exactly three options even for an empty forecast.
    let mut cache = AiCache::new();
    let booking = create_test_booking();
    let student = create_test_student();
    let options = generate_reschedule_options(
        &mut cache,
        &booking,
        &student,
        &vec![],
        &vec![],
        None,
        1705327200,
    );
    assert_eq!(options.len(), 3);
    for (i, opt) in options.iter().enumerate() {
        assert_eq!(opt.weather_score, 37500);
        assert!(!opt.instructor_available);
        assert_eq!(opt.date_time, 1705327200 + ((i as i64) + 1) * 86400);
    }
}

#[test]
fn test_suggest_uses_cache_before_anything_else() {
    let mut cache = AiCache::new();
    let booking = create_test_booking();
    let student = create_test_student();
    let t0 = booking.scheduled_date;
    let cached_options = vec![
        RescheduleOption {
            date_time: t0 + 86400,
            reason: "cached one".to_string(),
            weather_score: 70000,
            instructor_available: true,
        },
        RescheduleOption {
            date_time: t0 + 2 * 86400,
            reason: "cached two".to_string(),
            weather_score: 69000,
            instructor_available: true,
        },
        RescheduleOption {
            date_time: t0 + 3 * 86400,
            reason: "cached three".to_string(),
            weather_score: 68000,
            instructor_available: true,
        },
        RescheduleOption {
            date_time: t0 + 4 * 86400,
            reason: "cached four".to_string(),
            weather_score: 67000,
            instructor_available: true,
        },
    ];
    cache.set(
        booking.id.clone(),
        booking.scheduled_date,
        RescheduleResponse { options: cached_options },
        t0,
    );

    let options = generate_reschedule_options(
        &mut cache,
        &booking,
        &student,
        &create_test_weather(),
        &vec![],
        None,
        t0 + 3600,
    );
    assert_eq!(options.len(), 3);
    assert_eq!(options[0].reason, "cached one");
    assert_eq!(options[2].reason, "cached three");
}

#[test]
fn test_suggest_caches_usable_external_response() {
    let mut cache = AiCache::new();
    let booking = create_test_booking();
    let student = create_test_student();
    let t0 = booking.scheduled_date;
    let external = vec![
        RescheduleOption {
            date_time: t0 + 86400,
            reason: "external one".to_string(),
            weather_score: 71250,
            instructor_available: true,
        },
        RescheduleOption {
            date_time: t0 + 2 * 86400,
            reason: "external two".to_string(),
            weather_score: 70000,
            instructor_available: true,
        },
        RescheduleOption {
            date_time: t0 + 3 * 86400,
            reason: "external three".to_string(),
            weather_score: 60000,
            instructor_available: false,
        },
    ];

    let options = generate_reschedule_options(
        &mut cache,
        &booking,
        &student,
        &create_test_weather(),
        &vec![],
        Some(external),
        t0,
    );
    assert_eq!(options.len(), 3);
    assert_eq!(options[1].reason, "external two");

    // The successful external response was cached under the fingerprint.
    let cached = cache.get(booking.id.as_str(), booking.scheduled_date, t0 + 3600);
    let cached = cached.expect("the external response should be cached");
    assert_eq!(cached.options.len(), 3);
    assert_eq!(cached.options[0].reason, "external one");
}

#[test]
fn test_suggest_falls_back_on_short_external_response() {
    let mut cache = AiCache::new();
    let booking = create_test_booking();
    let student = create_test_student();
    let t0 = booking.scheduled_date;
    let external = vec![RescheduleOption {
        date_time: t0 + 86400,
        reason: "lonely".to_string(),
        weather_score: 70000,
        instructor_available: true,
    }];

    let options = generate_reschedule_options(
        &mut cache,
        &booking,
        &student,
        &create_test_weather(),
        &vec![],
        Some(external),
        t0,
    );
    assert_eq!(options.len(), 3);
    // The fallback found the three good-weather samples of the forecast.
    assert!(options[0].reason.starts_with("Good weather conditions: "));
    // A failed attempt is never cached.
    assert!(cache.get(booking.id.as_str(), booking.scheduled_date, t0).is_none());
}

#[test]
fn test_fallback_good_weather_details() {
    let booking = create_test_booking();
    let student = create_test_student();
    let weather = create_test_weather();
    let options = generate_fallback_options(&booking, &student, &weather, &vec![]);
    assert_eq!(options.len(), 3);
    assert_eq!(options[0].reason, "Good weather conditions: Clear with 5kt winds");
    assert!(options[0].instructor_available);
    assert_eq!(options[0].date_time, 1705327200);
    assert_eq!(options[0].weather_score, 75000);
    assert_eq!(options[1].reason, "Good weather conditions: Partly Cloudy with 8kt winds");
    assert_eq!(options[2].reason, "Good weather conditions: Scattered Clouds with 10kt winds");
}

#[test]
fn test_build_prompt_contents() {
    let booking = create_test_booking();
    let student = create_test_student();
    let weather = create_test_weather();
    let prompt = build_prompt(&booking, &student, &weather, &vec![]);

    assert!(prompt.contains("Student: John Doe (Training Level: StudentPilot)"));
    // The booking time rendered by the calendar library for Unix second
    // 1705327200.
    assert!(prompt.contains("Original booking: 2024-01-15 14:00 UTC"));
    assert!(prompt.contains("Departure location: KTOA"));
    assert!(prompt.contains("2024-01-15 14:00: vis 10.0mi, wind 5.0kt, temp 65°F, Clear"));
    assert!(prompt.contains("2024-01-16 14:00: vis 8.0mi, wind 8.0kt, temp 65°F, Partly Cloudy"));
    assert!(prompt.contains("\"options\": ["));
}

#[test]
fn test_build_prompt_renders_at_most_seven_samples() {
    let booking = create_test_booking();
    let student = create_test_student();
    let mut weather = Vec::new();
    for i in 0..10 {
        weather.push(sample(100, 50, None, "Clear", 1705327200 + i * 3600));
    }
    let prompt = build_prompt(&booking, &student, &weather, &vec![]);
    // The seventh sample (six hours on) appears; the eighth does not.
    assert!(prompt.contains("2024-01-15 20:00"));
    assert!(!prompt.contains("2024-01-15 21:00"));
}
