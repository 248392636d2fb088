use weather_core::models::{Booking, BookingStatus, Location, Student, TrainingLevel};
use weather_core::safety::{calculate_weather_score, default_weather_minimums};
use weather_core::schedule::{check_flight_safety, create_alert_message, determine_severity,
    location_text, reschedule_placeholder, retry_delay_ms, severity_to_string,
    weather_alert_decision, AlertSeverity, LocationWeatherCache};
use weather_core::weather::WeatherData;

fn sample(
    visibility_sm_tenths: u32,
    wind_speed_kt_tenths: u32,
    ceiling_ft: Option<u32>,
    thunderstorms: bool,
    icing: bool,
) -> WeatherData {
    WeatherData {
        visibility_sm_tenths,
        wind_speed_kt_tenths,
        ceiling_ft,
        temperature_f_tenths: 650,
        conditions: "Clear".to_string(),
        has_thunderstorms: thunderstorms,
        has_icing: icing,
        date_time: 1705327200,
    }
}

fn booking() -> Booking {
    Booking {
        id: "bk-1".to_string(),
        student_id: "student1".to_string(),
        scheduled_date: 1705327200,
        departure_location: Location {
            lat_microdeg: 33_811_300,
            lon_microdeg: -118_151_500,
            name: "KTOA".to_string(),
        },
        status: BookingStatus::Scheduled,
    }
}

fn student(level: TrainingLevel) -> Student {
    Student {
        id: "student1".to_string(),
        name: "John Doe".to_string(),
        email: "john@example.com".to_string(),
        phone: "+1234567890".to_string(),
        training_level: level,
    }
}

#[test]
fn test_severity_thresholds() {
    let calm = sample(100, 50, Some(5000), false, false);
    assert_eq!(determine_severity(29999, &calm), AlertSeverity::Severe);
    assert_eq!(determine_severity(30000, &calm), AlertSeverity::High);
    assert_eq!(determine_severity(44999, &calm), AlertSeverity::High);
    assert_eq!(determine_severity(45000, &calm), AlertSeverity::Moderate);
    assert_eq!(determine_severity(56249, &calm), AlertSeverity::Moderate);
    assert_eq!(determine_severity(56250, &calm), AlertSeverity::Low);
    assert_eq!(determine_severity(67499, &calm), AlertSeverity::Low);
    assert_eq!(determine_severity(67500, &calm), AlertSeverity::Clear);
}

#[test]
fn test_severity_forced_severe() {
    let stormy = sample(100, 50, Some(5000), true, false);
    assert_eq!(determine_severity(75000, &stormy), AlertSeverity::Severe);
    let fog = sample(9, 50, Some(5000), false, false);
    assert_eq!(determine_severity(75000, &fog), AlertSeverity::Severe);
}

#[test]
fn test_severity_names() {
    assert_eq!(severity_to_string(&AlertSeverity::Severe), "severe");
    assert_eq!(severity_to_string(&AlertSeverity::High), "high");
    assert_eq!(severity_to_string(&AlertSeverity::Moderate), "moderate");
    assert_eq!(severity_to_string(&AlertSeverity::Low), "low");
    assert_eq!(severity_to_string(&AlertSeverity::Clear), "clear");
}

#[test]
fn test_alert_messages() {
    let stu = student(TrainingLevel::StudentPilot);
    let stormy = sample(100, 50, Some(5000), true, false);
    let m = create_alert_message(&AlertSeverity::Severe, &stormy, &stu, 20000);
    assert_eq!(
        m,
        "SEVERE WEATHER ALERT: Thunderstorms reported. Flight not safe for student pilot. Consider rescheduling."
    );

    let fog = sample(5, 50, Some(5000), false, false);
    let m = create_alert_message(&AlertSeverity::Severe, &fog, &stu, 20000);
    assert_eq!(
        m,
        "SEVERE WEATHER ALERT: Visibility 0.5 miles, below safe minimums. Flight cancelled for safety."
    );

    let windy = sample(40, 220, Some(2000), false, false);
    let m = create_alert_message(&AlertSeverity::High, &windy, &stu, 42000);
    assert_eq!(
        m,
        "HIGH ALERT: Poor weather conditions (score: 5.6/10). Visibility 4.0 miles, winds 22 kt. Not recommended for student pilot."
    );

    let gusty = sample(80, 160, Some(4000), false, false);
    let m = create_alert_message(&AlertSeverity::Moderate, &gusty, &stu, 50000);
    assert_eq!(
        m,
        "MODERATE ALERT: Marginal weather conditions (score: 6.7/10). Winds 16 kt, visibility 8.0 miles. Use caution."
    );

    let breezy = sample(100, 120, Some(5000), false, false);
    let m = create_alert_message(&AlertSeverity::Low, &breezy, &stu, 60000);
    assert_eq!(
        m,
        "Weather advisory: Conditions may be challenging (score: 8.0/10). Winds 12 kt. Monitor before departure."
    );

    let calm = sample(100, 40, Some(6000), false, false);
    let m = create_alert_message(&AlertSeverity::Clear, &calm, &stu, 75000);
    assert_eq!(m, "Weather conditions are favorable for flight.");
}

#[test]
fn test_check_flight_safety_safe_is_none() {
    let minimums = default_weather_minimums();
    let stu = student(TrainingLevel::PrivatePilot);
    let calm = sample(100, 50, Some(5000), false, false);
    let action = check_flight_safety(
        &booking(),
        &stu,
        &calm,
        minimums.get(&TrainingLevel::PrivatePilot).unwrap(),
    );
    assert!(action.is_none());
}

#[test]
fn test_check_flight_safety_conflict_action() {
    let minimums = default_weather_minimums();
    let stu = student(TrainingLevel::PrivatePilot);
    let stormy = sample(100, 50, Some(5000), true, false);
    let action = check_flight_safety(
        &booking(),
        &stu,
        &stormy,
        minimums.get(&TrainingLevel::PrivatePilot).unwrap(),
    )
    .expect("thunderstorms must raise a conflict");
    assert_eq!(action.new_status, BookingStatus::Cancelled);
    assert_eq!(action.reason, "Thunderstorms present");
    assert_eq!(action.message, "Flight cancelled: Thunderstorms present");
    assert!(action.notification_json.contains("\"type\":\"WEATHER_CONFLICT\""));
    assert!(action.notification_json.contains("\"booking_id\":\"bk-1\""));
    assert!(action.notification_json.contains("\"student_name\":\"John Doe\""));
    // The original date is the calendar rendering of Unix second 1705327200.
    assert!(action.notification_json.contains("2024-01-15T14:00:00+00:00"));
}

#[test]
fn test_reschedule_placeholder_fields() {
    let b = booking();
    let ev = reschedule_placeholder("ev-1".to_string(), &b);
    assert_eq!(ev.id, "ev-1");
    assert_eq!(ev.booking_id, "bk-1");
    assert_eq!(ev.original_date, b.scheduled_date);
    assert_eq!(ev.new_date, b.scheduled_date);
    assert_eq!(ev.suggested_by, "SYSTEM");
    assert!(ev.ai_suggestions.is_none());
}

#[test]
fn test_weather_alert_decision_clear_is_none() {
    let stu = student(TrainingLevel::PrivatePilot);
    let calm = sample(100, 50, Some(5000), false, false);
    let notice = weather_alert_decision("al-1".to_string(), &booking(), &stu, &calm, 1705320000);
    assert!(notice.is_none());
}

#[test]
fn test_weather_alert_decision_notice() {
    let stu = student(TrainingLevel::PrivatePilot);
    let gusty = sample(60, 200, Some(2500), false, false);
    let score = calculate_weather_score(&TrainingLevel::PrivatePilot, &gusty);
    assert!(score < 67500);
    let notice = weather_alert_decision("al-1".to_string(), &booking(), &stu, &gusty, 1705320000)
        .expect("a concerning score must raise an alert");
    assert_eq!(notice.score, score);
    assert_eq!(notice.alert.id, "al-1");
    assert_eq!(notice.alert.booking_id, Some("bk-1".to_string()));
    assert_eq!(notice.alert.location, "(33.8113, -118.1515)");
    assert_eq!(notice.alert.student_name, Some("John Doe".to_string()));
    assert_eq!(notice.alert.original_date, Some(1705327200));
    assert_eq!(notice.alert.created_at, 1705320000);
    assert!(notice.alert.dismissed_at.is_none());
    assert_eq!(notice.alert.severity, severity_to_string(&notice.severity));
    assert!(notice.payload_json.contains("\"type\":\"weather_alert\""));
    assert!(notice.payload_json.contains("\"id\":\"al-1\""));
    assert!(notice.payload_json.contains("\"location\":\"(33.8113, -118.1515)\""));
}

#[test]
fn test_location_text_rounding() {
    assert_eq!(location_text(33_811_300, -118_151_500), "(33.8113, -118.1515)");
    assert_eq!(location_text(0, -40), "(0.0000, -0.0000)");
    assert_eq!(location_text(1_000_050, -2_999_950), "(1.0001, -3.0000)");
}

#[test]
fn test_location_weather_cache() {
    let mut cache = LocationWeatherCache::new();
    assert!(cache.get(1, 2).is_none());
    cache.insert(1, 2, sample(100, 50, None, false, false));
    cache.insert(3, 4, sample(20, 250, None, false, true));
    let w = cache.get(1, 2).expect("stored location must answer");
    assert_eq!(w.visibility_sm_tenths, 100);
    let w = cache.get(3, 4).unwrap();
    assert_eq!(w.wind_speed_kt_tenths, 250);
    assert!(cache.get(5, 6).is_none());
}

#[test]
fn test_retry_delays() {
    assert_eq!(retry_delay_ms(0), 100);
    assert_eq!(retry_delay_ms(1), 200);
    assert_eq!(retry_delay_ms(2), 400);
}
