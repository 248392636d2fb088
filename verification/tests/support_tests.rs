use weather_core::api::{sanitize_pagination, PaginationParams};
use weather_core::auth::validate_api_key;
use weather_core::csrf::{csrf_tokens_match, extract_csrf_from_cookie, extract_csrf_from_header};
use weather_core::error::ApiError;
use weather_core::models::{parse_training_level, BookingStatus, TrainingLevel};
use weather_core::notify::{alert_notification, conflict_notification, format_conflict_sms};
use weather_core::sms::{create_sms_provider, MockSmsProvider, SmsProviderChoice};
use weather_core::weather::{convert_to_weather_data, to_ascii_lower, RawObservation,
    RawWeatherCondition};

#[test]
fn test_format_conflict_sms() {
    let message = format_conflict_sms("John Doe", "2024-01-15 14:00 UTC");
    assert!(message.contains("John Doe"));
    assert!(message.contains("2024-01-15 14:00 UTC"));
    assert!(message.contains("cancelled"));
}

#[test]
fn test_create_sms_provider_without_credentials() {
    // This should return MockSmsProvider when no credentials are configured
    let provider = create_sms_provider(None, None, None);
    // We can't directly test the type, but we can verify it was created
    assert!(std::mem::size_of_val(&provider) > 0);
    assert!(matches!(provider, SmsProviderChoice::Mock(_)));
}

#[test]
fn test_create_sms_provider_with_credentials() {
    let provider = create_sms_provider(
        Some("sid".to_string()),
        Some("token".to_string()),
        Some("+1999".to_string()),
    );
    match provider {
        SmsProviderChoice::Twilio(t) => {
            assert_eq!(t.account_sid, "sid");
            assert_eq!(t.auth_token, "token");
            assert_eq!(t.from_number, "+1999");
        },
        SmsProviderChoice::Mock(_) => panic!("credentials should select Twilio"),
    }
    let _mock = MockSmsProvider::new();
}

#[test]
fn test_extract_csrf_from_cookie() {
    let token = extract_csrf_from_cookie("csrf_token=test-token-123; other=value");
    assert_eq!(token, Some("test-token-123".to_string()));
}

#[test]
fn test_extract_csrf_from_cookie_not_found() {
    let token = extract_csrf_from_cookie("other=value");
    assert_eq!(token, None);
}

#[test]
fn test_extract_csrf_from_cookie_later_entry() {
    let token = extract_csrf_from_cookie("a=b; csrf_token=xyz");
    assert_eq!(token, Some("xyz".to_string()));
}

#[test]
fn test_extract_csrf_from_header() {
    let token = extract_csrf_from_header(Some("test-token-123"));
    assert_eq!(token, Some("test-token-123".to_string()));
}

#[test]
fn test_extract_csrf_from_header_not_found() {
    let token = extract_csrf_from_header(None);
    assert_eq!(token, None);
}

#[test]
fn test_csrf_tokens_match() {
    assert!(csrf_tokens_match(&Some("abc".to_string()), &Some("abc".to_string())));
    assert!(!csrf_tokens_match(&Some("abc".to_string()), &Some("abd".to_string())));
    assert!(!csrf_tokens_match(&Some("".to_string()), &Some("".to_string())));
    assert!(!csrf_tokens_match(&None, &Some("abc".to_string())));
    assert!(!csrf_tokens_match(&Some("abc".to_string()), &None));
}

#[test]
fn test_validate_api_key() {
    assert!(validate_api_key("Bearer test-secret-key", "test-secret-key"));
    assert!(!validate_api_key("Bearer wrong-key", "test-secret-key"));
    assert!(!validate_api_key("test-secret-key", "test-secret-key")); // Missing Bearer prefix
}

#[test]
fn test_error_constructors() {
    let error = ApiError::not_found("Booking");
    assert_eq!(error.error.code, "NOT_FOUND");
    assert_eq!(error.error.message, "Booking not found");
    assert!(error.error.details.is_none());
    assert_eq!(error.status_code(), 404);

    let error = ApiError::database_error("Connection timeout");
    assert_eq!(error.error.code, "DATABASE_ERROR");
    assert_eq!(error.error.message, "A database error occurred");
    assert_eq!(error.error.details, Some("Connection timeout".to_string()));
    assert_eq!(error.status_code(), 500);

    assert_eq!(ApiError::bad_request("x").status_code(), 400);
    assert_eq!(ApiError::validation_error("x").status_code(), 400);
    assert_eq!(ApiError::conflict("x").status_code(), 409);
    assert_eq!(ApiError::external_api_error("OpenWeatherMap", "down").status_code(), 502);
    assert_eq!(ApiError::internal_error("x").status_code(), 500);
    assert_eq!(
        ApiError::external_api_error("OpenWeatherMap", "down").error.message,
        "OpenWeatherMap API error"
    );
}

#[test]
fn test_parse_training_level_names() {
    assert_eq!(parse_training_level("STUDENT_PILOT"), Some(TrainingLevel::StudentPilot));
    assert_eq!(parse_training_level("PRIVATE_PILOT"), Some(TrainingLevel::PrivatePilot));
    assert_eq!(parse_training_level("INSTRUMENT_RATED"), Some(TrainingLevel::InstrumentRated));
    assert_eq!(parse_training_level("WILD_GUESS"), None);
    assert_eq!(TrainingLevel::StudentPilot.as_str(), "STUDENT_PILOT");
    assert_eq!(BookingStatus::Scheduled.as_str(), "SCHEDULED");
}

#[test]
fn test_sanitize_pagination() {
    let (page, limit, offset) = sanitize_pagination(&PaginationParams { page: 0, limit: 500 });
    assert_eq!((page, limit, offset), (1, 100, 0));
    let (page, limit, offset) = sanitize_pagination(&PaginationParams { page: 3, limit: 50 });
    assert_eq!((page, limit, offset), (3, 50, 100));
}

#[test]
fn test_unit_conversions() {
    // 0 meters = 0 miles
    assert_eq!(weather_core::weather::visibility_from_meters(0), 0);

    // 10 m/s is about 19.4 knots
    let knots_tenths = weather_core::weather::wind_from_centi_ms(1000);
    assert_eq!(knots_tenths, 194);

    // 273.15 K = 32.0 degrees Fahrenheit (freezing point)
    let temp_tenths = weather_core::weather::temp_from_centi_kelvin(27315);
    assert_eq!(temp_tenths, 320);

    // 0 K is about -459.67 degrees Fahrenheit
    let absolute_zero = weather_core::weather::temp_from_centi_kelvin(0);
    assert!((absolute_zero - (-4597)).abs() <= 1);

    // 10 km visibility is about 6.2 statute miles
    assert_eq!(weather_core::weather::visibility_from_meters(10000), 62);
}

#[test]
fn test_convert_observation() {
    let raw = RawObservation {
        weather: vec![RawWeatherCondition {
            main: "Thunderstorm".to_string(),
            description: "thunderstorm with light rain".to_string(),
        }],
        temp_centi_k: 29315,
        visibility_m: Some(10000),
        wind_centi_ms: 1000,
        clouds_pct: Some(90),
        dt: 1705327200,
    };
    let data = convert_to_weather_data(&raw);
    assert_eq!(data.visibility_sm_tenths, 62);
    assert_eq!(data.wind_speed_kt_tenths, 194);
    assert_eq!(data.temperature_f_tenths, 680);
    assert_eq!(data.ceiling_ft, Some(2000));
    assert!(data.has_thunderstorms);
    assert!(!data.has_icing);
    assert_eq!(data.conditions, "thunderstorm with light rain");
    assert_eq!(data.date_time, 1705327200);
}

#[test]
fn test_convert_observation_defaults_and_icing() {
    let raw = RawObservation {
        weather: vec![],
        temp_centi_k: 26315,
        visibility_m: None,
        wind_centi_ms: 0,
        clouds_pct: Some(60),
        dt: 0,
    };
    let data = convert_to_weather_data(&raw);
    assert_eq!(data.visibility_sm_tenths, 62, "missing visibility defaults to 10 km");
    assert_eq!(data.conditions, "Unknown");
    assert_eq!(data.ceiling_ft, Some(5000));
    assert!(data.has_icing, "below freezing under cover reads as icing risk");
    assert!(!data.has_thunderstorms);

    let clear = RawObservation { clouds_pct: Some(30), ..raw };
    let data = convert_to_weather_data(&clear);
    assert_eq!(data.ceiling_ft, None);
    assert!(!data.has_icing);
}

#[test]
fn test_ascii_lowercase() {
    assert_eq!(to_ascii_lower("ThunderStorm-42"), "thunderstorm-42");
    assert_eq!(to_ascii_lower(""), "");
}

#[test]
fn test_conflict_notification_payload() {
    let json = conflict_notification(
        "bk-1",
        "Flight cancelled: Thunderstorms present",
        "2024-01-15T14:00:00+00:00",
        "John \"JD\" Doe",
    );
    assert_eq!(
        json,
        "{\"booking_id\":\"bk-1\",\"message\":\"Flight cancelled: Thunderstorms present\",\"original_date\":\"2024-01-15T14:00:00+00:00\",\"student_name\":\"John \\\"JD\\\" Doe\",\"type\":\"WEATHER_CONFLICT\"}"
    );
}

#[test]
fn test_alert_notification_payload() {
    let json = alert_notification(
        "al-1",
        "bk-1",
        "(33.8113, -118.1515)",
        "HIGH ALERT",
        "2024-01-15T14:00:00+00:00",
        "high",
        "Jo\nDoe",
        "2024-01-15T12:00:00+00:00",
    );
    assert!(json.starts_with("{\"booking_id\":\"bk-1\",\"id\":\"al-1\","));
    assert!(json.contains("\"severity\":\"high\""));
    assert!(json.contains("\"student_name\":\"Jo\\nDoe\""));
    assert!(json.ends_with("\"type\":\"weather_alert\"}"));
}

#[test]
fn test_number_formatting() {
    assert_eq!(weather_core::numfmt::fmt_u64(0), "0");
    assert_eq!(weather_core::numfmt::fmt_u64(905), "905");
    assert_eq!(weather_core::numfmt::fmt_i64(-42), "-42");
    assert_eq!(weather_core::numfmt::fmt_tenths(49), "4.9");
    assert_eq!(weather_core::numfmt::fmt_tenths(100), "10.0");
}

#[test]
fn test_default_minimums_values() {
    let table = weather_core::safety::default_weather_minimums();
    let student = table.get(&TrainingLevel::StudentPilot).unwrap();
    assert_eq!(student.min_visibility_sm_tenths, 50);
    assert_eq!(student.max_wind_speed_kt_tenths, 120);
    assert_eq!(student.min_ceiling_ft, Some(3000));
    assert!(!student.allow_imc);
    assert!(student.no_thunderstorms && student.no_icing);

    let private_pilot = table.get(&TrainingLevel::PrivatePilot).unwrap();
    assert_eq!(private_pilot.min_visibility_sm_tenths, 30);
    assert_eq!(private_pilot.max_wind_speed_kt_tenths, 200);
    assert_eq!(private_pilot.min_ceiling_ft, Some(1000));
    assert!(!private_pilot.allow_imc);

    let instrument = table.get(&TrainingLevel::InstrumentRated).unwrap();
    assert_eq!(instrument.min_visibility_sm_tenths, 10);
    assert_eq!(instrument.max_wind_speed_kt_tenths, 300);
    assert_eq!(instrument.min_ceiling_ft, None);
    assert!(instrument.allow_imc);
}

#[test]
fn test_booking_and_student_builders() {
    let location = weather_core::models::Location {
        lat_microdeg: 33_811_300,
        lon_microdeg: -118_151_500,
        name: "KTOA".to_string(),
    };
    let booking = weather_core::api::booking_from_request(
        "bk-9".to_string(),
        weather_core::api::CreateBookingRequest {
            student_id: "student1".to_string(),
            scheduled_date: 1705327200,
            departure_location: location,
        },
    );
    assert_eq!(booking.id, "bk-9");
    assert_eq!(booking.status, BookingStatus::Scheduled);
    let response = weather_core::api::BookingResponse::from_booking(booking);
    assert_eq!(response.status, "SCHEDULED");

    let student = weather_core::api::student_from_request(
        "st-9".to_string(),
        weather_core::api::CreateStudentRequest {
            name: "Jane Roe".to_string(),
            email: "jane@example.com".to_string(),
            phone: "+1".to_string(),
            training_level: "PRIVATE_PILOT".to_string(),
        },
    )
    .unwrap_or_else(|_| panic!("a known level must be accepted"));
    assert_eq!(student.training_level, TrainingLevel::PrivatePilot);
    let response = weather_core::api::StudentResponse::from_student(student);
    assert_eq!(response.training_level, "PRIVATE_PILOT");

    let rejected = weather_core::api::student_from_request(
        "st-10".to_string(),
        weather_core::api::CreateStudentRequest {
            name: "Jane Roe".to_string(),
            email: "jane@example.com".to_string(),
            phone: "+1".to_string(),
            training_level: "ACE".to_string(),
        },
    );
    match rejected {
        Ok(_) => panic!("an unknown level must be rejected"),
        Err(e) => assert_eq!(e.error.code, "VALIDATION_ERROR"),
    }
}
