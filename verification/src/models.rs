use vstd::prelude::*;

verus! {

/// Training level of a student pilot, from strictest (`StudentPilot`) to most
/// permissive (`InstrumentRated`).
#[derive(Debug, Clone, Copy, PartialEq, Eq, Hash, Structural)]
pub enum TrainingLevel {
    StudentPilot,
    PrivatePilot,
    InstrumentRated,
}

/// Status of a booking.
#[derive(Debug, Clone, Copy, PartialEq, Eq, Structural)]
pub enum BookingStatus {
    Scheduled,
    Cancelled,
    Rescheduled,
    Completed,
}

/// Geographic location. Coordinates are carried in millionths of a degree.
#[derive(Debug, Clone)]
pub struct Location {
    pub lat_microdeg: i64,
    pub lon_microdeg: i64,
    pub name: String,
}

/// Student pilot information.
#[derive(Debug, Clone)]
pub struct Student {
    pub id: String,
    pub name: String,
    pub email: String,
    pub phone: String,
    pub training_level: TrainingLevel,
}

/// Flight booking. `scheduled_date` is a Unix timestamp in seconds.
#[derive(Debug, Clone)]
pub struct Booking {
    pub id: String,
    pub student_id: String,
    pub scheduled_date: i64,
    pub departure_location: Location,
    pub status: BookingStatus,
}

/// Weather check record.
#[derive(Debug, Clone)]
pub struct WeatherCheck {
    pub id: String,
    pub booking_id: String,
    pub checked_at: i64,
    pub weather_data: String,
    pub is_safe: bool,
    pub reason: Option<String>,
}

/// Reschedule event tracking.
#[derive(Debug, Clone)]
pub struct RescheduleEvent {
    pub id: String,
    pub booking_id: String,
    pub original_date: i64,
    pub new_date: i64,
    pub suggested_by: String,
    pub ai_suggestions: Option<String>,
}

/// Weather minimums for one training level. Visibility is in tenths of a
/// statute mile, wind in tenths of a knot, the ceiling floor in feet
/// (`None` means no ceiling floor).
#[derive(Debug, Clone, Copy, PartialEq, Eq)]
pub struct WeatherMinimum {
    pub training_level: TrainingLevel,
    pub min_visibility_sm_tenths: u32,
    pub max_wind_speed_kt_tenths: u32,
    pub min_ceiling_ft: Option<u32>,
    pub allow_imc: bool,
    pub no_thunderstorms: bool,
    pub no_icing: bool,
}

/// The wire name of a training level.
pub open spec fn level_name_spec(level: TrainingLevel) -> Seq<char> {
    match level {
        TrainingLevel::StudentPilot => "STUDENT_PILOT"@,
        TrainingLevel::PrivatePilot => "PRIVATE_PILOT"@,
        TrainingLevel::InstrumentRated => "INSTRUMENT_RATED"@,
    }
}

/// The wire name of a booking status.
pub open spec fn status_name_spec(status: BookingStatus) -> Seq<char> {
    match status {
        BookingStatus::Scheduled => "SCHEDULED"@,
        BookingStatus::Cancelled => "CANCELLED"@,
        BookingStatus::Rescheduled => "RESCHEDULED"@,
        BookingStatus::Completed => "COMPLETED"@,
    }
}

impl TrainingLevel {
    pub fn as_str(&self) -> (r: &'static str)
        ensures
            r@ == level_name_spec(*self),
    {
        match self {
            TrainingLevel::StudentPilot => "STUDENT_PILOT",
            TrainingLevel::PrivatePilot => "PRIVATE_PILOT",
            TrainingLevel::InstrumentRated => "INSTRUMENT_RATED",
        }
    }
}

impl BookingStatus {
    pub fn as_str(&self) -> (r: &'static str)
        ensures
            r@ == status_name_spec(*self),
    {
        match self {
            BookingStatus::Scheduled => "SCHEDULED",
            BookingStatus::Cancelled => "CANCELLED",
            BookingStatus::Rescheduled => "RESCHEDULED",
            BookingStatus::Completed => "COMPLETED",
        }
    }
}

/// Parses the wire form of a training level, accepting exactly the three
/// names that `TrainingLevel::as_str` produces.
pub fn parse_training_level(s: &str) -> (r: Option<TrainingLevel>)
    ensures
        s@ == "STUDENT_PILOT"@ ==> r == Some(TrainingLevel::StudentPilot),
        s@ == "PRIVATE_PILOT"@ ==> r == Some(TrainingLevel::PrivatePilot),
        s@ == "INSTRUMENT_RATED"@ ==> r == Some(TrainingLevel::InstrumentRated),
        s@ != "STUDENT_PILOT"@ && s@ != "PRIVATE_PILOT"@ && s@ != "INSTRUMENT_RATED"@
            ==> r is None,
{
    proof {
        reveal_strlit("STUDENT_PILOT");
        reveal_strlit("PRIVATE_PILOT");
        reveal_strlit("INSTRUMENT_RATED");
        assert(("STUDENT_PILOT"@)[0] == 'S' && ("PRIVATE_PILOT"@)[0] == 'P');
        assert(("INSTRUMENT_RATED"@).len() == 16);
        assert(("STUDENT_PILOT"@).len() == 13);
        assert(("PRIVATE_PILOT"@).len() == 13);
    }
    if crate::text::str_eq(s, "STUDENT_PILOT") {
        Some(TrainingLevel::StudentPilot)
    } else if crate::text::str_eq(s, "PRIVATE_PILOT") {
        Some(TrainingLevel::PrivatePilot)
    } else if crate::text::str_eq(s, "INSTRUMENT_RATED") {
        Some(TrainingLevel::InstrumentRated)
    } else {
        None
    }
}

} // verus!
