use vstd::prelude::*;

use crate::models::{Booking, Location, Student};

verus! {

/// Pagination of list requests.
#[derive(Debug)]
pub struct PaginationParams {
    pub page: i64,
    pub limit: i64,
}

/// The page a list request starts at when none is given.
pub fn default_page() -> (r: i64)
    ensures
        r == 1,
{
    1
}

/// The page size of a list request when none is given.
pub fn default_limit() -> (r: i64)
    ensures
        r == 50,
{
    50
}

/// Sanitizes pagination: the page at least one, the page size clamped to
/// one through one hundred, and the offset they imply.
pub fn sanitize_pagination(params: &PaginationParams) -> (r: (i64, i64, i64))
    requires
        params.page <= i64::MAX / 100,
    ensures
        r.0 == (if params.page < 1 {
            1int
        } else {
            params.page as int
        }),
        r.1 == (if params.limit < 1 {
            1int
        } else if params.limit > 100 {
            100int
        } else {
            params.limit as int
        }),
        r.2 == (r.0 - 1) * r.1,
{
    let page: i64 = if params.page < 1 {
        1
    } else {
        params.page
    };
    let limit: i64 = if params.limit < 1 {
        1
    } else if params.limit > 100 {
        100
    } else {
        params.limit
    };
    proof {
        assert((page - 1) * limit <= i64::MAX) by (nonlinear_arith)
            requires
                1 <= page <= i64::MAX / 100,
                1 <= limit <= 100,
        ;
        assert((page - 1) * limit >= 0) by (nonlinear_arith)
            requires
                1 <= page,
                1 <= limit,
        ;
    }
    let offset = (page - 1) * limit;
    (page, limit, offset)
}

/// A request to create a booking. The scheduled date is Unix seconds.
#[derive(Debug)]
pub struct CreateBookingRequest {
    pub student_id: String,
    pub scheduled_date: i64,
    pub departure_location: Location,
}

/// A booking as answered to clients, its status in wire form.
#[derive(Debug)]
pub struct BookingResponse {
    pub id: String,
    pub student_id: String,
    pub scheduled_date: i64,
    pub departure_location: Location,
    pub status: String,
}

impl BookingResponse {
    /// A booking turned into its response form.
    pub fn from_booking(booking: Booking) -> (r: Self)
        ensures
            r.id@ == booking.id@,
            r.student_id@ == booking.student_id@,
            r.scheduled_date == booking.scheduled_date,
            r.departure_location.lat_microdeg == booking.departure_location.lat_microdeg,
            r.departure_location.lon_microdeg == booking.departure_location.lon_microdeg,
            r.departure_location.name@ == booking.departure_location.name@,
            r.status@ == crate::models::status_name_spec(booking.status),
    {
        let status = String::from_str(booking.status.as_str());
        BookingResponse {
            id: booking.id,
            student_id: booking.student_id,
            scheduled_date: booking.scheduled_date,
            departure_location: booking.departure_location,
            status,
        }
    }
}

/// A request to reschedule a booking to a new time, in Unix seconds.
#[derive(Debug)]
pub struct RescheduleRequest {
    pub new_scheduled_date: i64,
}

/// The response carrying exactly the suggested reschedule options.
#[derive(Debug)]
pub struct RescheduleOptionsResponse {
    pub options: Vec<crate::suggest::RescheduleOption>,
}

/// A request to create a student, the training level in wire form.
#[derive(Debug)]
pub struct CreateStudentRequest {
    pub name: String,
    pub email: String,
    pub phone: String,
    pub training_level: String,
}

/// A student as answered to clients, the training level in wire form.
#[derive(Debug)]
pub struct StudentResponse {
    pub id: String,
    pub name: String,
    pub email: String,
    pub phone: String,
    pub training_level: String,
}

impl StudentResponse {
    /// A student turned into their response form.
    pub fn from_student(student: Student) -> (r: Self)
        ensures
            r.id@ == student.id@,
            r.name@ == student.name@,
            r.email@ == student.email@,
            r.phone@ == student.phone@,
            r.training_level@ == crate::models::level_name_spec(student.training_level),
    {
        let training_level = String::from_str(student.training_level.as_str());
        StudentResponse {
            id: student.id,
            name: student.name,
            email: student.email,
            phone: student.phone,
            training_level,
        }
    }
}

/// Builds the booking a creation request describes: a fresh id, the
/// requested schedule and location, created in the Scheduled state.
pub fn booking_from_request(id: String, req: CreateBookingRequest) -> (r: Booking)
    ensures
        r.id@ == id@,
        r.student_id@ == req.student_id@,
        r.scheduled_date == req.scheduled_date,
        r.departure_location.lat_microdeg == req.departure_location.lat_microdeg,
        r.departure_location.lon_microdeg == req.departure_location.lon_microdeg,
        r.departure_location.name@ == req.departure_location.name@,
        r.status == crate::models::BookingStatus::Scheduled,
{
    Booking {
        id,
        student_id: req.student_id,
        scheduled_date: req.scheduled_date,
        departure_location: req.departure_location,
        status: crate::models::BookingStatus::Scheduled,
    }
}

/// Builds the student a creation request describes, rejecting an unknown
/// training level exactly as the parse does.
pub fn student_from_request(id: String, req: CreateStudentRequest) -> (r: Result<
    Student,
    crate::error::ApiError,
>)
    ensures
        r is Ok <==> (req.training_level@ == "STUDENT_PILOT"@ || req.training_level@
            == "PRIVATE_PILOT"@ || req.training_level@ == "INSTRUMENT_RATED"@),
        r matches Ok(s) ==> {
            &&& s.id@ == id@
            &&& s.name@ == req.name@
            &&& s.email@ == req.email@
            &&& s.phone@ == req.phone@
            &&& crate::models::level_name_spec(s.training_level) == req.training_level@
        },
        r matches Err(e) ==> e.error.code@ == "VALIDATION_ERROR"@,
{
    proof {
        reveal_strlit("STUDENT_PILOT");
        reveal_strlit("PRIVATE_PILOT");
        reveal_strlit("INSTRUMENT_RATED");
        assert(("STUDENT_PILOT"@)[0] == 'S' && ("PRIVATE_PILOT"@)[0] == 'P');
        assert(("INSTRUMENT_RATED"@).len() == 16);
        assert(("STUDENT_PILOT"@).len() == 13);
        assert(("PRIVATE_PILOT"@).len() == 13);
    }
    match crate::models::parse_training_level(req.training_level.as_str()) {
        Some(level) => Ok(
            Student {
                id,
                name: req.name,
                email: req.email,
                phone: req.phone,
                training_level: level,
            },
        ),
        None => Err(
            crate::error::ApiError::validation_error(
                "Invalid training level. Must be one of: STUDENT_PILOT, PRIVATE_PILOT, INSTRUMENT_RATED",
            ),
        ),
    }
}

} // verus!
