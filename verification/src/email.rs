//! The booking details that the guest emails are built from, shared with the
//! SMS notifications so that an SMS never disagrees with its email.
use vstd::prelude::*;

verus! {

/// Details of a confirmed, rescheduled or upcoming booking, already formatted
/// in the guest's timezone.
pub struct BookingDetails {
    pub event_title: String,
    pub date: String,
    pub start_time: String,
    pub guest_timezone: String,
    pub guest_language: Option<String>,
}

/// Details of a cancelled booking, already formatted in the guest's timezone.
pub struct CancellationDetails {
    pub event_title: String,
    pub date: String,
    pub start_time: String,
    pub guest_timezone: String,
    pub guest_language: Option<String>,
}

} // verus!
