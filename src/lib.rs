//! A departure board: turns the stop-time records of a transit-routing API
//! into time-zoned, alert-highlighted display rows.
use vstd::prelude::*;

pub mod board;
pub mod clock;
pub mod departure;
pub mod text;

pub use board::{
    format_board, format_delay, format_departure, format_departure_text, BoardEntry, Config, Row,
    DEFAULT_ALERT_WINDOW_MINUTES,
};
pub use clock::Timestamp;
pub use departure::{
    check_record, normalize, normalize_at_offset, normalize_stops, Departure, Field,
    NormalizeError, RecordFault, StopRecord, StopTimeRecord, TripRecord,
};

verus! {

/// The query for a stop's upcoming departures, by stop name, that the
/// transport layer sends to the routing API.
pub struct StopsQuery;

} // verus!
