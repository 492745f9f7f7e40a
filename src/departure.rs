//! The departure normalizer: checks each stop-time record of the routing API
//! and turns it into a `Departure` at an absolute instant.
use vstd::prelude::*;
use crate::clock::{in_range, valid_offset, local_offset_at, MAX_EPOCH_SECONDS};

verus! {

/// The trip that a stop time belongs to.
pub struct TripRecord {
    pub route_short_name: Option<String>,
    pub trip_headsign: Option<String>,
}

/// One stop time as the routing API reports it; any field may be absent.
pub struct StopTimeRecord {
    /// Start of the service day, in seconds since the epoch.
    pub service_day: Option<i64>,
    pub realtime: Option<bool>,
    /// Realtime departure, in seconds from the start of the service day.
    pub realtime_departure: Option<i64>,
    /// Scheduled departure, in seconds from the start of the service day.
    pub scheduled_departure: Option<i64>,
    /// Signed seconds between scheduled and actual departure; positive is late.
    pub departure_delay: Option<i64>,
    pub trip: Option<TripRecord>,
}

/// The required fields of a stop-time record.
#[derive(Debug, Clone, Copy, PartialEq, Eq, Structural)]
pub enum Field {
    StopTimes,
    ServiceDay,
    Realtime,
    ScheduledDeparture,
    Trip,
    RouteShortName,
    TripHeadsign,
}

/// Why a record yields no departure.
#[derive(Debug, Clone, Copy, PartialEq, Eq, Structural)]
pub enum NormalizeError {
    MissingField(Field),
    /// The record is flagged realtime but holds no realtime departure.
    InconsistentRealtimeFlag,
    /// The departure instant lies outside the handled range of instants.
    OutOfRange,
}

/// A departure at an absolute instant, with its local zone's offset there.
pub struct Departure {
    pub line: String,
    pub destination: String,
    /// The departure instant, in seconds since the epoch (UTC).
    pub departure_utc: i64,
    /// Local time minus UTC at the departure instant, in seconds.
    pub utc_offset: i32,
    pub is_realtime: bool,
    pub delay_seconds: Option<i64>,
}

impl Departure {
    /// The instant and the offset are in their ranges.
    pub open spec fn wf(&self) -> bool {
        in_range(self.departure_utc as int) && valid_offset(self.utc_offset as int)
    }
}

/// The offset from the service day that the record's own realtime flag selects.
pub open spec fn selected_offset(rec: StopTimeRecord) -> Option<i64> {
    if rec.realtime == Some(true) {
        rec.realtime_departure
    } else {
        rec.scheduled_departure
    }
}

/// The departure instant of a complete record: service day plus the selected offset.
pub open spec fn departure_instant(rec: StopTimeRecord) -> int {
    rec.service_day.unwrap() + selected_offset(rec).unwrap()
}

/// The first fault of a record, checked in field order; `None` when it is complete.
pub open spec fn record_error(rec: StopTimeRecord) -> Option<NormalizeError> {
    if rec.service_day is None {
        Some(NormalizeError::MissingField(Field::ServiceDay))
    } else if rec.trip is None {
        Some(NormalizeError::MissingField(Field::Trip))
    } else if rec.realtime is None {
        Some(NormalizeError::MissingField(Field::Realtime))
    } else if rec.scheduled_departure is None {
        Some(NormalizeError::MissingField(Field::ScheduledDeparture))
    } else if rec.realtime == Some(true) && rec.realtime_departure is None {
        Some(NormalizeError::InconsistentRealtimeFlag)
    } else if rec.trip.unwrap().route_short_name is None {
        Some(NormalizeError::MissingField(Field::RouteShortName))
    } else if rec.trip.unwrap().trip_headsign is None {
        Some(NormalizeError::MissingField(Field::TripHeadsign))
    } else if !in_range(departure_instant(rec)) {
        Some(NormalizeError::OutOfRange)
    } else {
        None
    }
}

/// `d` is the departure of the complete record `rec` in a zone `offset`
/// seconds ahead of UTC.
pub open spec fn describes(d: Departure, rec: StopTimeRecord, offset: int) -> bool {
    &&& d.line@ == rec.trip.unwrap().route_short_name.unwrap()@
    &&& d.destination@ == rec.trip.unwrap().trip_headsign.unwrap()@
    &&& d.departure_utc == departure_instant(rec)
    &&& d.utc_offset == offset
    &&& d.is_realtime == rec.realtime.unwrap()
    &&& d.delay_seconds == rec.departure_delay
}

/// The first fault of `rec`, in the order of `record_error`.
pub fn check_record(rec: &StopTimeRecord) -> (r: Option<NormalizeError>)
    ensures
        r == record_error(*rec),
{
    let service_day = match rec.service_day {
        Some(v) => v,
        None => return Some(NormalizeError::MissingField(Field::ServiceDay)),
    };
    let trip = match &rec.trip {
        Some(t) => t,
        None => return Some(NormalizeError::MissingField(Field::Trip)),
    };
    let realtime = match rec.realtime {
        Some(v) => v,
        None => return Some(NormalizeError::MissingField(Field::Realtime)),
    };
    let scheduled = match rec.scheduled_departure {
        Some(v) => v,
        None => return Some(NormalizeError::MissingField(Field::ScheduledDeparture)),
    };
    let offset = if realtime {
        match rec.realtime_departure {
            Some(v) => v,
            None => return Some(NormalizeError::InconsistentRealtimeFlag),
        }
    } else {
        scheduled
    };
    if trip.route_short_name.is_none() {
        return Some(NormalizeError::MissingField(Field::RouteShortName));
    }
    if trip.trip_headsign.is_none() {
        return Some(NormalizeError::MissingField(Field::TripHeadsign));
    }
    let instant: i128 = service_day as i128 + offset as i128;
    if instant < -(MAX_EPOCH_SECONDS as i128) || instant > MAX_EPOCH_SECONDS as i128 {
        return Some(NormalizeError::OutOfRange);
    }
    None
}

/// The departure of `rec` in a zone `utc_offset` seconds ahead of UTC, or the
/// record's first fault.
pub fn normalize_at_offset(rec: &StopTimeRecord, utc_offset: i32) -> (r: Result<
    Departure,
    NormalizeError,
>)
    requires
        valid_offset(utc_offset as int),
    ensures
        match r {
            Ok(d) => record_error(*rec) is None && describes(d, *rec, utc_offset as int) && d.wf(),
            Err(e) => record_error(*rec) == Some(e),
        },
{
    match check_record(rec) {
        Some(e) => Err(e),
        None => {
            let trip = rec.trip.as_ref().unwrap();
            let realtime = rec.realtime.unwrap();
            let offset = if realtime {
                rec.realtime_departure.unwrap()
            } else {
                rec.scheduled_departure.unwrap()
            };
            let departure_utc = (rec.service_day.unwrap() as i128 + offset as i128) as i64;
            Ok(
                Departure {
                    line: trip.route_short_name.as_ref().unwrap().clone(),
                    destination: trip.trip_headsign.as_ref().unwrap().clone(),
                    departure_utc,
                    utc_offset,
                    is_realtime: realtime,
                    delay_seconds: rec.departure_delay,
                },
            )
        },
    }
}

/// The departure of `rec` in the process's local zone, or the record's first
/// fault.
pub fn normalize(rec: &StopTimeRecord) -> (r: Result<Departure, NormalizeError>)
    ensures
        match r {
            Ok(d) => record_error(*rec) is None && describes(d, *rec, d.utc_offset as int) && d.wf(),
            Err(e) => record_error(*rec) == Some(e),
        },
{
    match check_record(rec) {
        Some(e) => Err(e),
        None => {
            let offset = if rec.realtime.unwrap() {
                rec.realtime_departure.unwrap()
            } else {
                rec.scheduled_departure.unwrap()
            };
            let instant = (rec.service_day.unwrap() as i128 + offset as i128) as i64;
            let zone = local_offset_at(instant);
            normalize_at_offset(rec, zone)
        },
    }
}

/// A stop as the routing API reports it: its stop times, if any were given.
pub struct StopRecord {
    pub stop_times: Option<Vec<StopTimeRecord>>,
}

/// The first faulty record of a board: the stop's index, the record's index
/// within it (0 when the stop's list is missing), and the fault.
#[derive(Debug, Clone, Copy, PartialEq, Eq, Structural)]
pub struct RecordFault {
    pub stop: usize,
    pub record: usize,
    pub error: NormalizeError,
}

/// The stop's records are all complete.
pub open spec fn stop_complete(stop: StopRecord) -> bool {
    &&& stop.stop_times is Some
    &&& forall|j: int|
        0 <= j < stop.stop_times.unwrap()@.len() ==> record_error(
            #[trigger] stop.stop_times.unwrap()@[j],
        ) is None
}

/// `f` is the fault that the stop shows first.
pub open spec fn first_fault_in_stop(stop: StopRecord, f: RecordFault) -> bool {
    match stop.stop_times {
        None => f.record == 0 && f.error == NormalizeError::MissingField(Field::StopTimes),
        Some(v) => {
            &&& f.record < v@.len()
            &&& record_error(v@[f.record as int]) == Some(f.error)
            &&& forall|j: int| 0 <= j < f.record ==> record_error(#[trigger] v@[j]) is None
        },
    }
}

/// Normalizes every record of every stop in the local zone, failing on the
/// first faulty record: no board is drawn from a partly faulty response.
pub fn normalize_stops(stops: &Vec<StopRecord>) -> (r: Result<Vec<Vec<Departure>>, RecordFault>)
    ensures
        match r {
            Ok(out) => {
                &&& out@.len() == stops@.len()
                &&& forall|i: int| 0 <= i < stops@.len() ==> stop_complete(#[trigger] stops@[i])
                &&& forall|i: int|
                    0 <= i < stops@.len() ==> (#[trigger] out@[i])@.len()
                        == stops@[i].stop_times.unwrap()@.len()
                &&& forall|i: int, j: int|
                    0 <= i < stops@.len() && 0 <= j < out@[i]@.len() ==> {
                        let d = #[trigger] out@[i]@[j];
                        d.wf() && describes(
                            d,
                            stops@[i].stop_times.unwrap()@[j],
                            d.utc_offset as int,
                        )
                    }
            },
            Err(f) => {
                &&& f.stop < stops@.len()
                &&& first_fault_in_stop(stops@[f.stop as int], f)
                &&& forall|i: int| 0 <= i < f.stop ==> stop_complete(#[trigger] stops@[i])
            },
        },
{
    let mut out: Vec<Vec<Departure>> = Vec::new();
    let mut i: usize = 0;
    while i < stops.len()
        invariant
            0 <= i <= stops@.len(),
            out@.len() == i,
            forall|k: int| 0 <= k < i ==> stop_complete(#[trigger] stops@[k]),
            forall|k: int|
                0 <= k < i ==> (#[trigger] out@[k])@.len() == stops@[k].stop_times.unwrap()@.len(),
            forall|k: int, j: int|
                0 <= k < i && 0 <= j < out@[k]@.len() ==> {
                    let d = #[trigger] out@[k]@[j];
                    d.wf() && describes(d, stops@[k].stop_times.unwrap()@[j], d.utc_offset as int)
                },
        decreases stops@.len() - i,
    {
        let times = match &stops[i].stop_times {
            Some(v) => v,
            None => {
                return Err(
                    RecordFault {
                        stop: i,
                        record: 0,
                        error: NormalizeError::MissingField(Field::StopTimes),
                    },
                );
            },
        };
        let mut group: Vec<Departure> = Vec::new();
        let mut j: usize = 0;
        while j < times.len()
            invariant
                0 <= j <= times@.len(),
                i < stops@.len(),
                stops@[i as int].stop_times == Some(*times),
                group@.len() == j,
                forall|k: int| 0 <= k < i ==> stop_complete(#[trigger] stops@[k]),
                forall|m: int| 0 <= m < j ==> record_error(#[trigger] times@[m]) is None,
                forall|m: int|
                    0 <= m < j ==> {
                        let d = #[trigger] group@[m];
                        d.wf() && describes(d, times@[m], d.utc_offset as int)
                    },
            decreases times@.len() - j,
        {
            match normalize(&times[j]) {
                Ok(d) => {
                    group.push(d);
                },
                Err(e) => {
                    let f = RecordFault { stop: i, record: j, error: e };
                    assert(first_fault_in_stop(stops@[i as int], f));
                    return Err(f);
                },
            }
            j = j + 1;
        }
        out.push(group);
        i = i + 1;
    }
    Ok(out)
}

/// A record that is not flagged realtime departs at its service day plus its
/// scheduled departure, whatever realtime departure it also holds.
pub proof fn scheduled_record_ignores_realtime_departure(a: StopTimeRecord, b: StopTimeRecord)
    requires
        a.realtime == Some(false),
        b == (StopTimeRecord { realtime_departure: b.realtime_departure, ..a }),
    ensures
        record_error(a) == record_error(b),
        departure_instant(a) == departure_instant(b),
        departure_instant(a) == a.service_day.unwrap() + a.scheduled_departure.unwrap(),
{
}

/// A record flagged realtime that holds a realtime departure departs at its
/// service day plus that realtime departure.
pub proof fn realtime_record_uses_realtime_departure(a: StopTimeRecord)
    requires
        a.realtime == Some(true),
        a.realtime_departure is Some,
    ensures
        departure_instant(a) == a.service_day.unwrap() + a.realtime_departure.unwrap(),
{
}

/// A record flagged realtime without a realtime departure never yields a
/// departure, and once its other leading fields are present the fault is the
/// inconsistent flag.
pub proof fn realtime_without_departure_is_rejected(a: StopTimeRecord)
    requires
        a.realtime == Some(true),
        a.realtime_departure is None,
    ensures
        record_error(a) is Some,
        a.service_day is Some && a.trip is Some && a.scheduled_departure is Some ==> record_error(a)
            == Some(NormalizeError::InconsistentRealtimeFlag),
{
}

} // verus!
