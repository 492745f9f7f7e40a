use stop_board::{
    format_board, format_delay, format_departure, format_departure_text, normalize,
    normalize_at_offset, normalize_stops, BoardEntry, Config, Departure, Field, NormalizeError,
    StopRecord, StopTimeRecord, Timestamp, TripRecord, DEFAULT_ALERT_WINDOW_MINUTES,
};

fn departure(utc: i64, offset: i32, realtime: bool, delay: Option<i64>) -> Departure {
    Departure {
        line: String::from("550"),
        destination: String::from("Itakeskus"),
        departure_utc: utc,
        utc_offset: offset,
        is_realtime: realtime,
        delay_seconds: delay,
    }
}

fn config_at(secs: i64, nanos: u32, window: i64) -> Config {
    Config { alert_window_minutes: window, now: Timestamp { secs, nanos } }
}

fn record(realtime: Option<bool>, rt: Option<i64>, sched: Option<i64>) -> StopTimeRecord {
    StopTimeRecord {
        service_day: Some(1_700_000_000),
        realtime,
        realtime_departure: rt,
        scheduled_departure: sched,
        departure_delay: Some(30),
        trip: Some(TripRecord {
            route_short_name: Some(String::from("550")),
            trip_headsign: Some(String::from("Itakeskus")),
        }),
    }
}

// 14:05 on 1 January 1970, UTC.
const FOURTEEN_OH_FIVE: i64 = 14 * 3600 + 5 * 60;

#[test]
fn delay_annotation_zero_late_early() {
    assert_eq!(format_delay(Some(0)), "");
    assert_eq!(format_delay(Some(120)), "(+120)");
    assert_eq!(format_delay(Some(-45)), "(-45)");
    assert_eq!(format_delay(None), "");
}

#[test]
fn alert_window_boundary_is_inclusive() {
    let cfg = config_at(1_000_000, 0, 5);
    let exactly = format_departure(&departure(1_000_300, 0, false, None), &cfg);
    assert!(exactly.emphasized);
    assert_eq!(exactly.text, "in 5 min 0 secs");
    let one_more = format_departure(&departure(1_000_301, 0, false, None), &cfg);
    assert!(!one_more.emphasized);
}

#[test]
fn imminent_realtime_seconds_only() {
    let cfg = config_at(1_000_000, 0, 5);
    let d = departure(1_000_030, 0, true, Some(0));
    assert_eq!(format_departure_text(&d, &cfg), "in ~30 secs ");
}

#[test]
fn imminent_with_minutes() {
    let cfg = config_at(1_000_000, 0, 5);
    let rt = departure(1_000_125, 0, true, Some(120));
    assert_eq!(format_departure_text(&rt, &cfg), "in ~2 min 5 secs (+120)");
    let early = departure(1_000_125, 0, true, Some(-45));
    assert_eq!(format_departure_text(&early, &cfg), "in ~2 min 5 secs (-45)");
    let sched = departure(1_000_125, 0, false, Some(120));
    assert_eq!(format_departure_text(&sched, &cfg), "in 2 min 5 secs");
}

#[test]
fn imminent_counts_fractional_now() {
    let cfg = config_at(1_000_000, 500_000_000, 5);
    let d = departure(1_000_300, 0, false, None);
    let row = format_departure(&d, &cfg);
    assert!(row.emphasized);
    assert_eq!(row.text, "in 4 min 59 secs");
}

#[test]
fn already_departed_is_imminent() {
    let cfg = config_at(1_000_000, 0, 5);
    let d = departure(999_925, 0, false, None);
    let row = format_departure(&d, &cfg);
    assert!(row.emphasized);
    assert_eq!(row.text, "in -15 secs");
}

#[test]
fn routine_scheduled_and_realtime() {
    let cfg = config_at(0, 0, 5);
    let sched = format_departure(&departure(FOURTEEN_OH_FIVE, 0, false, Some(90)), &cfg);
    assert!(!sched.emphasized);
    assert_eq!(sched.text, "14:05");
    assert_eq!(sched.line, "550");
    assert_eq!(sched.destination, "Itakeskus");
    let rt = format_departure(&departure(FOURTEEN_OH_FIVE, 0, true, Some(90)), &cfg);
    assert_eq!(rt.text, "~14:05 (90)");
    let unknown = format_departure(&departure(FOURTEEN_OH_FIVE, 0, true, None), &cfg);
    assert_eq!(unknown.text, "~14:05");
}

#[test]
fn routine_uses_local_offset() {
    let cfg = config_at(0, 0, 5);
    let d = departure(FOURTEEN_OH_FIVE - 7200, 7200, false, None);
    assert_eq!(format_departure_text(&d, &cfg), "14:05");
    let west = departure(FOURTEEN_OH_FIVE + 3 * 3600, -3 * 3600, false, None);
    assert_eq!(format_departure_text(&west, &cfg), "14:05");
    let midnight = departure(86_400 * 3 + 60 * 7, 0, false, None);
    assert_eq!(format_departure_text(&midnight, &cfg), "00:07");
}

#[test]
fn default_window_is_five_minutes() {
    let now = Timestamp { secs: 10_000, nanos: 0 };
    let cfg = Config::at(now);
    assert_eq!(cfg.alert_window_minutes, DEFAULT_ALERT_WINDOW_MINUTES);
    assert_eq!(cfg.alert_window_minutes, 5);
    assert_eq!(cfg.now, now);
}

fn is_separator(e: &BoardEntry) -> bool {
    matches!(e, BoardEntry::Separator)
}

#[test]
fn one_separator_between_two_stops() {
    let cfg = config_at(0, 0, 5);
    let stops = vec![
        vec![departure(FOURTEEN_OH_FIVE, 0, false, None), departure(FOURTEEN_OH_FIVE + 60, 0, false, None)],
        vec![departure(FOURTEEN_OH_FIVE + 120, 0, false, None), departure(FOURTEEN_OH_FIVE + 180, 0, false, None)],
    ];
    let board = format_board(&stops, &cfg);
    assert_eq!(board.len(), 5);
    let seps: Vec<usize> = (0..board.len()).filter(|&k| is_separator(&board[k])).collect();
    assert_eq!(seps, vec![2]);
    let texts: Vec<String> = board
        .iter()
        .filter_map(|e| match e {
            BoardEntry::Departure(r) => Some(r.text.clone()),
            BoardEntry::Separator => None,
        })
        .collect();
    assert_eq!(texts, vec!["14:05", "14:06", "14:07", "14:08"]);
}

#[test]
fn empty_stop_leaves_no_separator() {
    let cfg = config_at(0, 0, 5);
    let stops = vec![
        vec![],
        vec![departure(FOURTEEN_OH_FIVE, 0, false, None)],
        vec![],
        vec![departure(FOURTEEN_OH_FIVE, 0, false, None)],
        vec![],
    ];
    let board = format_board(&stops, &cfg);
    assert_eq!(board.len(), 3);
    assert!(!is_separator(&board[0]));
    assert!(is_separator(&board[1]));
    assert!(!is_separator(&board[2]));
    assert!(format_board(&vec![], &cfg).is_empty());
    assert!(format_board(&vec![vec![], vec![]], &cfg).is_empty());
}

#[test]
fn scheduled_record_ignores_realtime_value() {
    let r = record(Some(false), Some(999), Some(600));
    let d = normalize_at_offset(&r, 0).unwrap();
    assert_eq!(d.departure_utc, 1_700_000_600);
    assert!(!d.is_realtime);
    assert_eq!(d.delay_seconds, Some(30));
    assert_eq!(d.line, "550");
    assert_eq!(d.destination, "Itakeskus");
}

#[test]
fn realtime_record_uses_realtime_value() {
    let r = record(Some(true), Some(630), Some(600));
    let d = normalize_at_offset(&r, 3600).unwrap();
    assert_eq!(d.departure_utc, 1_700_000_630);
    assert_eq!(d.utc_offset, 3600);
    assert!(d.is_realtime);
}

#[test]
fn realtime_without_value_is_inconsistent() {
    let r = record(Some(true), None, Some(600));
    assert_eq!(normalize_at_offset(&r, 0).err(), Some(NormalizeError::InconsistentRealtimeFlag));
    let stops = vec![StopRecord { stop_times: Some(vec![record(Some(false), None, Some(60)), r]) }];
    let fault = normalize_stops(&stops).err().unwrap();
    assert_eq!(fault.stop, 0);
    assert_eq!(fault.record, 1);
    assert_eq!(fault.error, NormalizeError::InconsistentRealtimeFlag);
}

#[test]
fn missing_fields_are_reported() {
    let mut r = record(Some(false), None, Some(60));
    r.service_day = None;
    assert_eq!(normalize_at_offset(&r, 0).err(), Some(NormalizeError::MissingField(Field::ServiceDay)));
    let mut r = record(Some(false), None, Some(60));
    r.trip = None;
    assert_eq!(normalize_at_offset(&r, 0).err(), Some(NormalizeError::MissingField(Field::Trip)));
    let r = record(None, None, Some(60));
    assert_eq!(normalize_at_offset(&r, 0).err(), Some(NormalizeError::MissingField(Field::Realtime)));
    let r = record(Some(true), Some(60), None);
    assert_eq!(
        normalize_at_offset(&r, 0).err(),
        Some(NormalizeError::MissingField(Field::ScheduledDeparture))
    );
    let mut r = record(Some(false), None, Some(60));
    r.trip.as_mut().unwrap().route_short_name = None;
    assert_eq!(
        normalize_at_offset(&r, 0).err(),
        Some(NormalizeError::MissingField(Field::RouteShortName))
    );
    let mut r = record(Some(false), None, Some(60));
    r.trip.as_mut().unwrap().trip_headsign = None;
    assert_eq!(
        normalize_at_offset(&r, 0).err(),
        Some(NormalizeError::MissingField(Field::TripHeadsign))
    );
    let stops = vec![StopRecord { stop_times: None }];
    let fault = normalize_stops(&stops).err().unwrap();
    assert_eq!(fault.error, NormalizeError::MissingField(Field::StopTimes));
}

#[test]
fn far_instant_is_out_of_range() {
    let mut r = record(Some(false), None, Some(60));
    r.service_day = Some(i64::MAX);
    assert_eq!(normalize_at_offset(&r, 0).err(), Some(NormalizeError::OutOfRange));
    let mut r = record(Some(false), None, Some(60));
    r.service_day = Some(-8_000_000_000_061);
    assert_eq!(normalize(&r).err(), Some(NormalizeError::OutOfRange));
}

#[test]
fn local_zone_normalization() {
    let r = record(Some(false), None, Some(600));
    let d = normalize(&r).unwrap();
    assert_eq!(d.departure_utc, 1_700_000_600);
    assert!(d.utc_offset > -86_400 && d.utc_offset < 86_400);
    let stops = vec![
        StopRecord { stop_times: Some(vec![r, record(Some(true), Some(700), Some(600))]) },
        StopRecord { stop_times: Some(vec![]) },
    ];
    let out = normalize_stops(&stops).unwrap();
    assert_eq!(out.len(), 2);
    assert_eq!(out[0].len(), 2);
    assert_eq!(out[0][1].departure_utc, 1_700_000_700);
    assert!(out[1].is_empty());
}
