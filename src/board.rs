//! The board formatter: applies the alert window to departures and renders
//! display rows, with separators between the stops' groups of rows.
use vstd::prelude::*;
use crate::clock::{Timestamp, NANOS_PER_SECOND, hh_mm_text, clock_text};
use crate::departure::Departure;
use crate::text::{int_text, push_int, push_text};

verus! {

/// The minutes before departure within which a departure is imminent, unless configured.
pub const DEFAULT_ALERT_WINDOW_MINUTES: i64 = 5;

/// What the formatter needs besides the departures.
#[derive(Debug, Clone, Copy, PartialEq, Eq, Structural)]
pub struct Config {
    /// A departure at most this many minutes away is imminent.
    pub alert_window_minutes: i64,
    /// The instant the board is drawn at.
    pub now: Timestamp,
}

impl Config {
    /// The configured instant is well formed.
    pub open spec fn wf(&self) -> bool {
        self.now.wf()
    }

    /// The configuration at `now` with the default alert window.
    pub fn at(now: Timestamp) -> (r: Config)
        ensures
            r.now == now,
            r.alert_window_minutes == DEFAULT_ALERT_WINDOW_MINUTES,
    {
        Config { alert_window_minutes: DEFAULT_ALERT_WINDOW_MINUTES, now }
    }
}

/// `a / b` rounded toward zero, for positive `b`.
pub open spec fn div_toward_zero(a: int, b: int) -> int {
    if a >= 0 {
        a / b
    } else {
        -((-a) / b)
    }
}

/// Signed nanoseconds from the configured instant to the departure.
pub open spec fn remaining_nanos(d: Departure, cfg: Config) -> int {
    (d.departure_utc - cfg.now.secs) * NANOS_PER_SECOND - cfg.now.nanos
}

/// The departure is at most the alert window away (or already past).
pub open spec fn is_imminent(d: Departure, cfg: Config) -> bool {
    remaining_nanos(d, cfg) <= cfg.alert_window_minutes * 60 * NANOS_PER_SECOND
}

/// Whole seconds to the departure, rounded toward zero.
pub open spec fn remaining_whole_seconds(d: Departure, cfg: Config) -> int {
    div_toward_zero(remaining_nanos(d, cfg), NANOS_PER_SECOND as int)
}

/// Whole minutes to the departure, rounded toward zero.
pub open spec fn remaining_minutes(d: Departure, cfg: Config) -> int {
    div_toward_zero(remaining_whole_seconds(d, cfg), 60)
}

/// Seconds past the whole minutes to the departure (negative once it is past).
pub open spec fn remaining_extra_seconds(d: Departure, cfg: Config) -> int {
    remaining_whole_seconds(d, cfg) - remaining_minutes(d, cfg) * 60
}

/// The delay annotation: empty for no delay or an unknown one, `(+n)` when
/// late, `(n)` (with its minus sign) when early.
pub open spec fn delay_annotation(delay: Option<i64>) -> Seq<char> {
    match delay {
        None => Seq::empty(),
        Some(n) => if n == 0 {
            Seq::empty()
        } else if n > 0 {
            seq!['(', '+'] + int_text(n as int) + seq![')']
        } else {
            seq!['('] + int_text(n as int) + seq![')']
        },
    }
}

/// The countdown text of an imminent departure.
pub open spec fn imminent_text(d: Departure, cfg: Config) -> Seq<char> {
    let mins = remaining_minutes(d, cfg);
    let secs = remaining_extra_seconds(d, cfg);
    if mins > 0 {
        if d.is_realtime {
            "in ~"@ + int_text(mins) + " min "@ + int_text(secs) + " secs "@ + delay_annotation(
                d.delay_seconds,
            )
        } else {
            "in "@ + int_text(mins) + " min "@ + int_text(secs) + " secs"@
        }
    } else {
        if d.is_realtime {
            "in ~"@ + int_text(secs) + " secs "@ + delay_annotation(d.delay_seconds)
        } else {
            "in "@ + int_text(secs) + " secs"@
        }
    }
}

/// The wall-clock text of a routine departure: `HH:MM` local, and for a
/// realtime one a leading `~` and the delay in parentheses when known.
pub open spec fn routine_text(d: Departure) -> Seq<char> {
    let clock = hh_mm_text(d.departure_utc + d.utc_offset);
    if d.is_realtime {
        match d.delay_seconds {
            Some(n) => seq!['~'] + clock + seq![' ', '('] + int_text(n as int) + seq![')'],
            None => seq!['~'] + clock,
        }
    } else {
        clock
    }
}

/// The text shown for a departure.
pub open spec fn departure_text(d: Departure, cfg: Config) -> Seq<char> {
    if is_imminent(d, cfg) {
        imminent_text(d, cfg)
    } else {
        routine_text(d)
    }
}

/// Appends the delay annotation of `delay`.
pub fn push_delay(s: &mut String, delay: Option<i64>)
    ensures
        final(s)@ == old(s)@ + delay_annotation(delay),
{
    match delay {
        None => {
            assert(final(s)@ =~= old(s)@ + delay_annotation(delay));
        },
        Some(n) => {
            if n == 0 {
                assert(final(s)@ =~= old(s)@ + delay_annotation(delay));
            } else {
                s.push('(');
                if n > 0 {
                    s.push('+');
                }
                push_int(s, n);
                s.push(')');
                assert(final(s)@ =~= old(s)@ + delay_annotation(delay));
            }
        },
    }
}

/// The delay annotation of `delay` on its own.
pub fn format_delay(delay: Option<i64>) -> (r: String)
    ensures
        r@ == delay_annotation(delay),
{
    let mut s = String::new();
    push_delay(&mut s, delay);
    assert(s@ =~= delay_annotation(delay));
    s
}

/// One display row.
pub struct Row {
    pub line: String,
    pub destination: String,
    pub text: String,
    /// Drawn with emphasis: the departure is imminent.
    pub emphasized: bool,
}

/// The whole minutes and the seconds past them to the departure, and whether
/// it is imminent.
fn countdown(d: &Departure, cfg: &Config) -> (r: (i64, i64, bool))
    requires
        d.wf(),
        cfg.wf(),
    ensures
        r.0 == remaining_minutes(*d, *cfg),
        r.1 == remaining_extra_seconds(*d, *cfg),
        r.2 == is_imminent(*d, *cfg),
{
    let diff: i128 = d.departure_utc as i128 - cfg.now.secs as i128;
    assert(-20_000_000_000_000 <= diff <= 20_000_000_000_000);
    assert(-20_000_000_000_000_000_000_000 <= diff * 1_000_000_000 <= 20_000_000_000_000_000_000_000)
        by (nonlinear_arith)
        requires
            -20_000_000_000_000 <= diff <= 20_000_000_000_000,
    ;
    let nanos: i128 = diff * 1_000_000_000 - cfg.now.nanos as i128;
    let w: i128 = cfg.alert_window_minutes as i128;
    assert(-600_000_000_000_000_000_000_000_000_000 <= w * 60_000_000_000
        <= 600_000_000_000_000_000_000_000_000_000) by (nonlinear_arith)
        requires
            -10_000_000_000_000_000_000 <= w <= 10_000_000_000_000_000_000,
    ;
    let window: i128 = w * 60_000_000_000;
    let whole: i128 = if nanos >= 0 {
        nanos / 1_000_000_000
    } else {
        -((-nanos) / 1_000_000_000)
    };
    assert(-20_000_000_000_000 <= whole <= 20_000_000_000_000);
    let whole: i64 = whole as i64;
    let mins: i64 = if whole >= 0 {
        whole / 60
    } else {
        -((-whole) / 60)
    };
    let secs: i64 = whole - mins * 60;
    (mins, secs, nanos <= window)
}

/// Appends the countdown text of an imminent departure.
fn push_countdown(s: &mut String, d: &Departure, mins: i64, secs: i64)
    ensures
        final(s)@ == old(s)@ + (if mins > 0 {
            if d.is_realtime {
                "in ~"@ + int_text(mins as int) + " min "@ + int_text(secs as int) + " secs "@
                    + delay_annotation(d.delay_seconds)
            } else {
                "in "@ + int_text(mins as int) + " min "@ + int_text(secs as int) + " secs"@
            }
        } else {
            if d.is_realtime {
                "in ~"@ + int_text(secs as int) + " secs "@ + delay_annotation(d.delay_seconds)
            } else {
                "in "@ + int_text(secs as int) + " secs"@
            }
        }),
{
    if d.is_realtime {
        push_text(s, "in ~");
    } else {
        push_text(s, "in ");
    }
    if mins > 0 {
        push_int(s, mins);
        push_text(s, " min ");
    }
    push_int(s, secs);
    if d.is_realtime {
        push_text(s, " secs ");
        push_delay(s, d.delay_seconds);
    } else {
        push_text(s, " secs");
    }
    if mins > 0 {
        if d.is_realtime {
            assert(final(s)@ =~= old(s)@ + ("in ~"@ + int_text(mins as int) + " min "@ + int_text(
                secs as int,
            ) + " secs "@ + delay_annotation(d.delay_seconds)));
        } else {
            assert(final(s)@ =~= old(s)@ + ("in "@ + int_text(mins as int) + " min "@ + int_text(
                secs as int,
            ) + " secs"@));
        }
    } else {
        if d.is_realtime {
            assert(final(s)@ =~= old(s)@ + ("in ~"@ + int_text(secs as int) + " secs "@
                + delay_annotation(d.delay_seconds)));
        } else {
            assert(final(s)@ =~= old(s)@ + ("in "@ + int_text(secs as int) + " secs"@));
        }
    }
}

/// The text shown for a departure at the configured instant.
pub fn format_departure_text(d: &Departure, cfg: &Config) -> (r: String)
    requires
        d.wf(),
        cfg.wf(),
    ensures
        r@ == departure_text(*d, *cfg),
{
    let (mins, secs, imminent) = countdown(d, cfg);
    if imminent {
        let mut s = String::new();
        push_countdown(&mut s, d, mins, secs);
        assert(s@ =~= imminent_text(*d, *cfg));
        s
    } else {
        let clock = clock_text(d.departure_utc, d.utc_offset);
        if d.is_realtime {
            let mut s = String::new();
            s.push('~');
            push_text(&mut s, clock.as_str());
            match d.delay_seconds {
                Some(n) => {
                    s.push(' ');
                    s.push('(');
                    push_int(&mut s, n);
                    s.push(')');
                },
                None => {},
            }
            assert(s@ =~= routine_text(*d));
            s
        } else {
            clock
        }
    }
}

/// The display row of a departure at the configured instant.
pub fn format_departure(d: &Departure, cfg: &Config) -> (r: Row)
    requires
        d.wf(),
        cfg.wf(),
    ensures
        r.line@ == d.line@,
        r.destination@ == d.destination@,
        r.text@ == departure_text(*d, *cfg),
        r.emphasized == is_imminent(*d, *cfg),
{
    let (_mins, _secs, imminent) = countdown(d, cfg);
    Row {
        line: d.line.clone(),
        destination: d.destination.clone(),
        text: format_departure_text(d, cfg),
        emphasized: imminent,
    }
}

/// A row as plain values.
pub struct RowView {
    pub line: Seq<char>,
    pub destination: Seq<char>,
    pub text: Seq<char>,
    pub emphasized: bool,
}

impl View for Row {
    type V = RowView;

    open spec fn view(&self) -> RowView {
        RowView {
            line: self.line@,
            destination: self.destination@,
            text: self.text@,
            emphasized: self.emphasized,
        }
    }
}

/// What the board shows, in order: departure rows and the markers between stops.
pub enum BoardEntry {
    Departure(Row),
    Separator,
}

/// A board entry as plain values.
pub enum EntryView {
    Departure(RowView),
    Separator,
}

impl View for BoardEntry {
    type V = EntryView;

    open spec fn view(&self) -> EntryView {
        match self {
            BoardEntry::Departure(row) => EntryView::Departure(row@),
            BoardEntry::Separator => EntryView::Separator,
        }
    }
}

/// The row that `format_departure` gives for `d`.
pub open spec fn row_of(d: Departure, cfg: Config) -> RowView {
    RowView {
        line: d.line@,
        destination: d.destination@,
        text: departure_text(d, cfg),
        emphasized: is_imminent(d, cfg),
    }
}

/// The rows of one stop's departures, in the order given.
pub open spec fn group_entries(ds: Seq<Departure>, cfg: Config) -> Seq<EntryView> {
    ds.map_values(|d: Departure| EntryView::Departure(row_of(d, cfg)))
}

/// The board: each stop's rows in turn, one separator between two stops that
/// have rows, none before the first or after the last.
pub open spec fn board_entries(stops: Seq<Seq<Departure>>, cfg: Config) -> Seq<EntryView>
    decreases stops.len(),
{
    if stops.len() == 0 {
        Seq::empty()
    } else {
        let before = board_entries(stops.drop_last(), cfg);
        let group = group_entries(stops.last(), cfg);
        if group.len() == 0 {
            before
        } else if before.len() == 0 {
            group
        } else {
            before.push(EntryView::Separator) + group
        }
    }
}

/// The views of a sequence of entries.
pub open spec fn entries_view(es: Seq<BoardEntry>) -> Seq<EntryView> {
    es.map_values(|e: BoardEntry| e@)
}

/// Every departure of every stop is well formed.
pub open spec fn all_wf(stops: Seq<Vec<Departure>>) -> bool {
    forall|i: int, j: int|
        0 <= i < stops.len() && 0 <= j < stops[i]@.len() ==> (#[trigger] stops[i]@[j]).wf()
}

/// The stops' departure lists as sequences.
pub open spec fn stops_view(stops: Seq<Vec<Departure>>) -> Seq<Seq<Departure>> {
    stops.map_values(|v: Vec<Departure>| v@)
}

/// The board for the stops' departures, each stop's in the order given.
pub fn format_board(stops: &Vec<Vec<Departure>>, cfg: &Config) -> (r: Vec<BoardEntry>)
    requires
        all_wf(stops@),
        cfg.wf(),
    ensures
        entries_view(r@) == board_entries(stops_view(stops@), *cfg),
{
    let mut out: Vec<BoardEntry> = Vec::new();
    let mut i: usize = 0;
    while i < stops.len()
        invariant
            0 <= i <= stops@.len(),
            all_wf(stops@),
            cfg.wf(),
            entries_view(out@) == board_entries(stops_view(stops@).take(i as int), *cfg),
        decreases stops@.len() - i,
    {
        let group = &stops[i];
        let ghost before = out@;
        if group.len() > 0 && out.len() > 0 {
            out.push(BoardEntry::Separator);
        }
        let ghost start = out@;
        let mut j: usize = 0;
        while j < group.len()
            invariant
                0 <= j <= group@.len(),
                group == stops@[i as int],
                i < stops@.len(),
                all_wf(stops@),
                cfg.wf(),
                out@.len() == start.len() + j,
                out@.take(start.len() as int) == start,
                entries_view(out@).skip(start.len() as int) == group_entries(
                    group@.take(j as int),
                    *cfg,
                ),
            decreases group@.len() - j,
        {
            let ghost prev = out@;
            assert(stops@[i as int]@[j as int].wf());
            let row = format_departure(&group[j], cfg);
            out.push(BoardEntry::Departure(row));
            assert(out@.take(start.len() as int) =~= prev.take(start.len() as int));
            assert(entries_view(out@).skip(start.len() as int) =~= group_entries(
                group@.take(j + 1),
                *cfg,
            )) by {
                assert(group@.take(j + 1) =~= group@.take(j as int).push(group@[j as int]));
                assert(out@ =~= prev.push(out@[out@.len() - 1]));
                assert(out@[out@.len() - 1]@ == EntryView::Departure(
                    row_of(group@[j as int], *cfg),
                ));
                assert(entries_view(out@) =~= entries_view(prev).push(out@[out@.len() - 1]@));
                let x = EntryView::Departure(row_of(group@[j as int], *cfg));
                assert(entries_view(out@).skip(start.len() as int) =~= entries_view(prev).skip(
                    start.len() as int,
                ).push(x));
                assert(group_entries(group@.take(j + 1), *cfg) =~= group_entries(
                    group@.take(j as int),
                    *cfg,
                ).push(x));
                assert(entries_view(prev).skip(start.len() as int) =~= group_entries(
                    group@.take(j as int),
                    *cfg,
                ));
            }
            j = j + 1;
        }
        proof {
            let ss = stops_view(stops@);
            assert(ss.take(i + 1).drop_last() =~= ss.take(i as int));
            assert(ss.take(i + 1).last() == group@);
            assert(group@.take(j as int) =~= group@);
            assert(out@ =~= start + out@.skip(start.len() as int));
            assert(entries_view(out@) =~= entries_view(start) + entries_view(out@).skip(
                start.len() as int,
            ));
            if group@.len() > 0 && before.len() > 0 {
                assert(entries_view(start) =~= entries_view(before).push(EntryView::Separator));
            }
            assert(entries_view(out@) =~= board_entries(ss.take(i + 1), *cfg));
        }
        i = i + 1;
    }
    assert(stops_view(stops@).take(i as int) =~= stops_view(stops@));
    out
}

/// A separator on the board stands between two departure rows: never first,
/// never last, never beside another separator.
pub proof fn separators_only_between_rows(stops: Seq<Seq<Departure>>, cfg: Config)
    ensures
        forall|k: int|
            0 <= k < board_entries(stops, cfg).len() && #[trigger] board_entries(stops, cfg)[k]
                is Separator ==> 0 < k < board_entries(stops, cfg).len() - 1
                && board_entries(stops, cfg)[k - 1] is Departure && board_entries(stops, cfg)[k
                + 1] is Departure,
    decreases stops.len(),
{
    if stops.len() > 0 {
        separators_only_between_rows(stops.drop_last(), cfg);
        let before = board_entries(stops.drop_last(), cfg);
        let group = group_entries(stops.last(), cfg);
        let b = board_entries(stops, cfg);
        assert forall|k: int| 0 <= k < group.len() implies #[trigger] group[k] is Departure by {}
        if group.len() > 0 && before.len() > 0 {
            assert forall|k: int| 0 <= k < b.len() && #[trigger] b[k] is Separator implies 0 < k
                < b.len() - 1 && b[k - 1] is Departure && b[k + 1] is Departure by {
                if k < before.len() {
                    assert(b[k] == before[k]);
                    assert(b[k - 1] == before[k - 1]);
                    if k + 1 < before.len() {
                        assert(b[k + 1] == before[k + 1]);
                    }
                } else if k > before.len() {
                    assert(b[k] == group[k - before.len() - 1]);
                }
            }
        }
    }
}

/// A departure exactly the alert window away is imminent; one a second
/// further away is not.
pub proof fn alert_window_is_inclusive(d: Departure, cfg: Config)
    ensures
        remaining_nanos(d, cfg) == cfg.alert_window_minutes * 60 * NANOS_PER_SECOND ==> is_imminent(
            d,
            cfg,
        ),
        remaining_nanos(d, cfg) == cfg.alert_window_minutes * 60 * NANOS_PER_SECOND
            + NANOS_PER_SECOND ==> !is_imminent(d, cfg),
{
}

} // verus!
