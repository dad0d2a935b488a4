//! The board's display entries: raw train predictions and operator-injected
//! custom messages, normalized into one flat entry type with every derived
//! display field computed up front.
//!
//! Timestamps are modelled as milliseconds since the Unix epoch. Entry sort
//! keys live in `i128` so that `now + minutes * 60000` never overflows for
//! any `i64` inputs.

use vstd::prelude::*;
use vstd::string::StringExecFns;
use crate::line::{Line, Rgb, spec_line_color, spec_line_string, get_line_color, get_line_string,
    get_string_line, spec_string_line};
use crate::text::{str_eq, parse_i64, i64_to_dec, spec_parse_i64, spec_idec};

verus! {

/// One train prediction as the transit API reports it.
pub struct Train {
    pub car: Option<String>,
    pub destination: String,
    pub destination_code: Option<String>,
    pub group: String,
    pub line: String,
    pub location_code: String,
    pub location_name: String,
    pub min: String,
}

/// The fields of a train prediction that the merge engine reads.
#[verifier::ext_equal]
pub struct TrainModel {
    pub destination: Seq<char>,
    pub line: Seq<char>,
    pub min: Seq<char>,
}

impl View for Train {
    type V = TrainModel;

    open spec fn view(&self) -> TrainModel {
        TrainModel { destination: self.destination@, line: self.line@, min: self.min@ }
    }
}

impl DeepView for Train {
    type V = TrainModel;

    open spec fn deep_view(&self) -> TrainModel {
        self.view()
    }
}

impl Train {
    /// The line this prediction belongs to.
    pub fn get_line_enum(&self) -> (r: Line)
        ensures
            r == spec_string_line(self@.line),
    {
        get_string_line(self.line.as_str())
    }
}

/// An operator-injected custom message: its text, the timestamp (milliseconds
/// since the epoch) it is pinned to, and whether it is sticky. Sticky
/// messages never expire and sort ahead of everything else.
#[derive(Debug)]
pub struct ArrivalMessage {
    pub message: String,
    pub time: i64,
    pub sticky: bool,
}

/// The mathematical model of a custom message.
#[verifier::ext_equal]
pub struct MsgModel {
    pub message: Seq<char>,
    pub time: int,
    pub sticky: bool,
}

impl View for ArrivalMessage {
    type V = MsgModel;

    open spec fn view(&self) -> MsgModel {
        MsgModel { message: self.message@, time: self.time as int, sticky: self.sticky }
    }
}

impl DeepView for ArrivalMessage {
    type V = MsgModel;

    open spec fn deep_view(&self) -> MsgModel {
        self.view()
    }
}

impl Clone for ArrivalMessage {
    fn clone(&self) -> (r: Self)
        ensures
            r == *self,
    {
        ArrivalMessage { message: self.message.clone(), time: self.time, sticky: self.sticky }
    }
}

/// One normalized display entry, every derived field precomputed.
#[derive(Debug)]
pub struct SimpleArrivalDisplayable {
    pub comparison_timestamp: i128,
    pub comparison_timestamp_no_sticky: i128,
    pub message: String,
    pub line: Line,
    pub line_color: Rgb,
    pub leave: String,
    pub is_sticky: bool,
    pub arrival_time: String,
}

/// The mathematical model of a display entry.
#[verifier::ext_equal]
pub struct EntryModel {
    pub sort_key: int,
    pub no_sticky_key: int,
    pub message: Seq<char>,
    pub line: Line,
    pub color: Rgb,
    pub leave: Seq<char>,
    pub sticky: bool,
    pub eta: Seq<char>,
}

impl View for SimpleArrivalDisplayable {
    type V = EntryModel;

    open spec fn view(&self) -> EntryModel {
        EntryModel {
            sort_key: self.comparison_timestamp as int,
            no_sticky_key: self.comparison_timestamp_no_sticky as int,
            message: self.message@,
            line: self.line,
            color: self.line_color,
            leave: self.leave@,
            sticky: self.is_sticky,
            eta: self.arrival_time@,
        }
    }
}

impl DeepView for SimpleArrivalDisplayable {
    type V = EntryModel;

    open spec fn deep_view(&self) -> EntryModel {
        self.view()
    }
}

impl Clone for SimpleArrivalDisplayable {
    fn clone(&self) -> (r: Self)
        ensures
            r == *self,
    {
        SimpleArrivalDisplayable {
            comparison_timestamp: self.comparison_timestamp,
            comparison_timestamp_no_sticky: self.comparison_timestamp_no_sticky,
            message: self.message.clone(),
            line: self.line,
            line_color: self.line_color,
            leave: self.leave.clone(),
            is_sticky: self.is_sticky,
            arrival_time: self.arrival_time.clone(),
        }
    }
}

impl PartialEq for SimpleArrivalDisplayable {
    /// Two entries compare equal exactly when their sort keys are equal.
    fn eq(&self, other: &Self) -> (r: bool) {
        self.comparison_timestamp == other.comparison_timestamp
    }
}

impl vstd::std_specs::cmp::PartialEqSpecImpl for SimpleArrivalDisplayable {
    open spec fn obeys_eq_spec() -> bool {
        true
    }

    open spec fn eq_spec(&self, other: &Self) -> bool {
        self.comparison_timestamp == other.comparison_timestamp
    }
}

impl PartialOrd for SimpleArrivalDisplayable {
    /// Entries order by their sort keys: a total preorder.
    fn partial_cmp(&self, other: &Self) -> (r: Option<core::cmp::Ordering>) {
        if self.comparison_timestamp < other.comparison_timestamp {
            Some(core::cmp::Ordering::Less)
        } else if self.comparison_timestamp == other.comparison_timestamp {
            Some(core::cmp::Ordering::Equal)
        } else {
            Some(core::cmp::Ordering::Greater)
        }
    }
}

impl vstd::std_specs::cmp::PartialOrdSpecImpl for SimpleArrivalDisplayable {
    open spec fn obeys_partial_cmp_spec() -> bool {
        true
    }

    open spec fn partial_cmp_spec(&self, other: &Self) -> Option<core::cmp::Ordering> {
        if self.comparison_timestamp < other.comparison_timestamp {
            Some(core::cmp::Ordering::Less)
        } else if self.comparison_timestamp == other.comparison_timestamp {
            Some(core::cmp::Ordering::Equal)
        } else {
            Some(core::cmp::Ordering::Greater)
        }
    }
}

/// Truncating division (rounding toward zero), the rounding whole-minute
/// counts are read from millisecond spans with.
pub open spec fn spec_trunc_div(x: int, d: int) -> int {
    if x >= 0 {
        x / d
    } else {
        -((-x) / d)
    }
}

/// Truncating division of an `i128` by a positive divisor.
pub fn div_trunc(x: i128, d: i128) -> (r: i128)
    requires
        d > 0,
        x > i128::MIN,
    ensures
        r == spec_trunc_div(x as int, d as int),
{
    if x >= 0 {
        (((x as u128) / (d as u128)) as i128)
    } else {
        let m: u128 = (-x) as u128;
        let q: u128 = m / (d as u128);
        -(q as i128)
    }
}

/// The sort key of a train prediction: the projected arrival when the ETA
/// field is a minute count; one minute ago for "ARR"; two minutes ago for
/// "BRD"; a day in the future for anything else.
pub open spec fn spec_train_sort_key(min: Seq<char>, now: int) -> int {
    match spec_parse_i64(min) {
        Some(m) => now + 60000 * m,
        None => if min == "ARR"@ {
            now - 60000
        } else if min == "BRD"@ {
            now - 120000
        } else {
            now + 86400000
        },
    }
}

/// The leave-by label of a train prediction: minutes until fifteen minutes
/// before arrival, or a dash once that threshold has passed or the ETA is
/// not numeric.
pub open spec fn spec_train_leave(min: Seq<char>) -> Seq<char> {
    match spec_parse_i64(min) {
        Some(m) => if m > 15 {
            spec_idec(m - 15)
        } else {
            "- "@
        },
        None => "- "@,
    }
}

/// Destination names the API misreports for non-passenger trains are
/// canonicalized to one short label.
pub open spec fn spec_canon_destination(d: Seq<char>) -> Seq<char> {
    if d == "No Passenger"@ || d == "NoPssenger"@ || d == "ssenger"@ {
        "No Psngr"@
    } else {
        d
    }
}

/// The display entry a train prediction maps to at wall-clock time `now`.
pub open spec fn spec_train_entry(t: TrainModel, now: int) -> EntryModel {
    EntryModel {
        sort_key: spec_train_sort_key(t.min, now),
        no_sticky_key: spec_train_sort_key(t.min, now),
        message: spec_canon_destination(t.destination),
        line: spec_string_line(t.line),
        color: spec_line_color(spec_string_line(t.line)),
        leave: spec_train_leave(t.min),
        sticky: false,
        eta: t.min,
    }
}

/// The sort key of a custom message: epoch zero when sticky (pinned to the
/// top), its own timestamp otherwise.
pub open spec fn spec_msg_sort_key(m: MsgModel) -> int {
    if m.sticky {
        0
    } else {
        m.time
    }
}

/// The leave-by label of a custom message.
pub open spec fn spec_msg_leave(m: MsgModel, now: int) -> Seq<char> {
    if spec_msg_sort_key(m) - 900000 > now {
        spec_idec(spec_trunc_div(now - spec_msg_sort_key(m) - 900000, 60000))
    } else {
        "- "@
    }
}

/// The display entry a custom message maps to at wall-clock time `now`.
pub open spec fn spec_msg_entry(m: MsgModel, now: int) -> EntryModel {
    EntryModel {
        sort_key: spec_msg_sort_key(m),
        no_sticky_key: m.time,
        message: m.message,
        line: Line::TS,
        color: spec_line_color(Line::TS),
        leave: spec_msg_leave(m, now),
        sticky: m.sticky,
        eta: spec_idec(spec_trunc_div(m.time - now, 60000)),
    }
}

/// Normalize one train prediction into a display entry.
pub fn train_to_entry(t: &Train, now: i64) -> (e: SimpleArrivalDisplayable)
    ensures
        e@ == spec_train_entry(t@, now as int),
{
    let parsed = parse_i64(t.min.as_str());
    let key: i128 = match parsed {
        Some(m) => now as i128 + 60000 * (m as i128),
        None => {
            if str_eq(t.min.as_str(), "ARR") {
                now as i128 - 60000
            } else if str_eq(t.min.as_str(), "BRD") {
                now as i128 - 120000
            } else {
                now as i128 + 86400000
            }
        },
    };
    let leave: String = match parsed {
        Some(m) => {
            if m > 15 {
                i64_to_dec(m - 15)
            } else {
                String::from_str("- ")
            }
        },
        None => String::from_str("- "),
    };
    let message: String = if str_eq(t.destination.as_str(), "No Passenger")
        || str_eq(t.destination.as_str(), "NoPssenger")
        || str_eq(t.destination.as_str(), "ssenger") {
        String::from_str("No Psngr")
    } else {
        t.destination.clone()
    };
    let line = t.get_line_enum();
    let e = SimpleArrivalDisplayable {
        comparison_timestamp: key,
        comparison_timestamp_no_sticky: key,
        message,
        line,
        line_color: get_line_color(line),
        leave,
        is_sticky: false,
        arrival_time: t.min.clone(),
    };
    proof {
        assert(e@ =~= spec_train_entry(t@, now as int));
    }
    e
}

/// Normalize one custom message into a display entry.
pub fn message_to_entry(m: &ArrivalMessage, now: i64) -> (e: SimpleArrivalDisplayable)
    ensures
        e@ == spec_msg_entry(m@, now as int),
{
    let key: i128 = if m.sticky {
        0
    } else {
        m.time as i128
    };
    let leave: String = if key - 900000 > now as i128 {
        let mins = div_trunc(now as i128 - key - 900000, 60000);
        i64_to_dec(mins as i64)
    } else {
        String::from_str("- ")
    };
    let eta_mins = div_trunc(m.time as i128 - now as i128, 60000);
    let e = SimpleArrivalDisplayable {
        comparison_timestamp: key,
        comparison_timestamp_no_sticky: m.time as i128,
        message: m.message.clone(),
        line: Line::TS,
        line_color: get_line_color(Line::TS),
        leave,
        is_sticky: m.sticky,
        arrival_time: i64_to_dec(eta_mins as i64),
    };
    proof {
        assert(e@ =~= spec_msg_entry(m@, now as int));
    }
    e
}

/// The synthetic entry the board shows until the first successful fetch.
pub open spec fn spec_loading_entry(now: int) -> EntryModel {
    EntryModel {
        sort_key: now,
        no_sticky_key: now,
        message: "Loading..."@,
        line: Line::UNKNOWN,
        color: (Rgb { r: 50, g: 50, b: 50 }),
        leave: Seq::<char>::empty(),
        sticky: true,
        eta: Seq::<char>::empty(),
    }
}

impl SimpleArrivalDisplayable {
    /// The synthetic entry shown while the first fetch is still under way.
    pub fn loading(now: i64) -> (e: Self)
        ensures
            e@ == spec_loading_entry(now as int),
    {
        let e = SimpleArrivalDisplayable {
            comparison_timestamp: now as i128,
            comparison_timestamp_no_sticky: now as i128,
            message: String::from_str("Loading..."),
            line: Line::UNKNOWN,
            line_color: Rgb { r: 50, g: 50, b: 50 },
            leave: String::new(),
            is_sticky: true,
            arrival_time: String::new(),
        };
        proof {
            assert(e@ =~= spec_loading_entry(now as int));
        }
        e
    }

    /// The timestamp this entry sorts by.
    pub fn get_comparison_timestamp(&self) -> (r: i128)
        ensures
            r as int == self@.sort_key,
    {
        self.comparison_timestamp
    }

    /// The timestamp expiry is judged by, ignoring stickiness.
    pub fn get_comparison_timestamp_no_sticky(&self) -> (r: i128)
        ensures
            r as int == self@.no_sticky_key,
    {
        self.comparison_timestamp_no_sticky
    }

    /// The entry's display text.
    pub fn get_message(&self) -> (r: String)
        ensures
            r@ == self@.message,
    {
        self.message.clone()
    }

    /// The entry's line.
    pub fn get_line(&self) -> (r: Line)
        ensures
            r == self@.line,
    {
        self.line
    }

    /// The entry's line color.
    pub fn get_line_color(&self) -> (r: Rgb)
        ensures
            r == self@.color,
    {
        self.line_color
    }

    /// The leave-by label.
    pub fn get_leave(&self) -> (r: String)
        ensures
            r@ == self@.leave,
    {
        self.leave.clone()
    }

    /// Whether the entry is pinned to the top of the board.
    pub fn is_sticky(&self) -> (r: bool)
        ensures
            r == self@.sticky,
    {
        self.is_sticky
    }

    /// The ETA label.
    pub fn get_arrival_time(&self) -> (r: String)
        ensures
            r@ == self@.eta,
    {
        self.arrival_time.clone()
    }

    /// A one-line rendering of the entry: line code, a space, and the text.
    pub fn pretty_print(&self) -> (r: String)
        ensures
            r@ == spec_line_string(self@.line) + " "@ + self@.message,
    {
        let mut s = get_line_string(self.line);
        s.append(" ");
        s.append(self.message.as_str());
        s
    }
}

} // verus!
