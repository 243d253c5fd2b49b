//! One poll of the attached headsets: which device is asked, and what is
//! reported once it has answered or kept silent.
//!
//! The library does no device access of its own. A query is a small machine:
//! `Query::step` takes what the program around it has learned from the HID
//! layer and says what to do next.

use crate::known_devices::{
    find_device, lookup, Device, REPORT_BUFFER_SIZE, REQUEST_BUFFER_SIZE,
};
use crate::scaling::{clamp_to, PERCENT_MAX};
use vstd::prelude::*;

verus! {

/// Longest wait for a headset's reply, in milliseconds.
pub const READ_TIMEOUT_MS: i32 = 100;

/// Label of the result when the HID layer cannot be opened.
pub const LABEL_ERROR: &'static str = "error";

/// Label of the result when no known headset has answered.
pub const LABEL_NOT_FOUND: &'static str = "no device found";

/// A device as the HID layer lists it.
#[derive(Clone, Copy, Debug, PartialEq, Eq, Structural)]
pub struct Attached {
    pub vendor_id: u16,
    pub product_id: u16,
}

/// What came of asking one device for its battery level.
#[derive(Clone, Copy, Debug, PartialEq, Eq)]
pub enum Reply {
    /// The device could not be opened, or reading from it failed.
    Silent,
    /// The read ended with the first `len` bytes of `data` filled. A read
    /// that ran into the timeout has filled none.
    Frame { len: usize, data: [u8; REPORT_BUFFER_SIZE] },
}

/// What a poll reports: a battery level in percent and a label, which is the
/// headset's name where a headset has answered.
#[derive(Clone, Copy, Debug, PartialEq, Eq)]
pub struct QueryResult {
    pub percent: u8,
    pub label: &'static str,
}

/// The result when the HID layer cannot be opened.
pub open spec fn error_result() -> QueryResult {
    QueryResult { percent: 0, label: LABEL_ERROR }
}

/// The result when no known headset has answered.
pub open spec fn not_found_result() -> QueryResult {
    QueryResult { percent: 0, label: LABEL_NOT_FOUND }
}

/// The headset model that the attached device `attached` is, if it is one that
/// the library knows.
pub open spec fn model_of(attached: Attached) -> Option<Device<'static>> {
    lookup(attached.vendor_id, attached.product_id)
}

/// What the reply `reply` of a headset of model `device` amounts to: the
/// decoded level, cut off at `PERCENT_MAX`, under the model's name; or nothing
/// where the reply does not reach the battery byte.
pub open spec fn decode_spec(device: Device<'static>, reply: Reply) -> Option<QueryResult> {
    match reply {
        Reply::Silent => None,
        Reply::Frame { len, data } => if len > device.idx_battery {
            Some(
                QueryResult {
                    percent: clamp_to(device.battery_percent_spec(data@), 0, PERCENT_MAX as int) as u8,
                    label: device.name,
                },
            )
        } else {
            None
        },
    }
}

/// Decodes the reply of a headset of model `device`.
pub fn decode(device: &Device<'static>, reply: &Reply) -> (result: Option<QueryResult>)
    requires
        device.well_formed(),
    ensures
        result == decode_spec(*device, *reply),
        result matches Some(found) ==> found.percent <= PERCENT_MAX,
{
    match reply {
        Reply::Silent => None,
        Reply::Frame { len, data } => {
            if *len > device.idx_battery as usize {
                let level = device.read_battery_percent(data);
                let percent = if level > PERCENT_MAX {
                    PERCENT_MAX
                } else {
                    level
                };
                Some(QueryResult { percent, label: device.name })
            } else {
                None
            }
        },
    }
}

/// A query as the contracts see it.
pub enum QueryView {
    /// Nothing is known yet: the HID layer is to be opened and its devices
    /// listed.
    Opening,
    /// The device number `index` of the list `devices` has been asked, and its
    /// reply is awaited. The devices before it are done with.
    Asking { devices: Seq<Attached>, index: int },
    /// The query is over, with this result.
    Finished { result: QueryResult },
}

impl QueryView {
    /// The device that is being asked is one of the list and a known model;
    /// the level of a result is no more than `PERCENT_MAX`.
    pub open spec fn well_formed(self) -> bool {
        match self {
            QueryView::Opening => true,
            QueryView::Asking { devices, index } => {
                &&& 0 <= index < devices.len() <= usize::MAX
                &&& model_of(devices[index]) is Some
            },
            QueryView::Finished { result } => result.percent <= PERCENT_MAX,
        }
    }
}

/// What the program around the library has learned from the HID layer.
#[derive(Debug, PartialEq, Eq)]
pub enum QueryEvent {
    /// The HID layer could not be opened.
    Unavailable,
    /// The HID layer lists these devices, in this order.
    Listed(Vec<Attached>),
    /// This came of asking the device named in the last `QueryAction::Ask`.
    Replied(Reply),
}

/// What the program around the library is to do next.
#[derive(Clone, Copy, Debug, PartialEq, Eq)]
pub enum QueryAction {
    /// Open the HID layer and list the attached devices; answer with
    /// `QueryEvent::Unavailable` or `QueryEvent::Listed`.
    List,
    /// Open the device number `index` of the list, write the frame `request`
    /// to it and read the reply, waiting no longer than `timeout_ms`
    /// milliseconds; answer with `QueryEvent::Replied`.
    Ask { index: usize, request: [u8; REQUEST_BUFFER_SIZE], timeout_ms: i32 },
    /// Show this result; the query is over.
    Report(QueryResult),
}

/// An action as the contracts see it.
pub enum ActionView {
    List,
    Ask { index: int, request: Seq<u8>, timeout_ms: int },
    Report(QueryResult),
}

impl View for QueryAction {
    type V = ActionView;

    open spec fn view(&self) -> ActionView {
        match *self {
            QueryAction::List => ActionView::List,
            QueryAction::Ask { index, request, timeout_ms } => ActionView::Ask {
                index: index as int,
                request: request@,
                timeout_ms: timeout_ms as int,
            },
            QueryAction::Report(result) => ActionView::Report(result),
        }
    }
}

/// The action that asks the device number `index`, a headset of model
/// `device`: the model's request frame, and the longest wait for the reply.
pub open spec fn ask(index: int, device: Device<'static>) -> ActionView {
    ActionView::Ask {
        index,
        request: device.request_spec(),
        timeout_ms: READ_TIMEOUT_MS as int,
    }
}

/// The first device of `devices` at or after the position `from` that is a
/// known model; the length of `devices` if there is none.
pub open spec fn next_known(devices: Seq<Attached>, from: int) -> int
    decreases devices.len() - from,
{
    if from < 0 || from >= devices.len() {
        devices.len() as int
    } else if model_of(devices[from]) is Some {
        from
    } else {
        next_known(devices, from + 1)
    }
}

/// State and action once the devices before the position `from` are done
/// with: the next known model is asked, and without one the query ends.
pub open spec fn resume_spec(devices: Seq<Attached>, from: int) -> (QueryView, ActionView) {
    let index = next_known(devices, from);
    if index < devices.len() {
        (QueryView::Asking { devices, index }, ask(index, model_of(devices[index]).unwrap()))
    } else {
        (
            QueryView::Finished { result: not_found_result() },
            ActionView::Report(not_found_result()),
        )
    }
}

/// The action that a query in the state `view` is waiting for.
pub open spec fn pending(view: QueryView) -> ActionView {
    match view {
        QueryView::Opening => ActionView::List,
        QueryView::Asking { devices, index } => ask(index, model_of(devices[index]).unwrap()),
        QueryView::Finished { result } => ActionView::Report(result),
    }
}

/// The machine's one rule: next state and action for a state and an event.
///
/// An event that the state does not wait for changes nothing, and the pending
/// action is given again.
pub open spec fn step_spec(view: QueryView, event: QueryEvent) -> (QueryView, ActionView) {
    match view {
        QueryView::Opening => match event {
            QueryEvent::Unavailable => (
                QueryView::Finished { result: error_result() },
                ActionView::Report(error_result()),
            ),
            QueryEvent::Listed(devices) => resume_spec(devices@, 0),
            QueryEvent::Replied(_) => (view, pending(view)),
        },
        QueryView::Asking { devices, index } => match event {
            QueryEvent::Replied(reply) => match decode_spec(
                model_of(devices[index]).unwrap(),
                reply,
            ) {
                Some(result) => (QueryView::Finished { result }, ActionView::Report(result)),
                None => resume_spec(devices, index + 1),
            },
            _ => (view, pending(view)),
        },
        QueryView::Finished { result } => (view, pending(view)),
    }
}

/// `next_known` stays inside the list and lands on a known model.
pub proof fn lemma_next_known(devices: Seq<Attached>, from: int)
    requires
        0 <= from,
    ensures
        next_known(devices, from) <= devices.len(),
        from <= devices.len() ==> from <= next_known(devices, from),
        next_known(devices, from) < devices.len() ==> model_of(
            devices[next_known(devices, from)],
        ) is Some,
        forall|i: int| from <= i < next_known(devices, from) ==> model_of(devices[i]) is None,
    decreases devices.len() - from,
{
    if from < devices.len() && model_of(devices[from]) is None {
        lemma_next_known(devices, from + 1);
    }
}

/// A reply never sends the machine back: the query is over, or a device
/// further down the same list is asked.
pub proof fn lemma_reply_moves_on(devices: Seq<Attached>, index: int, reply: Reply)
    requires
        (QueryView::Asking { devices, index }).well_formed(),
    ensures
        match step_spec(QueryView::Asking { devices, index }, QueryEvent::Replied(reply)).0 {
            QueryView::Opening => false,
            QueryView::Asking { devices: listed, index: asked } => {
                &&& listed == devices
                &&& index < asked < devices.len()
                &&& model_of(devices[asked]) is Some
            },
            QueryView::Finished { result } => result.percent <= PERCENT_MAX,
        },
{
    lemma_next_known(devices, index + 1);
}

enum Phase {
    Opening,
    Asking { devices: Vec<Attached>, index: usize, device: Device<'static> },
    Finished(QueryResult),
}

/// One poll in progress.
pub struct Query {
    phase: Phase,
}

impl View for Query {
    type V = QueryView;

    closed spec fn view(&self) -> QueryView {
        match self.phase {
            Phase::Opening => QueryView::Opening,
            Phase::Asking { devices, index, device } => QueryView::Asking {
                devices: devices@,
                index: index as int,
            },
            Phase::Finished(result) => QueryView::Finished { result },
        }
    }
}

impl Query {
    #[verifier::type_invariant]
    spec fn inv(self) -> bool {
        match self.phase {
            Phase::Opening => true,
            Phase::Asking { devices, index, device } => {
                &&& index < devices@.len() <= usize::MAX
                &&& model_of(devices@[index as int]) == Some(device)
                &&& device.well_formed()
            },
            Phase::Finished(result) => result.percent <= PERCENT_MAX,
        }
    }

    /// A query that has not begun: its first action is `QueryAction::List`.
    pub fn new() -> (query: Query)
        ensures
            query@ == QueryView::Opening,
    {
        Query { phase: Phase::Opening }
    }

    /// Looks for the next known model among `devices` from the position
    /// `from` on.
    fn resume(devices: Vec<Attached>, from: usize) -> (next: (Query, QueryAction))
        requires
            from <= devices@.len(),
        ensures
            (next.0@, next.1@) == resume_spec(devices@, from as int),
            next.0@.well_formed(),
    {
        let mut index: usize = from;
        while index < devices.len()
            invariant
                from <= index <= devices@.len(),
                next_known(devices@, from as int) == next_known(devices@, index as int),
            decreases devices@.len() - index,
        {
            let attached = devices[index];
            match find_device(attached.vendor_id, attached.product_id) {
                Some(device) => {
                    let request = device.generate_request();
                    return (
                        Query { phase: Phase::Asking { devices, index, device } },
                        QueryAction::Ask { index, request, timeout_ms: READ_TIMEOUT_MS },
                    );
                },
                None => {
                    index += 1;
                },
            }
        }
        let result = QueryResult { percent: 0, label: LABEL_NOT_FOUND };
        (Query { phase: Phase::Finished(result) }, QueryAction::Report(result))
    }

    /// Takes the event `event` and says what to do next.
    pub fn step(self, event: QueryEvent) -> (next: (Query, QueryAction))
        ensures
            (next.0@, next.1@) == step_spec(self@, event),
            self@.well_formed(),
            next.0@.well_formed(),
            next.1 matches QueryAction::Report(result) ==> result.percent <= PERCENT_MAX,
    {
        proof {
            use_type_invariant(&self);
        }
        match self.phase {
            Phase::Opening => match event {
                QueryEvent::Unavailable => {
                    let result = QueryResult { percent: 0, label: LABEL_ERROR };
                    (Query { phase: Phase::Finished(result) }, QueryAction::Report(result))
                },
                QueryEvent::Listed(devices) => Query::resume(devices, 0),
                QueryEvent::Replied(_) => (Query { phase: Phase::Opening }, QueryAction::List),
            },
            Phase::Asking { devices, index, device } => match event {
                QueryEvent::Replied(reply) => match decode(&device, &reply) {
                    Some(result) => (
                        Query { phase: Phase::Finished(result) },
                        QueryAction::Report(result),
                    ),
                    None => Query::resume(devices, index + 1),
                },
                _ => {
                    let request = device.generate_request();
                    (
                        Query { phase: Phase::Asking { devices, index, device } },
                        QueryAction::Ask { index, request, timeout_ms: READ_TIMEOUT_MS },
                    )
                },
            },
            Phase::Finished(result) => (
                Query { phase: Phase::Finished(result) },
                QueryAction::Report(result),
            ),
        }
    }
}

/// A device on a recorded HID bus: what it is listed as, and what comes of
/// asking it.
#[derive(Clone, Copy, Debug, PartialEq, Eq)]
pub struct BusDevice {
    pub attached: Attached,
    pub reply: Reply,
}

/// The devices of the bus `bus` as the HID layer lists them.
pub open spec fn listing(bus: Seq<BusDevice>) -> Seq<Attached> {
    bus.map_values(|device: BusDevice| device.attached)
}

/// The device number `index` of the bus is a known model, and its reply
/// reaches the battery byte.
pub open spec fn answers(bus: Seq<BusDevice>, index: int) -> bool {
    &&& 0 <= index < bus.len()
    &&& model_of(bus[index].attached) matches Some(device)
    &&& decode_spec(device, bus[index].reply) is Some
}

/// What the device number `index` of the bus reports, where it answers.
pub open spec fn answer(bus: Seq<BusDevice>, index: int) -> QueryResult {
    decode_spec(model_of(bus[index].attached).unwrap(), bus[index].reply).unwrap()
}

/// The result of a poll of which the devices before the position `from` are
/// done with: that of the first device that answers, and without one the
/// result that no headset was found.
pub open spec fn outcome_from(bus: Seq<BusDevice>, from: int) -> QueryResult
    decreases bus.len() - from,
{
    if from < 0 || from >= bus.len() {
        not_found_result()
    } else if answers(bus, from) {
        answer(bus, from)
    } else {
        outcome_from(bus, from + 1)
    }
}

/// The result of a poll: `bus` holds the attached devices, or nothing where
/// the HID layer cannot be opened.
pub open spec fn read_battery_spec(bus: Option<Seq<BusDevice>>) -> QueryResult {
    match bus {
        None => error_result(),
        Some(devices) => outcome_from(devices, 0),
    }
}

/// The first device that answers decides the result.
pub proof fn lemma_first_answer_wins(bus: Seq<BusDevice>, from: int, index: int)
    requires
        0 <= from <= index,
        answers(bus, index),
        forall|i: int| from <= i < index ==> !answers(bus, i),
    ensures
        outcome_from(bus, from) == answer(bus, index),
    decreases index - from,
{
    if from < index {
        lemma_first_answer_wins(bus, from + 1, index);
    }
}

/// Where no device answers, no headset is found.
pub proof fn lemma_no_answer_not_found(bus: Seq<BusDevice>, from: int)
    requires
        forall|i: int| from <= i < bus.len() ==> !answers(bus, i),
    ensures
        outcome_from(bus, from) == not_found_result(),
    decreases bus.len() - from,
{
    if 0 <= from < bus.len() {
        lemma_no_answer_not_found(bus, from + 1);
    }
}

/// A bus that holds no known model gives the result that no headset was
/// found.
pub proof fn lemma_unrelated_devices_not_found(bus: Seq<BusDevice>)
    requires
        forall|i: int| 0 <= i < bus.len() ==> model_of(bus[i].attached) is None,
    ensures
        read_battery_spec(Some(bus)) == not_found_result(),
{
    lemma_no_answer_not_found(bus, 0);
}

/// The reply of a device whose read ran into the timeout, or that could not
/// be read at all.
pub open spec fn timed_out(reply: Reply) -> bool {
    match reply {
        Reply::Silent => true,
        Reply::Frame { len, data } => len == 0,
    }
}

/// A poll in which the one known model on the bus runs into the timeout ends
/// as the poll of the same bus without that device does: no headset is found.
pub proof fn lemma_timeout_like_no_match(bus: Seq<BusDevice>, index: int)
    requires
        0 <= index < bus.len(),
        timed_out(bus[index].reply),
        forall|i: int| 0 <= i < bus.len() && i != index ==> model_of(bus[i].attached) is None,
    ensures
        read_battery_spec(Some(bus)) == not_found_result(),
        read_battery_spec(Some(bus.remove(index))) == not_found_result(),
{
    lemma_no_answer_not_found(bus, 0);
    lemma_unrelated_devices_not_found(bus.remove(index));
}

/// Whatever the devices send, the level reported is no more than
/// `PERCENT_MAX`.
pub proof fn lemma_outcome_in_range(bus: Seq<BusDevice>, from: int)
    ensures
        outcome_from(bus, from).percent <= PERCENT_MAX,
    decreases bus.len() - from,
{
    if 0 <= from < bus.len() && !answers(bus, from) {
        lemma_outcome_in_range(bus, from + 1);
    }
}

/// Devices that are no known model make no difference to the result.
proof fn lemma_outcome_skips_unknown(bus: Seq<BusDevice>, from: int)
    requires
        0 <= from,
    ensures
        outcome_from(bus, from) == outcome_from(bus, next_known(listing(bus), from)),
    decreases bus.len() - from,
{
    if from < bus.len() && model_of(listing(bus)[from]) is None {
        lemma_outcome_skips_unknown(bus, from + 1);
    }
}

/// The devices of `bus` as the HID layer lists them.
fn list_devices(bus: &[BusDevice]) -> (devices: Vec<Attached>)
    ensures
        devices@ == listing(bus@),
{
    let mut devices: Vec<Attached> = Vec::new();
    let mut index: usize = 0;
    while index < bus.len()
        invariant
            index <= bus@.len(),
            devices@ == listing(bus@).take(index as int),
        decreases bus@.len() - index,
    {
        devices.push(bus[index].attached);
        index += 1;
        assert(devices@ =~= listing(bus@).take(index as int));
    }
    assert(listing(bus@).take(bus@.len() as int) =~= listing(bus@));
    devices
}

/// Runs one poll against the recorded bus `bus`, which holds the attached
/// devices in the order in which the HID layer lists them, each with what
/// comes of asking it; `None` stands for a HID layer that cannot be opened.
///
/// The devices are taken through `Query::step` one by one, so the result is
/// what a program that follows the machine's actions gets from devices that
/// behave as recorded.
pub fn read_battery(bus: Option<&[BusDevice]>) -> (result: QueryResult)
    ensures
        result == read_battery_spec(
            match bus {
                Some(devices) => Some(devices@),
                None => None,
            },
        ),
        result.percent <= PERCENT_MAX,
{
    match bus {
        None => {
            let next = Query::new().step(QueryEvent::Unavailable);
            match next.1 {
                QueryAction::Report(result) => result,
                _ => unreached(),
            }
        },
        Some(devices) => {
            let first = Query::new().step(QueryEvent::Listed(list_devices(devices)));
            let mut query = first.0;
            let mut action = first.1;
            proof {
                lemma_next_known(listing(devices@), 0);
                lemma_outcome_skips_unknown(devices@, 0);
                lemma_outcome_in_range(devices@, 0);
            }
            loop
                invariant
                    bus == Some(devices),
                    query@.well_formed(),
                    action@ == pending(query@),
                    outcome_from(devices@, 0).percent <= PERCENT_MAX,
                    match query@ {
                        QueryView::Opening => false,
                        QueryView::Asking { devices: listed, index } => {
                            &&& listed == listing(devices@)
                            &&& outcome_from(devices@, 0) == outcome_from(devices@, index)
                        },
                        QueryView::Finished { result } => result == outcome_from(devices@, 0),
                    },
                decreases
                    match query@ {
                        QueryView::Opening => 0,
                        QueryView::Asking { devices: listed, index } => listed.len() - index + 1,
                        QueryView::Finished { result } => 0,
                    },
            {
                match action {
                    QueryAction::Report(result) => {
                        return result;
                    },
                    QueryAction::Ask { index, request, timeout_ms } => {
                        proof {
                            lemma_next_known(listing(devices@), index + 1);
                            lemma_outcome_skips_unknown(devices@, index + 1);
                        }
                        let next = query.step(QueryEvent::Replied(devices[index].reply));
                        query = next.0;
                        action = next.1;
                    },
                    QueryAction::List => {
                        return unreached();
                    },
                }
            }
        },
    }
}

} // verus!
