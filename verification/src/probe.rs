//! Battery prober: the state machine of one battery query.
//!
//! The machine performs no I/O. In each state it names the one operation
//! that its driver has to carry out ([`action_of`]), and it takes the
//! result of that operation as an event ([`step`]). A query walks through
//! `Init`, `Locate`, `Open`, `Write` and `Read` to `Done`; whatever goes
//! wrong on the way ends it at once in `Done` with an unknown reading. A
//! query is never retried: the next one starts again at `Init`, with a
//! fresh handle.
use vstd::prelude::*;
use crate::descriptor::{rival650, AttachedDevice, PeripheralDescriptor};
use crate::locator::{has_match, locate, located};
use crate::reading::BatteryReading;

verus! {

/// Longest time, in milliseconds, that the read may block.
pub const READ_TIMEOUT_MS: i32 = 5000;

/// Number of bytes that the device answers with.
pub const RESPONSE_LENGTH: usize = 1;

/// The report that asks for the battery level: report id 0x00, then the
/// command bytes 0xAA 0x01.
pub open spec fn battery_query() -> Seq<u8> {
    seq![0x00u8, 0xAAu8, 0x01u8]
}

/// Where a query stands.
#[derive(Clone, Copy, Debug, PartialEq, Eq, Structural)]
pub enum ProbeState {
    /// The HID subsystem is being acquired.
    Init,
    /// The attached devices are being enumerated.
    Locate,
    /// The device at position `device` of the snapshot is being opened.
    Open { device: usize },
    /// The query report is being written.
    Write,
    /// The answer is being read.
    Read,
    /// The query is over.
    Done { reading: BatteryReading },
}

/// The operation that the driver carries out next.
#[derive(Clone, Copy, Debug, PartialEq, Eq)]
pub enum ProbeAction {
    /// Acquire a handle to the HID subsystem.
    AcquireSubsystem,
    /// Take a snapshot of the attached devices.
    Enumerate,
    /// Open an exclusive session to the device at `device` of the snapshot.
    OpenDevice { device: usize },
    /// Send `report` as one output report.
    Write { report: [u8; 3] },
    /// Read `length` bytes, giving up after `timeout_ms` milliseconds.
    Read { length: usize, timeout_ms: i32 },
    /// Release the handle and hand on `reading`.
    Finish { reading: BatteryReading },
}

/// What came of the operation.
#[derive(Clone, Debug, PartialEq, Eq)]
pub enum ProbeEvent {
    /// The HID subsystem is at hand.
    SubsystemReady,
    /// The snapshot of the attached devices, in enumeration order.
    Enumerated { devices: Vec<AttachedDevice> },
    /// The session is open.
    Opened,
    /// The report was sent.
    Written,
    /// The read returned in time; `data` holds the bytes that it delivered.
    ReadCompleted { data: Vec<u8> },
    /// The operation failed or timed out.
    Failed,
}

/// The state that follows `state` on `event`.
pub open spec fn next_state(state: ProbeState, event: ProbeEvent) -> ProbeState {
    match state {
        ProbeState::Init => match event {
            ProbeEvent::SubsystemReady => ProbeState::Locate,
            _ => ProbeState::Done { reading: BatteryReading::Unknown },
        },
        ProbeState::Locate => match event {
            ProbeEvent::Enumerated { devices } => match located(devices@, rival650()) {
                Some(i) => ProbeState::Open { device: i as usize },
                None => ProbeState::Done { reading: BatteryReading::Unknown },
            },
            _ => ProbeState::Done { reading: BatteryReading::Unknown },
        },
        ProbeState::Open { device } => match event {
            ProbeEvent::Opened => ProbeState::Write,
            _ => ProbeState::Done { reading: BatteryReading::Unknown },
        },
        ProbeState::Write => match event {
            ProbeEvent::Written => ProbeState::Read,
            _ => ProbeState::Done { reading: BatteryReading::Unknown },
        },
        ProbeState::Read => match event {
            ProbeEvent::ReadCompleted { data } => if data@.len() == RESPONSE_LENGTH {
                ProbeState::Done { reading: BatteryReading::Percent(data@[0]) }
            } else {
                ProbeState::Done { reading: BatteryReading::Unknown }
            },
            _ => ProbeState::Done { reading: BatteryReading::Unknown },
        },
        ProbeState::Done { reading } => ProbeState::Done { reading },
    }
}

/// `action` is the operation that belongs to `state`.
pub open spec fn is_action_of(state: ProbeState, action: ProbeAction) -> bool {
    match state {
        ProbeState::Init => action == ProbeAction::AcquireSubsystem,
        ProbeState::Locate => action == ProbeAction::Enumerate,
        ProbeState::Open { device } => action == (ProbeAction::OpenDevice { device }),
        ProbeState::Write => action matches ProbeAction::Write { report } && report@
            == battery_query(),
        ProbeState::Read => action == (ProbeAction::Read {
            length: RESPONSE_LENGTH,
            timeout_ms: READ_TIMEOUT_MS,
        }),
        ProbeState::Done { reading } => action == (ProbeAction::Finish { reading }),
    }
}

/// The state in which every query begins.
pub fn start() -> (state: ProbeState)
    ensures
        state == ProbeState::Init,
{
    ProbeState::Init
}

/// The operation to carry out in `state`.
pub fn action_of(state: ProbeState) -> (action: ProbeAction)
    ensures
        is_action_of(state, action),
{
    match state {
        ProbeState::Init => ProbeAction::AcquireSubsystem,
        ProbeState::Locate => ProbeAction::Enumerate,
        ProbeState::Open { device } => ProbeAction::OpenDevice { device },
        ProbeState::Write => {
            let report: [u8; 3] = [0x00, 0xAA, 0x01];
            ProbeAction::Write { report }
        },
        ProbeState::Read => ProbeAction::Read {
            length: RESPONSE_LENGTH,
            timeout_ms: READ_TIMEOUT_MS,
        },
        ProbeState::Done { reading } => ProbeAction::Finish { reading },
    }
}

/// Moves the query on: the state that follows `state` once `event` has
/// come back from the operation of `state`. An event that does not answer
/// that operation counts as a failure. `Done` is final.
pub fn step(state: ProbeState, event: &ProbeEvent) -> (next: ProbeState)
    ensures
        next == next_state(state, *event),
{
    let unknown = ProbeState::Done { reading: BatteryReading::Unknown };
    match state {
        ProbeState::Init => match event {
            ProbeEvent::SubsystemReady => ProbeState::Locate,
            _ => unknown,
        },
        ProbeState::Locate => match event {
            ProbeEvent::Enumerated { devices } => {
                let target = PeripheralDescriptor::rival650();
                match locate(devices.as_slice(), &target) {
                    Some(i) => ProbeState::Open { device: i },
                    None => unknown,
                }
            },
            _ => unknown,
        },
        ProbeState::Open { device } => match event {
            ProbeEvent::Opened => ProbeState::Write,
            _ => unknown,
        },
        ProbeState::Write => match event {
            ProbeEvent::Written => ProbeState::Read,
            _ => unknown,
        },
        ProbeState::Read => match event {
            ProbeEvent::ReadCompleted { data } => if data.len() == RESPONSE_LENGTH {
                ProbeState::Done { reading: BatteryReading::Percent(data[0]) }
            } else {
                unknown
            },
            _ => unknown,
        },
        ProbeState::Done { reading } => ProbeState::Done { reading },
    }
}

/// One turn of the driver's loop: the state that follows on `event`,
/// together with the operation to carry out there.
pub fn advance(state: ProbeState, event: &ProbeEvent) -> (turn: (ProbeState, ProbeAction))
    ensures
        turn.0 == next_state(state, *event),
        is_action_of(turn.0, turn.1),
{
    let next = step(state, event);
    (next, action_of(next))
}

/// The reading of a query: that of `Done`; a query that is still under way
/// has none.
pub open spec fn reading_of(state: ProbeState) -> BatteryReading {
    match state {
        ProbeState::Done { reading } => reading,
        _ => BatteryReading::Unknown,
    }
}

/// The reading that `state` holds: `Some` once the query is over.
pub fn outcome(state: ProbeState) -> (r: Option<BatteryReading>)
    ensures
        r is Some <==> state is Done,
        r is Some ==> r.unwrap() == reading_of(state),
{
    match state {
        ProbeState::Done { reading } => Some(reading),
        _ => None,
    }
}

/// The state reached from `state` once the events of `events` have come
/// in, in their order.
pub open spec fn run(state: ProbeState, events: Seq<ProbeEvent>) -> ProbeState
    decreases events.len(),
{
    if events.len() == 0 {
        state
    } else {
        run(next_state(state, events[0]), events.drop_first())
    }
}

/// Number of operations that a query in `state` has at most before it.
pub open spec fn steps_left(state: ProbeState) -> nat {
    match state {
        ProbeState::Init => 5,
        ProbeState::Locate => 4,
        ProbeState::Open { device } => 3,
        ProbeState::Write => 2,
        ProbeState::Read => 1,
        ProbeState::Done { reading } => 0,
    }
}

/// The device did not answer: the read failed, timed out, or delivered
/// another number of bytes than the one asked for.
pub open spec fn is_silent(event: ProbeEvent) -> bool {
    event matches ProbeEvent::ReadCompleted { data } ==> data@.len() != RESPONSE_LENGTH
}

/// The readings of a series of queries, each started afresh and given by
/// the events that its operations led to.
pub open spec fn readings(queries: Seq<Seq<ProbeEvent>>) -> Seq<BatteryReading> {
    Seq::new(queries.len(), |i: int| reading_of(run(ProbeState::Init, queries[i])))
}

/// Every event brings a running query nearer to its end, and leaves a
/// finished one as it is.
pub proof fn law_step_progress(state: ProbeState, event: ProbeEvent)
    ensures
        !(state is Done) ==> steps_left(next_state(state, event)) < steps_left(state),
        state is Done ==> next_state(state, event) == state,
{
}

/// Nothing that happens after the end of a query changes its reading.
pub proof fn law_done_is_final(state: ProbeState, events: Seq<ProbeEvent>)
    requires
        state is Done,
    ensures
        run(state, events) == state,
    decreases events.len(),
{
    if events.len() > 0 {
        law_done_is_final(state, events.drop_first());
    }
}

/// A query is over after as many events as it has steps left: after five,
/// wherever it started. It never goes back to an earlier step.
pub proof fn law_probe_finishes(state: ProbeState, events: Seq<ProbeEvent>)
    requires
        events.len() >= steps_left(state),
    ensures
        run(state, events) is Done,
        steps_left(state) <= 5,
    decreases events.len(),
{
    if events.len() == 0 {
    } else {
        law_step_progress(state, events[0]);
        law_probe_finishes(next_state(state, events[0]), events.drop_first());
    }
}

/// The only read that a query asks for is one of a single byte that gives
/// up after five seconds; none blocks without bound.
pub proof fn law_read_is_bounded(state: ProbeState, action: ProbeAction)
    requires
        is_action_of(state, action),
        action is Read,
    ensures
        state is Read,
        action == (ProbeAction::Read { length: 1, timeout_ms: 5000 }),
{
}

/// A query yields the level `n` exactly when all five operations went
/// well: the subsystem was acquired, the snapshot held the peripheral, the
/// session opened, the report was written, and the read delivered the
/// single byte `n`. Every other course of events yields an unknown reading.
pub proof fn law_reading_known_iff_exchange_complete(events: Seq<ProbeEvent>, n: u8)
    ensures
        reading_of(run(ProbeState::Init, events)) == BatteryReading::Percent(n) <==> {
            &&& events.len() >= 5
            &&& events[0] is SubsystemReady
            &&& events[1] matches ProbeEvent::Enumerated { devices }
            &&& located(devices@, rival650()) is Some
            &&& events[2] is Opened
            &&& events[3] is Written
            &&& events[4] matches ProbeEvent::ReadCompleted { data }
            &&& data@ == seq![n]
        },
{
    lemma_run_unfold(ProbeState::Init, events);
    if events.len() >= 1 {
        let s1 = next_state(ProbeState::Init, events[0]);
        let e1 = events.drop_first();
        lemma_run_unfold(s1, e1);
        if s1 is Done {
            law_done_is_final(s1, e1);
        } else if e1.len() >= 1 {
            let s2 = next_state(s1, e1[0]);
            let e2 = e1.drop_first();
            lemma_run_unfold(s2, e2);
            if s2 is Done {
                law_done_is_final(s2, e2);
            } else if e2.len() >= 1 {
                let s3 = next_state(s2, e2[0]);
                let e3 = e2.drop_first();
                lemma_run_unfold(s3, e3);
                if s3 is Done {
                    law_done_is_final(s3, e3);
                } else if e3.len() >= 1 {
                    let s4 = next_state(s3, e3[0]);
                    let e4 = e3.drop_first();
                    lemma_run_unfold(s4, e4);
                    if s4 is Done {
                        law_done_is_final(s4, e4);
                    } else if e4.len() >= 1 {
                        let s5 = next_state(s4, e4[0]);
                        let e5 = e4.drop_first();
                        law_done_is_final(s5, e5);
                        if let ProbeEvent::ReadCompleted { data } = events[4] {
                            if data@.len() == 1 {
                                assert(data@ =~= seq![data@[0]]);
                            }
                        }
                    }
                }
            }
        }
    }
}

proof fn lemma_run_unfold(state: ProbeState, events: Seq<ProbeEvent>)
    ensures
        events.len() == 0 ==> run(state, events) == state,
        events.len() > 0 ==> run(state, events) == run(
            next_state(state, events[0]),
            events.drop_first(),
        ),
{
}

/// Where the snapshot holds neither variant of the peripheral, the query
/// ends with an unknown reading, whatever else happens.
pub proof fn law_absent_device_is_unknown(events: Seq<ProbeEvent>, devices: Vec<AttachedDevice>)
    requires
        events.len() >= 2,
        events[1] == (ProbeEvent::Enumerated { devices }),
        !has_match(devices@, rival650().wired),
        !has_match(devices@, rival650().wireless),
    ensures
        run(ProbeState::Init, events) == (ProbeState::Done { reading: BatteryReading::Unknown }),
{
    lemma_run_unfold(ProbeState::Init, events);
    let s1 = next_state(ProbeState::Init, events[0]);
    let e1 = events.drop_first();
    lemma_run_unfold(s1, e1);
    if s1 is Done {
        law_done_is_final(s1, e1);
    } else {
        law_done_is_final(next_state(s1, e1[0]), e1.drop_first());
    }
}

/// A device that does not answer the read yields an unknown reading.
pub proof fn law_silent_device_is_unknown(events: Seq<ProbeEvent>)
    requires
        events.len() >= 5,
        is_silent(events[4]),
    ensures
        run(ProbeState::Init, events) == (ProbeState::Done { reading: BatteryReading::Unknown }),
{
    law_probe_finishes(ProbeState::Init, events);
    let r = reading_of(run(ProbeState::Init, events));
    if let BatteryReading::Percent(n) = r {
        law_reading_known_iff_exchange_complete(events, n);
    }
}

/// Queries against a device that never answers yield the unknown reading
/// every time, however often they are repeated.
pub proof fn law_repeated_silence_is_unknown(queries: Seq<Seq<ProbeEvent>>)
    requires
        forall|i: int|
            0 <= i < queries.len() ==> (#[trigger] queries[i]).len() >= 5 && is_silent(
                queries[i][4],
            ),
    ensures
        readings(queries).len() == queries.len(),
        forall|i: int|
            0 <= i < queries.len() ==> #[trigger] readings(queries)[i] == BatteryReading::Unknown,
{
    assert forall|i: int| 0 <= i < queries.len() implies #[trigger] readings(queries)[i]
        == BatteryReading::Unknown by {
        law_silent_device_is_unknown(queries[i]);
    }
}

} // verus!
