//! The aggregation as a state machine, in its mathematical form.
//!
//! A run passes through the token exchange, the catalog call and the list
//! call, one after the other, and then fetches the detail of every device,
//! a bounded number at a time. Each answer to a detail call is filed under
//! the position of its device in the list, so the report can be read off the
//! positions whatever the order of the answers. A device whose detail cannot
//! be had is left out of the report; every other failure ends the run.
//!
//! The state holds the values as the driver handed them in.

use vstd::prelude::*;
use crate::client::{detail_outcome, listing_outcome, token_outcome, Reply};
use crate::model::{record_of, text_of, DeviceDetail, DeviceRecordView, ReportError};
use crate::version::latest_of;

verus! {

/// The largest number of detail calls that may be under way at once.
pub const MAX_IN_FLIGHT: usize = 5;

/// What is known of the device at one position of the list.
#[derive(Clone, Debug, PartialEq, Eq)]
pub enum Slot {
    /// Its detail has not been asked for yet.
    Waiting,
    /// Its detail has been asked for and the answer is due.
    InFlight,
    /// Its detail has arrived.
    Fetched(DeviceDetail),
    /// Its detail could not be had; the device is left out.
    Skipped(ReportError),
}

/// How far a run has come.
#[derive(Clone, Debug, PartialEq, Eq)]
pub enum Stage {
    Start,
    AwaitingToken,
    TokenHeld(String),
    AwaitingCatalog,
    BaselineKnown,
    AwaitingIds,
    Fetching,
    Failed(ReportError),
}

/// What the driver is to do next.
#[derive(Clone, Debug, PartialEq, Eq)]
pub enum Action {
    /// Exchange the credentials for a token.
    RequestToken,
    /// Fetch the update catalog with this token.
    RequestCatalog { token: String },
    /// Fetch the list of device identifiers.
    RequestDeviceIds,
    /// Fetch the detail of the device at `position`, whose identifier is `id`.
    RequestDetail { position: usize, id: u64 },
    /// Start nothing; hand back the next answer that arrives.
    Wait,
    /// The run is over; take the outcome.
    Finish,
}

/// The state of a run, as contracts speak of it.
pub struct PipelineState {
    pub stage: Stage,
    /// The baseline version, once the catalog is known and not empty.
    pub latest: Option<String>,
    /// The identifiers in the order of the backend's list.
    pub ids: Seq<u64>,
    /// One slot per identifier, at the identifier's position.
    pub slots: Seq<Slot>,
    /// The number of positions whose detail has been asked for.
    pub issued: nat,
}

/// The number of detail calls that are under way.
pub open spec fn outstanding(slots: Seq<Slot>) -> nat
    decreases slots.len(),
{
    if slots.len() == 0 {
        0
    } else {
        outstanding(slots.drop_last()) + if slots.last() is InFlight {
            1nat
        } else {
            0nat
        }
    }
}

/// The report that a row of slots yields: the records of the devices whose
/// detail has arrived, in the order of their positions.
pub open spec fn report_of(slots: Seq<Slot>, latest: Option<Seq<char>>) -> Seq<DeviceRecordView>
    decreases slots.len(),
{
    if slots.len() == 0 {
        Seq::empty()
    } else {
        let before = report_of(slots.drop_last(), latest);
        match slots.last() {
            Slot::Fetched(d) => before.push(record_of(d@, latest)),
            _ => before,
        }
    }
}

/// What holds of every state that a run can reach.
pub open spec fn inv(s: PipelineState) -> bool {
    &&& s.slots.len() == s.ids.len()
    &&& s.slots.len() <= usize::MAX
    &&& s.issued <= s.slots.len()
    &&& forall|i: int|
        0 <= i < s.slots.len() ==> (#[trigger] s.slots[i] is Waiting <==> i >= s.issued)
    &&& forall|i: int|
        0 <= i < s.slots.len() ==> (#[trigger] s.slots[i] matches Slot::Fetched(d) ==> d.id
            == s.ids[i])
    &&& outstanding(s.slots) <= MAX_IN_FLIGHT
    &&& s.stage !is Fetching ==> s.slots.len() == 0
}

/// The state in which every run starts.
pub open spec fn initial() -> PipelineState {
    PipelineState {
        stage: Stage::Start,
        latest: None,
        ids: Seq::empty(),
        slots: Seq::empty(),
        issued: 0,
    }
}

/// Whether a detail call may be started now.
pub open spec fn may_issue(s: PipelineState) -> bool {
    &&& s.stage is Fetching
    &&& s.issued < s.slots.len()
    &&& outstanding(s.slots) < MAX_IN_FLIGHT
}

/// The next action in a state, and the state that taking it leads to.
pub open spec fn poll(s: PipelineState) -> (PipelineState, Action) {
    match s.stage {
        Stage::Start => (PipelineState { stage: Stage::AwaitingToken, ..s }, Action::RequestToken),
        Stage::TokenHeld(token) => (
            PipelineState { stage: Stage::AwaitingCatalog, ..s },
            Action::RequestCatalog { token },
        ),
        Stage::BaselineKnown => (
            PipelineState { stage: Stage::AwaitingIds, ..s },
            Action::RequestDeviceIds,
        ),
        Stage::Fetching => if may_issue(s) {
            (
                PipelineState {
                    slots: s.slots.update(s.issued as int, Slot::InFlight),
                    issued: s.issued + 1,
                    ..s
                },
                Action::RequestDetail { position: s.issued as usize, id: s.ids[s.issued as int] },
            )
        } else if outstanding(s.slots) > 0 {
            (s, Action::Wait)
        } else {
            (s, Action::Finish)
        },
        Stage::Failed(_) => (s, Action::Finish),
        _ => (s, Action::Wait),
    }
}

/// The state after the answer to the token exchange. Without a token the run
/// is over.
pub open spec fn after_token(s: PipelineState, reply: Reply<String>) -> PipelineState {
    if s.stage is AwaitingToken {
        match token_outcome(reply) {
            Ok(token) => PipelineState { stage: Stage::TokenHeld(token), ..s },
            Err(e) => PipelineState { stage: Stage::Failed(e), ..s },
        }
    } else {
        s
    }
}

/// The state after the answer to the catalog call. An empty catalog leaves
/// the run without a baseline and lets it go on; no catalog at all ends it.
pub open spec fn after_catalog(s: PipelineState, reply: Reply<Vec<String>>) -> PipelineState {
    if s.stage is AwaitingCatalog {
        match listing_outcome(reply) {
            Ok(catalog) => PipelineState {
                stage: Stage::BaselineKnown,
                latest: latest_of(catalog@),
                ..s
            },
            Err(e) => PipelineState { stage: Stage::Failed(e), ..s },
        }
    } else {
        s
    }
}

/// The state after the answer to the list call: one waiting slot per
/// identifier, or the end of the run.
pub open spec fn after_device_ids(s: PipelineState, reply: Reply<Vec<u64>>) -> PipelineState {
    if s.stage is AwaitingIds {
        match listing_outcome(reply) {
            Ok(ids) => PipelineState {
                stage: Stage::Fetching,
                ids: ids@,
                slots: Seq::new(ids@.len(), |i: int| Slot::Waiting),
                issued: 0,
                ..s
            },
            Err(e) => PipelineState { stage: Stage::Failed(e), ..s },
        }
    } else {
        s
    }
}

/// Whether an answer for `position` is due.
pub open spec fn expects_detail(s: PipelineState, position: int) -> bool {
    &&& s.stage is Fetching
    &&& 0 <= position < s.slots.len()
    &&& s.slots[position] is InFlight
}

/// What an answer to a detail call makes of the slot it belongs to.
pub open spec fn settled(id: u64, reply: Reply<DeviceDetail>) -> Slot {
    match detail_outcome(id, reply) {
        Ok(d) => Slot::Fetched(d),
        Err(e) => Slot::Skipped(e),
    }
}

/// The state after the answer to the detail call for `position`. Only the
/// slot at that position changes, and only if its answer is due.
pub open spec fn after_detail(
    s: PipelineState,
    position: int,
    reply: Reply<DeviceDetail>,
) -> PipelineState {
    if expects_detail(s, position) {
        PipelineState { slots: s.slots.update(position, settled(s.ids[position], reply)), ..s }
    } else {
        s
    }
}

/// Whether nothing is left to do.
pub open spec fn finished(s: PipelineState) -> bool {
    ||| s.stage is Failed
    ||| (s.stage is Fetching && s.issued == s.slots.len() && outstanding(s.slots) == 0)
}

/// The outcome of a run that is over.
pub open spec fn outcome_of(s: PipelineState) -> Result<Seq<DeviceRecordView>, ReportError> {
    match s.stage {
        Stage::Failed(e) => Err(e),
        _ => Ok(report_of(s.slots, text_of(s.latest))),
    }
}

/// The devices that a row of slots leaves out of the report, each with the
/// reason, in the order of their positions.
pub open spec fn skipped_of(ids: Seq<u64>, slots: Seq<Slot>) -> Seq<(u64, ReportError)>
    decreases slots.len(),
{
    if slots.len() == 0 {
        Seq::empty()
    } else {
        let before = skipped_of(ids, slots.drop_last());
        match slots.last() {
            Slot::Skipped(e) => before.push((ids[slots.len() - 1], e)),
            _ => before,
        }
    }
}

/// Whether the run goes on without a baseline because the catalog listed no
/// version. No device is reported as up to date then.
pub open spec fn lacks_baseline(s: PipelineState) -> bool {
    &&& s.latest is None
    &&& (s.stage is BaselineKnown || s.stage is AwaitingIds || s.stage is Fetching)
}

/// The positions whose detail has arrived, in rising order.
pub open spec fn fetched_positions(slots: Seq<Slot>) -> Seq<int>
    decreases slots.len(),
{
    if slots.len() == 0 {
        Seq::empty()
    } else {
        let before = fetched_positions(slots.drop_last());
        if slots.last() is Fetched {
            before.push(slots.len() - 1)
        } else {
            before
        }
    }
}

/// Whether every slot that is settled holds what the backend's answer for
/// its position makes of it.
pub open spec fn agrees(s: PipelineState, answers: Seq<Reply<DeviceDetail>>) -> bool {
    &&& answers.len() == s.slots.len()
    &&& forall|i: int|
        0 <= i < s.slots.len() && !(s.slots[i] is Waiting) && !(s.slots[i] is InFlight)
            ==> #[trigger] s.slots[i] == settled(s.ids[i], answers[i])
}

/// The slots of a run in which every device is settled by its answer.
pub open spec fn settled_slots(ids: Seq<u64>, answers: Seq<Reply<DeviceDetail>>) -> Seq<Slot> {
    Seq::new(ids.len(), |i: int| settled(ids[i], answers[i]))
}

/// One move of a run while the details are fetched.
pub enum Step {
    /// The driver polls for the next action.
    Poll,
    /// The answer for a position arrives.
    Arrive(int),
}

/// The state after one move, where `answers` holds for each position what
/// the backend answers for it.
pub open spec fn step(
    s: PipelineState,
    answers: Seq<Reply<DeviceDetail>>,
    m: Step,
) -> PipelineState {
    match m {
        Step::Poll => poll(s).0,
        Step::Arrive(position) => if 0 <= position < answers.len() {
            after_detail(s, position, answers[position])
        } else {
            s
        },
    }
}

/// The state after a row of moves, taken in their order.
pub open spec fn run(
    s: PipelineState,
    answers: Seq<Reply<DeviceDetail>>,
    moves: Seq<Step>,
) -> PipelineState
    decreases moves.len(),
{
    if moves.len() == 0 {
        s
    } else {
        step(run(s, answers, moves.drop_last()), answers, moves.last())
    }
}

} // verus!
