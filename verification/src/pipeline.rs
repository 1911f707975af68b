//! The aggregation as a state machine that a driver runs.
//!
//! The machine decides; a driver acts. The driver polls [`Pipeline::next_action`]
//! for the calls to start, performs them in whatever way it likes, and hands
//! each answer back as it arrives.

use vstd::prelude::*;
use crate::client::{
    base_of, basic_of, catalog_path, catalog_request, describes, detail_request,
    device_ids_request, device_path, devices_path, interpret_catalog, interpret_detail,
    interpret_device_ids, interpret_token, token_path, token_request, Auth, Method, Reply,
    Request,
};
use crate::laws::{lemma_after_detail_keeps_inv, lemma_outstanding_fresh, lemma_outstanding_update};
use crate::machine::{
    after_catalog, after_detail, after_device_ids, after_token, expects_detail, finished,
    initial, inv, lacks_baseline, outcome_of, outstanding, poll, report_of, skipped_of, Action,
    PipelineState, Slot, Stage, MAX_IN_FLIGHT,
};
use crate::model::{
    build_record, text_of, Credentials, DeviceDetail, DeviceRecord, DeviceRecordView, Report,
    ReportError,
};
use crate::version::get_latest_semver;

verus! {

impl Action {
    /// The call that carries out this action on behalf of `credentials`;
    /// none where the action starts no call.
    pub fn request(&self, credentials: &Credentials) -> (request: Option<Request>)
        ensures
            match *self {
                Action::RequestToken => request matches Some(r) && describes(
                    r,
                    Method::Post,
                    base_of(*credentials) + token_path(),
                    basic_of(*credentials),
                ),
                Action::RequestCatalog { token } => request matches Some(r) && describes(
                    r,
                    Method::Get,
                    base_of(*credentials) + catalog_path(),
                    Auth::Bearer { token },
                ),
                Action::RequestDeviceIds => request matches Some(r) && describes(
                    r,
                    Method::Get,
                    base_of(*credentials) + devices_path(),
                    basic_of(*credentials),
                ),
                Action::RequestDetail { position, id } => request matches Some(r) && describes(
                    r,
                    Method::Get,
                    base_of(*credentials) + device_path(id),
                    basic_of(*credentials),
                ),
                Action::Wait => request is None,
                Action::Finish => request is None,
            },
    {
        match self {
            Action::RequestToken => Some(token_request(credentials)),
            Action::RequestCatalog { token } => Some(catalog_request(credentials, token.clone())),
            Action::RequestDeviceIds => Some(device_ids_request(credentials)),
            Action::RequestDetail { position, id } => Some(detail_request(credentials, *id)),
            Action::Wait => None,
            Action::Finish => None,
        }
    }
}

/// The view of an outcome: the report by its records.
pub open spec fn outcome_view(outcome: Result<Report, ReportError>) -> Result<
    Seq<DeviceRecordView>,
    ReportError,
> {
    match outcome {
        Ok(report) => Ok(report@),
        Err(e) => Err(e),
    }
}

/// Merges a row of slots into the report: one record for each device whose
/// detail has arrived, in the order of the positions, the others left out.
pub fn assemble_report(slots: &Vec<Slot>, latest: &Option<String>) -> (report: Report)
    ensures
        report@ == report_of(slots@, text_of(*latest)),
{
    let mut devices: Vec<DeviceRecord> = Vec::new();
    let mut i: usize = 0;
    while i < slots.len()
        invariant
            i <= slots.len(),
            devices@.map_values(|r: DeviceRecord| r@) == report_of(
                slots@.take(i as int),
                text_of(*latest),
            ),
        decreases slots.len() - i,
    {
        let ghost before = devices@;
        assert(slots@.take(i + 1).drop_last() =~= slots@.take(i as int));
        match &slots[i] {
            Slot::Fetched(detail) => {
                let record = build_record(detail, latest);
                devices.push(record);
                assert(devices@.map_values(|r: DeviceRecord| r@) =~= before.map_values(
                    |r: DeviceRecord| r@,
                ).push(record@));
            },
            _ => {},
        }
        i += 1;
    }
    assert(slots@.take(i as int) =~= slots@);
    Report { devices }
}

fn waiting_slots(n: usize) -> (slots: Vec<Slot>)
    ensures
        slots@ == Seq::new(n as nat, |i: int| Slot::Waiting),
{
    let mut slots: Vec<Slot> = Vec::new();
    let mut i: usize = 0;
    while i < n
        invariant
            i <= n,
            slots@ == Seq::new(i as nat, |j: int| Slot::Waiting),
        decreases n - i,
    {
        slots.push(Slot::Waiting);
        i += 1;
    }
    slots
}

/// One run of the aggregation.
pub struct Pipeline {
    stage: Stage,
    latest: Option<String>,
    ids: Vec<u64>,
    slots: Vec<Slot>,
    issued: usize,
    in_flight: usize,
}

impl View for Pipeline {
    type V = PipelineState;

    closed spec fn view(&self) -> PipelineState {
        PipelineState {
            stage: self.stage,
            latest: self.latest,
            ids: self.ids@,
            slots: self.slots@,
            issued: self.issued as nat,
        }
    }
}

impl Pipeline {
    /// Whether the run is in a state that it can have reached.
    pub closed spec fn wf(&self) -> bool {
        &&& inv(self@)
        &&& self.in_flight == outstanding(self.slots@)
    }

    /// A well-formed run meets the invariant, so it has at most
    /// [`MAX_IN_FLIGHT`] detail calls under way.
    pub proof fn lemma_wf_inv(&self)
        requires
            self.wf(),
        ensures
            inv(self@),
            outstanding(self@.slots) <= MAX_IN_FLIGHT,
    {
    }

    /// Starts a run.
    pub fn new() -> (pipeline: Pipeline)
        ensures
            pipeline.wf(),
            pipeline@ == initial(),
    {
        Pipeline {
            stage: Stage::Start,
            latest: None,
            ids: Vec::new(),
            slots: Vec::new(),
            issued: 0,
            in_flight: 0,
        }
    }

    /// Says what to do next, and notes that it is being done. A detail call
    /// is handed out only while fewer than [`MAX_IN_FLIGHT`] are under way.
    pub fn next_action(&mut self) -> (action: Action)
        requires
            old(self).wf(),
        ensures
            final(self).wf(),
            (final(self)@, action) == poll(old(self)@),
            action matches Action::RequestDetail { position, id } ==> {
                &&& position == old(self)@.issued
                &&& id == old(self)@.ids[position as int]
                &&& expects_detail(final(self)@, position as int)
            },
    {
        match &self.stage {
            Stage::Start => {
                self.stage = Stage::AwaitingToken;
                Action::RequestToken
            },
            Stage::TokenHeld(held) => {
                let token = held.clone();
                self.stage = Stage::AwaitingCatalog;
                Action::RequestCatalog { token }
            },
            Stage::BaselineKnown => {
                self.stage = Stage::AwaitingIds;
                Action::RequestDeviceIds
            },
            Stage::Fetching => {
                if self.issued < self.slots.len() && self.in_flight < MAX_IN_FLIGHT {
                    let position = self.issued;
                    let id = self.ids[position];
                    proof {
                        lemma_outstanding_update(self.slots@, position as int, Slot::InFlight);
                    }
                    self.slots.set(position, Slot::InFlight);
                    self.issued = position + 1;
                    self.in_flight = self.in_flight + 1;
                    Action::RequestDetail { position, id }
                } else if self.in_flight > 0 {
                    Action::Wait
                } else {
                    Action::Finish
                }
            },
            Stage::Failed(_) => Action::Finish,
            _ => Action::Wait,
        }
    }

    /// Takes the answer to the token exchange. It is accepted only while the
    /// run waits for it; otherwise nothing changes.
    pub fn token_answered(&mut self, reply: Reply<String>) -> (accepted: bool)
        requires
            old(self).wf(),
        ensures
            final(self).wf(),
            final(self)@ == after_token(old(self)@, reply),
            accepted == (old(self)@.stage is AwaitingToken),
    {
        match &self.stage {
            Stage::AwaitingToken => {
                match interpret_token(reply) {
                    Ok(token) => {
                        self.stage = Stage::TokenHeld(token);
                    },
                    Err(e) => {
                        self.stage = Stage::Failed(e);
                    },
                }
                true
            },
            _ => false,
        }
    }

    /// Takes the answer to the catalog call. It is accepted only while the
    /// run waits for it; otherwise nothing changes.
    pub fn catalog_answered(&mut self, reply: Reply<Vec<String>>) -> (accepted: bool)
        requires
            old(self).wf(),
        ensures
            final(self).wf(),
            final(self)@ == after_catalog(old(self)@, reply),
            accepted == (old(self)@.stage is AwaitingCatalog),
    {
        match &self.stage {
            Stage::AwaitingCatalog => {
                match interpret_catalog(reply) {
                    Ok(catalog) => {
                        self.latest = match get_latest_semver(catalog) {
                            Ok(v) => Some(v),
                            Err(_) => None,
                        };
                        self.stage = Stage::BaselineKnown;
                    },
                    Err(e) => {
                        self.stage = Stage::Failed(e);
                    },
                }
                true
            },
            _ => false,
        }
    }

    /// Takes the answer to the list call. It is accepted only while the run
    /// waits for it; otherwise nothing changes.
    pub fn device_ids_answered(&mut self, reply: Reply<Vec<u64>>) -> (accepted: bool)
        requires
            old(self).wf(),
        ensures
            final(self).wf(),
            final(self)@ == after_device_ids(old(self)@, reply),
            accepted == (old(self)@.stage is AwaitingIds),
    {
        match &self.stage {
            Stage::AwaitingIds => {
                match interpret_device_ids(reply) {
                    Ok(ids) => {
                        proof {
                            lemma_outstanding_fresh(ids@.len());
                        }
                        self.slots = waiting_slots(ids.len());
                        self.ids = ids;
                        self.issued = 0;
                        self.in_flight = 0;
                        self.stage = Stage::Fetching;
                    },
                    Err(e) => {
                        self.stage = Stage::Failed(e);
                    },
                }
                true
            },
            _ => false,
        }
    }

    /// Takes the answer to the detail call for `position`, whenever it comes.
    /// It is accepted only if that call is under way; otherwise nothing
    /// changes.
    pub fn detail_answered(&mut self, position: usize, reply: Reply<DeviceDetail>) -> (accepted:
        bool)
        requires
            old(self).wf(),
        ensures
            final(self).wf(),
            final(self)@ == after_detail(old(self)@, position as int, reply),
            accepted == expects_detail(old(self)@, position as int),
    {
        let due = match &self.stage {
            Stage::Fetching => position < self.slots.len() && match &self.slots[position] {
                Slot::InFlight => true,
                _ => false,
            },
            _ => false,
        };
        if due {
            let slot = match interpret_detail(self.ids[position], reply) {
                Ok(detail) => Slot::Fetched(detail),
                Err(e) => Slot::Skipped(e),
            };
            proof {
                lemma_after_detail_keeps_inv(self@, position as int, reply);
            }
            self.slots.set(position, slot);
            self.in_flight = self.in_flight - 1;
        }
        due
    }

    /// Whether nothing is left to do.
    pub fn is_finished(&self) -> (done: bool)
        requires
            self.wf(),
        ensures
            done == finished(self@),
    {
        match &self.stage {
            Stage::Failed(_) => true,
            Stage::Fetching => self.issued == self.slots.len() && self.in_flight == 0,
            _ => false,
        }
    }

    /// The number of detail calls that are under way.
    pub fn in_flight(&self) -> (n: usize)
        requires
            self.wf(),
        ensures
            n == outstanding(self@.slots),
            n <= MAX_IN_FLIGHT,
    {
        self.in_flight
    }

    /// Whether the catalog turned out empty, so that the run has no baseline.
    pub fn lacks_baseline(&self) -> (lacking: bool)
        requires
            self.wf(),
        ensures
            lacking == lacks_baseline(self@),
    {
        let past_catalog = match &self.stage {
            Stage::BaselineKnown => true,
            Stage::AwaitingIds => true,
            Stage::Fetching => true,
            _ => false,
        };
        past_catalog && self.latest.is_none()
    }

    /// The devices that have been left out so far, each with the reason.
    pub fn skipped(&self) -> (left_out: Vec<(u64, ReportError)>)
        requires
            self.wf(),
        ensures
            left_out@ == skipped_of(self@.ids, self@.slots),
    {
        let mut left_out: Vec<(u64, ReportError)> = Vec::new();
        let mut i: usize = 0;
        while i < self.slots.len()
            invariant
                self.wf(),
                i <= self.slots.len(),
                left_out@ == skipped_of(self.ids@, self.slots@.take(i as int)),
            decreases self.slots.len() - i,
        {
            assert(self.slots@.take(i + 1).drop_last() =~= self.slots@.take(i as int));
            match &self.slots[i] {
                Slot::Skipped(e) => {
                    left_out.push((self.ids[i], *e));
                },
                _ => {},
            }
            i += 1;
        }
        assert(self.slots@.take(i as int) =~= self.slots@);
        left_out
    }

    /// The outcome of the run, once it is over: the report, or the failure
    /// that ended it.
    pub fn outcome(&self) -> (outcome: Option<Result<Report, ReportError>>)
        requires
            self.wf(),
        ensures
            outcome is Some <==> finished(self@),
            outcome matches Some(r) ==> outcome_view(r) == outcome_of(self@),
    {
        match &self.stage {
            Stage::Failed(e) => Some(Err(*e)),
            Stage::Fetching => {
                if self.issued == self.slots.len() && self.in_flight == 0 {
                    Some(Ok(assemble_report(&self.slots, &self.latest)))
                } else {
                    None
                }
            },
            _ => None,
        }
    }
}

} // verus!
