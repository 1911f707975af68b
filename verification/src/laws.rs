//! What holds of every run of the aggregation.

use vstd::prelude::*;
use crate::client::{detail_outcome, is_success, listing_outcome, Reply};
use crate::machine::{
    after_catalog, after_detail, after_device_ids, after_token, agrees, expects_detail,
    fetched_positions, finished, initial, inv, may_issue, outcome_of, outstanding, poll,
    report_of, run, settled, settled_slots, skipped_of, step, Action, PipelineState, Slot, Stage,
    Step, MAX_IN_FLIGHT,
};
use crate::model::{
    record_of, text_of, DeviceDetail, DeviceDetailView, DeviceRecordView, ReportError,
};
use crate::version::latest_of;

verus! {

/// Replacing one slot changes the number of calls under way by what the old
/// and the new slot count for.
pub proof fn lemma_outstanding_update(slots: Seq<Slot>, i: int, slot: Slot)
    requires
        0 <= i < slots.len(),
    ensures
        outstanding(slots.update(i, slot)) + (if slots[i] is InFlight {
            1nat
        } else {
            0nat
        }) == outstanding(slots) + (if slot is InFlight {
            1nat
        } else {
            0nat
        }),
    decreases slots.len(),
{
    let changed = slots.update(i, slot);
    if i == slots.len() - 1 {
        assert(changed.drop_last() =~= slots.drop_last());
    } else {
        assert(changed.drop_last() =~= slots.drop_last().update(i, slot));
        lemma_outstanding_update(slots.drop_last(), i, slot);
    }
}

/// No call is under way while every slot waits.
pub proof fn lemma_outstanding_fresh(n: nat)
    ensures
        outstanding(Seq::new(n, |i: int| Slot::Waiting)) == 0,
    decreases n,
{
    if n > 0 {
        assert(Seq::new(n, |i: int| Slot::Waiting).drop_last() =~= Seq::new(
            (n - 1) as nat,
            |i: int| Slot::Waiting,
        ));
        lemma_outstanding_fresh((n - 1) as nat);
    }
}

/// A run starts in a state that meets the invariant.
pub proof fn lemma_initial_inv()
    ensures
        inv(initial()),
{
}

/// Polling keeps the invariant: in particular it never lets more than
/// [`MAX_IN_FLIGHT`] detail calls be under way, however many devices there are.
pub proof fn lemma_poll_keeps_inv(s: PipelineState)
    requires
        inv(s),
    ensures
        inv(poll(s).0),
        outstanding(poll(s).0.slots) <= MAX_IN_FLIGHT,
{
    if may_issue(s) {
        lemma_outstanding_update(s.slots, s.issued as int, Slot::InFlight);
    }
}

/// The answer to the token exchange keeps the invariant.
pub proof fn lemma_after_token_keeps_inv(s: PipelineState, reply: Reply<String>)
    requires
        inv(s),
    ensures
        inv(after_token(s, reply)),
{
}

/// The answer to the catalog call keeps the invariant.
pub proof fn lemma_after_catalog_keeps_inv(s: PipelineState, reply: Reply<Vec<String>>)
    requires
        inv(s),
    ensures
        inv(after_catalog(s, reply)),
{
}

/// The answer to the list call keeps the invariant.
pub proof fn lemma_after_device_ids_keeps_inv(s: PipelineState, reply: Reply<Vec<u64>>)
    requires
        inv(s),
    ensures
        inv(after_device_ids(s, reply)),
{
    if s.stage is AwaitingIds {
        if let Ok(ids) = listing_outcome(reply) {
            lemma_outstanding_fresh(ids@.len());
            assert(ids@.len() == ids.len());
        }
    }
}

/// The answer to a detail call keeps the invariant, and where it was due it
/// frees one of the places for calls under way.
pub proof fn lemma_after_detail_keeps_inv(
    s: PipelineState,
    position: int,
    reply: Reply<DeviceDetail>,
)
    requires
        inv(s),
    ensures
        inv(after_detail(s, position, reply)),
        expects_detail(s, position) ==> outstanding(after_detail(s, position, reply).slots) + 1
            == outstanding(s.slots),
{
    if expects_detail(s, position) {
        lemma_outstanding_update(s.slots, position, settled(s.ids[position], reply));
    }
}

/// Answers to two different detail calls lead to the same state in whichever
/// order they arrive.
pub proof fn lemma_arrival_order_irrelevant(
    s: PipelineState,
    p: int,
    a: Reply<DeviceDetail>,
    q: int,
    b: Reply<DeviceDetail>,
)
    requires
        p != q,
    ensures
        after_detail(after_detail(s, p, a), q, b) == after_detail(after_detail(s, q, b), p, a),
{
    let pq = after_detail(after_detail(s, p, a), q, b);
    let qp = after_detail(after_detail(s, q, b), p, a);
    assert(pq.slots =~= qp.slots);
}

/// Where the detail of every device has arrived, the report holds one record
/// per device: as many as there are slots, and at each position the record
/// of the device at that position.
pub proof fn lemma_report_complete(slots: Seq<Slot>, latest: Option<Seq<char>>)
    requires
        forall|i: int| 0 <= i < slots.len() ==> #[trigger] slots[i] is Fetched,
    ensures
        report_of(slots, latest).len() == slots.len(),
        forall|i: int|
            0 <= i < slots.len() ==> #[trigger] report_of(slots, latest)[i] == record_of(
                slots[i]->Fetched_0@,
                latest,
            ),
    decreases slots.len(),
{
    if slots.len() > 0 {
        lemma_report_complete(slots.drop_last(), latest);
        assert(slots.last() is Fetched);
        assert forall|i: int| 0 <= i < slots.len() implies #[trigger] report_of(slots, latest)[i]
            == record_of(slots[i]->Fetched_0@, latest) by {
            if i < slots.len() - 1 {
                assert(slots.drop_last()[i] == slots[i]);
            }
        }
    }
}

/// Where no call is under way, no slot is in flight.
pub proof fn lemma_none_outstanding(slots: Seq<Slot>)
    requires
        outstanding(slots) == 0,
    ensures
        forall|i: int| 0 <= i < slots.len() ==> !(#[trigger] slots[i] is InFlight),
    decreases slots.len(),
{
    if slots.len() > 0 {
        lemma_none_outstanding(slots.drop_last());
        assert forall|i: int| 0 <= i < slots.len() implies !(#[trigger] slots[i] is InFlight) by {
            if i < slots.len() - 1 {
                assert(slots.drop_last()[i] == slots[i]);
            }
        }
    }
}

/// When the list arrives no slot is settled yet, so the slots agree with
/// whatever the backend will answer.
pub proof fn lemma_agreement_starts(
    s: PipelineState,
    reply: Reply<Vec<u64>>,
    answers: Seq<Reply<DeviceDetail>>,
)
    requires
        s.stage is AwaitingIds,
        listing_outcome(reply) matches Ok(ids) && ids@.len() == answers.len(),
    ensures
        agrees(after_device_ids(s, reply), answers),
{
}

/// Polling, and the arrival of the answer that belongs to a position, keep
/// the slots in agreement with the answers.
pub proof fn lemma_agreement_kept(
    s: PipelineState,
    answers: Seq<Reply<DeviceDetail>>,
    position: int,
)
    requires
        inv(s),
        agrees(s, answers),
    ensures
        agrees(poll(s).0, answers),
        0 <= position < answers.len() ==> agrees(
            after_detail(s, position, answers[position]),
            answers,
        ),
{
}

/// The report does not depend on the order in which the answers arrive:
/// once the list is worked off, the slots are those that the answers give
/// position by position, whatever the run did to get there.
pub proof fn lemma_report_order_free(s: PipelineState, answers: Seq<Reply<DeviceDetail>>)
    requires
        inv(s),
        s.stage is Fetching,
        finished(s),
        agrees(s, answers),
    ensures
        s.slots == settled_slots(s.ids, answers),
        outcome_of(s) == Ok::<Seq<DeviceRecordView>, ReportError>(
            report_of(settled_slots(s.ids, answers), text_of(s.latest)),
        ),
{
    lemma_none_outstanding(s.slots);
    assert(s.slots =~= settled_slots(s.ids, answers));
}

/// While the details are fetched, no row of moves leaves that stage, touches
/// the list or the baseline, breaks the invariant, or lets a slot disagree
/// with the answer for its position.
pub proof fn lemma_run_stays_on_course(
    s: PipelineState,
    answers: Seq<Reply<DeviceDetail>>,
    moves: Seq<Step>,
)
    requires
        inv(s),
        s.stage is Fetching,
        agrees(s, answers),
    ensures
        inv(run(s, answers, moves)),
        run(s, answers, moves).stage is Fetching,
        run(s, answers, moves).ids == s.ids,
        run(s, answers, moves).latest == s.latest,
        agrees(run(s, answers, moves), answers),
    decreases moves.len(),
{
    if moves.len() > 0 {
        lemma_run_stays_on_course(s, answers, moves.drop_last());
        let before = run(s, answers, moves.drop_last());
        lemma_poll_keeps_inv(before);
        match moves.last() {
            Step::Poll => {
                lemma_agreement_kept(before, answers, 0);
            },
            Step::Arrive(position) => {
                lemma_after_detail_keeps_inv(before, position, answers[position]);
                lemma_agreement_kept(before, answers, position);
            },
        }
    }
}

/// Whatever the driver does and in whatever order the answers arrive, a run
/// that has worked off the list of `ids` reports the same: what the answers
/// give position by position, against the baseline that the run started with.
pub proof fn lemma_any_schedule_same_report(
    s: PipelineState,
    reply: Reply<Vec<u64>>,
    answers: Seq<Reply<DeviceDetail>>,
    moves: Seq<Step>,
)
    requires
        inv(s),
        s.stage is AwaitingIds,
        listing_outcome(reply) matches Ok(ids) && ids@.len() == answers.len(),
        finished(run(after_device_ids(s, reply), answers, moves)),
    ensures
        outcome_of(run(after_device_ids(s, reply), answers, moves)) == Ok::<
            Seq<DeviceRecordView>,
            ReportError,
        >(report_of(settled_slots(listing_outcome(reply)->Ok_0@, answers), text_of(s.latest))),
{
    let start = after_device_ids(s, reply);
    lemma_after_device_ids_keeps_inv(s, reply);
    lemma_agreement_starts(s, reply, answers);
    lemma_run_stays_on_course(start, answers, moves);
    lemma_report_order_free(run(start, answers, moves), answers);
}

/// Where every detail call is answered with the detail of the device asked
/// for, the finished run reports every device: as many records as
/// identifiers, and at each position the record of the identifier there.
pub proof fn lemma_report_of_full_fleet(s: PipelineState, answers: Seq<Reply<DeviceDetail>>)
    requires
        inv(s),
        s.stage is Fetching,
        finished(s),
        agrees(s, answers),
        forall|i: int|
            0 <= i < s.ids.len() ==> detail_outcome(s.ids[i], #[trigger] answers[i]) is Ok,
    ensures
        outcome_of(s) is Ok,
        outcome_of(s)->Ok_0.len() == s.ids.len(),
        forall|i: int|
            0 <= i < s.ids.len() ==> (#[trigger] outcome_of(s)->Ok_0[i]).device_id == s.ids[i],
{
    lemma_report_order_free(s, answers);
    assert forall|i: int| 0 <= i < s.slots.len() implies #[trigger] s.slots[i] is Fetched by {
        assert(detail_outcome(s.ids[i], answers[i]) is Ok);
    }
    lemma_report_complete(s.slots, text_of(s.latest));
    assert forall|i: int| 0 <= i < s.ids.len() implies (#[trigger] outcome_of(s)->Ok_0[i]).device_id
        == s.ids[i] by {
        assert(s.slots[i] is Fetched);
    }
}

/// The report holds exactly the devices whose detail has arrived, each once,
/// in the order of the list: its records answer one by one to the positions
/// that hold a detail, those positions rise, and none of them is missing.
pub proof fn lemma_report_keeps_list_order(slots: Seq<Slot>, latest: Option<Seq<char>>)
    ensures
        report_of(slots, latest).len() == fetched_positions(slots).len(),
        forall|k: int|
            0 <= k < fetched_positions(slots).len() ==> {
                let at = #[trigger] fetched_positions(slots)[k];
                &&& 0 <= at < slots.len()
                &&& slots[at] is Fetched
                &&& report_of(slots, latest)[k] == record_of(slots[at]->Fetched_0@, latest)
            },
        forall|j: int, k: int|
            0 <= j < k < fetched_positions(slots).len() ==> fetched_positions(slots)[j]
                < fetched_positions(slots)[k],
        forall|i: int|
            0 <= i < slots.len() && #[trigger] slots[i] is Fetched ==> fetched_positions(
                slots,
            ).contains(i),
    decreases slots.len(),
{
    if slots.len() > 0 {
        let front = slots.drop_last();
        let last = slots.len() - 1;
        lemma_report_keeps_list_order(front, latest);
        let at = fetched_positions(slots);
        let at_front = fetched_positions(front);
        assert forall|k: int| 0 <= k < at_front.len() implies slots[#[trigger] at_front[k]]
            == front[at_front[k]] by {}
        assert forall|i: int|
            0 <= i < slots.len() && #[trigger] slots[i] is Fetched implies at.contains(i) by {
            if i < last {
                assert(front[i] is Fetched);
                let k = choose|k: int| 0 <= k < at_front.len() && at_front[k] == i;
                assert(at[k] == i);
            } else {
                assert(at[at.len() - 1] == i);
            }
        }
    }
}

/// Once the list is worked off, every device is either in the report or
/// among those left out.
pub proof fn lemma_every_device_accounted_for(s: PipelineState)
    requires
        inv(s),
        s.stage is Fetching,
        finished(s),
    ensures
        report_of(s.slots, text_of(s.latest)).len() + skipped_of(s.ids, s.slots).len()
            == s.ids.len(),
{
    lemma_none_outstanding(s.slots);
    lemma_settled_split(s.ids, s.slots, text_of(s.latest));
}

proof fn lemma_settled_split(ids: Seq<u64>, slots: Seq<Slot>, latest: Option<Seq<char>>)
    requires
        forall|i: int|
            0 <= i < slots.len() ==> !(#[trigger] slots[i] is Waiting) && !(slots[i] is InFlight),
    ensures
        report_of(slots, latest).len() + skipped_of(ids, slots).len() == slots.len(),
    decreases slots.len(),
{
    if slots.len() > 0 {
        assert forall|i: int| 0 <= i < slots.drop_last().len() implies !(
        #[trigger] slots.drop_last()[i] is Waiting) && !(slots.drop_last()[i] is InFlight) by {
            assert(slots.drop_last()[i] == slots[i]);
        }
        lemma_settled_split(ids, slots.drop_last(), latest);
        assert(!(slots[slots.len() - 1] is Waiting));
    }
}

/// A device counts as up to date exactly if its version is, character for
/// character, the first entry of the catalog. No later entry counts, however
/// new, and with an empty catalog no device does.
pub proof fn lemma_flag_is_literal_equality(detail: DeviceDetailView, catalog: Seq<String>)
    ensures
        record_of(detail, text_of(latest_of(catalog))).os_is_latest <==> (catalog.len() > 0
            && detail.os_version == catalog[0]@),
{
}

/// A refused token exchange ends the run with an authentication failure.
pub proof fn lemma_refused_token_fails(s: PipelineState, status: u16, payload: Option<String>)
    requires
        s.stage is AwaitingToken,
        !is_success(status),
    ensures
        after_token(s, Reply::Answered { status, payload }).stage == Stage::Failed(
            ReportError::Auth,
        ),
{
}

/// A run that has failed stays as it is: it asks for nothing more, whatever
/// answer still arrives, and its outcome is the failure.
pub proof fn lemma_failure_is_final(s: PipelineState, e: ReportError)
    requires
        s.stage == Stage::Failed(e),
    ensures
        poll(s) == (s, Action::Finish),
        finished(s),
        outcome_of(s) == Err::<Seq<DeviceRecordView>, ReportError>(e),
        forall|reply: Reply<String>| #[trigger] after_token(s, reply) == s,
        forall|reply: Reply<Vec<String>>| #[trigger] after_catalog(s, reply) == s,
        forall|reply: Reply<Vec<u64>>| #[trigger] after_device_ids(s, reply) == s,
        forall|position: int, reply: Reply<DeviceDetail>|
            #[trigger] after_detail(s, position, reply) == s,
{
}

/// The position that a detail call is handed out for is the next one of the
/// list, it goes with the identifier at that position, and from then on its
/// answer is due.
pub proof fn lemma_issued_position_is_due(s: PipelineState)
    requires
        inv(s),
        poll(s).1 is RequestDetail,
    ensures
        poll(s).1 == (Action::RequestDetail {
            position: s.issued as usize,
            id: s.ids[s.issued as int],
        }),
        s.issued as usize == s.issued,
        expects_detail(poll(s).0, s.issued as int),
{
}

/// No detail call is handed out before the list of devices is known.
pub proof fn lemma_details_only_while_fetching(s: PipelineState)
    requires
        poll(s).1 is RequestDetail,
    ensures
        s.stage is Fetching,
        may_issue(s),
{
}

} // verus!
