//! What holds across the modules: of an upload and its later retrieval, of
//! uploads that follow one another, and of a session over time.

use vstd::prelude::*;
use vstd::utf8::encode_utf8;
use crate::fault::{Fault, INVALID_NAME, INVALID_TYPE};
use crate::message::{download_url, kind_named, Kind, RawAction, UploadActionView};
use crate::registry::{entry_by_text, lemma_entry_by_own_text, RecordView, Status};
use crate::retrieval::{retrieved, ArtifactView, DISPOSITION_PREFIX};
use crate::session::{
    Frame,
    Phase,
    ReactionView,
    Session,
    CLIENT_TIMEOUT,
    HEARTBEAT_INTERVAL,
};
use crate::storage::{
    final_segment,
    is_plain_name,
    lemma_stored_under_own_name,
    parent_dir,
    storage_path,
    STORAGE_ROOT,
};
use crate::token::{lemma_token_text_injective, token_text, Token};
use crate::upload::{fetch_fault, planned, FetchEnd, ReplyView, UploadPlanView};

verus! {

/// An accepted text upload can be retrieved: the peer is sent the link of
/// its token, the upload is recorded as ready, the registry grows by one
/// record, and a retrieval by that token's text, reading back what the plan
/// said to write, gives exactly the submitted content under the submitted
/// name.
pub proof fn lemma_text_upload_is_retrievable(
    entries: Map<u128, RecordView>,
    action: UploadActionView,
    token: Token,
    stored: bool,
)
    requires
        action.kind == Kind::Text,
        is_plain_name(action.name),
        planned(action, token).accepted(entries, stored),
    ensures
        ({
            let plan = planned(action, token);
            let after = plan.settled(entries, stored);
            &&& plan.reply(entries, stored) == ReplyView::Download(download_url(token))
            &&& plan.inline_content() == Some(encode_utf8(action.payload))
            &&& entries.dom().finite() ==> after.len() == entries.len() + 1
            &&& retrieved(after, token@, plan.inline_content()) == Ok::<ArtifactView, Fault>(
                ArtifactView {
                    name: action.name,
                    disposition: DISPOSITION_PREFIX@ + action.name,
                    content: encode_utf8(action.payload),
                    status: Status::Ready,
                },
            )
        }),
{
    let plan = planned(action, token);
    let after = plan.settled(entries, stored);
    lemma_entry_by_own_text(after, token);
    lemma_stored_under_own_name(token, action.name);
}

/// A picture whose fetch ended well is recorded as ready at the path set
/// aside for it, and a retrieval gives what lies there under the submitted
/// name.
pub proof fn lemma_fetched_picture_is_retrievable(
    entries: Map<u128, RecordView>,
    action: UploadActionView,
    token: Token,
    end: FetchEnd,
    content: Seq<u8>,
)
    requires
        is_plain_name(action.name),
        !entries.contains_key(token.bits),
        fetch_fault(end).is_none(),
    ensures
        ({
            let plan = planned(action, token);
            let after = plan.registered(entries, end);
            &&& entry_by_text(after, token@) == Some(
                RecordView { path: plan.path, status: Status::Ready },
            )
            &&& retrieved(after, token@, Some(content)) == Ok::<ArtifactView, Fault>(
                ArtifactView {
                    name: action.name,
                    disposition: DISPOSITION_PREFIX@ + action.name,
                    content,
                    status: Status::Ready,
                },
            )
        }),
{
    lemma_entry_by_own_text(planned(action, token).registered(entries, end), token);
    lemma_stored_under_own_name(token, action.name);
}

/// A fetch that ended with a fault shows in the registry: the upload is
/// recorded as failed. A retrieval of its token still serves whatever lies
/// at the path, and says with it that the upload failed.
pub proof fn lemma_failed_fetch_shows_in_the_record(
    entries: Map<u128, RecordView>,
    action: UploadActionView,
    token: Token,
    end: FetchEnd,
    left: Seq<u8>,
)
    requires
        is_plain_name(action.name),
        !entries.contains_key(token.bits),
        fetch_fault(end).is_some(),
    ensures
        ({
            let plan = planned(action, token);
            let after = plan.registered(entries, end);
            &&& entry_by_text(after, token@) == Some(
                RecordView { path: plan.path, status: Status::Failed },
            )
            &&& retrieved(after, token@, Some(left)) == Ok::<ArtifactView, Fault>(
                ArtifactView {
                    name: action.name,
                    disposition: DISPOSITION_PREFIX@ + action.name,
                    content: left,
                    status: Status::Failed,
                },
            )
        }),
{
    lemma_entry_by_own_text(planned(action, token).registered(entries, end), token);
    lemma_stored_under_own_name(token, action.name);
}

/// Until its fetch has ended a picture has no record: settling it leaves
/// the registry as it was, and a retrieval of its token finds nothing.
pub proof fn lemma_pending_picture_is_not_served(
    entries: Map<u128, RecordView>,
    action: UploadActionView,
    token: Token,
    stored: bool,
    on_disk: Option<Seq<u8>>,
)
    requires
        action.kind == Kind::Picture,
        !entries.contains_key(token.bits),
    ensures
        planned(action, token).settled(entries, stored) == entries,
        retrieved(planned(action, token).settled(entries, stored), token@, on_disk) == Err::<
            ArtifactView,
            Fault,
        >(Fault::NotFound),
{
    lemma_entry_by_own_text(entries, token);
}

/// Every path that is planned lies in the directory of its token, under the
/// submitted name: plans under different tokens never meet in one file.
pub proof fn lemma_plans_do_not_share_a_file(
    first: UploadActionView,
    first_token: Token,
    second: UploadActionView,
    second_token: Token,
)
    requires
        is_plain_name(first.name),
        is_plain_name(second.name),
        first_token != second_token,
    ensures
        parent_dir(planned(first, first_token).path) == STORAGE_ROOT@ + first_token@,
        parent_dir(planned(second, second_token).path) == STORAGE_ROOT@ + second_token@,
        parent_dir(planned(first, first_token).path) != parent_dir(
            planned(second, second_token).path,
        ),
        planned(first, first_token).path != planned(second, second_token).path,
{
    lemma_stored_under_own_name(first_token, first.name);
    lemma_stored_under_own_name(second_token, second.name);
    let a = STORAGE_ROOT@ + first_token@;
    let b = STORAGE_ROOT@ + second_token@;
    if a == b {
        assert(first_token@ =~= a.skip(STORAGE_ROOT@.len() as int));
        assert(second_token@ =~= b.skip(STORAGE_ROOT@.len() as int));
        lemma_token_text_injective(first_token, second_token);
    }
}

/// A retrieval succeeds exactly when the text names a recorded token and a
/// file was read at its path, however the upload ended. It then gives all
/// that was read, under the final segment of the path.
pub proof fn lemma_retrieved_when_recorded_and_on_disk(
    entries: Map<u128, RecordView>,
    text: Seq<char>,
    on_disk: Option<Seq<u8>>,
)
    ensures
        retrieved(entries, text, on_disk) is Ok <==> entry_by_text(entries, text).is_some()
            && on_disk.is_some(),
        retrieved(entries, text, on_disk) is Err ==> retrieved(entries, text, on_disk)
            == Err::<ArtifactView, Fault>(Fault::NotFound),
        retrieved(entries, text, on_disk) matches Ok(artifact) ==> {
            &&& artifact.content == on_disk.unwrap()
            &&& artifact.name == final_segment(entry_by_text(entries, text).unwrap().path)
            &&& artifact.disposition == DISPOSITION_PREFIX@ + artifact.name
            &&& artifact.status == entry_by_text(entries, text).unwrap().status
        },
{
}

/// A retrieval by a text that names no recorded token finds nothing,
/// whatever lies on disk.
pub proof fn lemma_unregistered_is_not_found(
    entries: Map<u128, RecordView>,
    text: Seq<char>,
    on_disk: Option<Seq<u8>>,
)
    requires
        forall|bits: u128| entries.contains_key(bits) ==> token_text(bits) != text,
    ensures
        retrieved(entries, text, on_disk) == Err::<ArtifactView, Fault>(Fault::NotFound),
{
}

/// Records are never altered or removed: whatever a lookup found before an
/// upload was settled or its fetch ended, it finds afterwards.
pub proof fn lemma_entries_are_kept(
    entries: Map<u128, RecordView>,
    action: UploadActionView,
    token: Token,
    stored: bool,
    end: FetchEnd,
    text: Seq<char>,
)
    requires
        entry_by_text(entries, text).is_some(),
    ensures
        entry_by_text(planned(action, token).settled(entries, stored), text) == entry_by_text(
            entries,
            text,
        ),
        entry_by_text(planned(action, token).registered(entries, end), text) == entry_by_text(
            entries,
            text,
        ),
{
    let plan = planned(action, token);
    let bits = choose|bits: u128| token_text(bits) == text && entries.contains_key(bits);
    let found = Token { bits };
    lemma_entry_by_own_text(entries, found);
    lemma_entry_by_own_text(plan.settled(entries, stored), found);
    lemma_entry_by_own_text(plan.registered(entries, end), found);
}

/// The records after the plans were settled one after the other, each with
/// its storage work done.
pub open spec fn settled_all(entries: Map<u128, RecordView>, plans: Seq<UploadPlanView>) -> Map<
    u128,
    RecordView,
>
    decreases plans.len(),
{
    if plans.len() == 0 {
        entries
    } else {
        plans.last().settled(settled_all(entries, plans.drop_last()), true)
    }
}

/// Whether the plans are text uploads under tokens that differ from one
/// another and have no record in `entries`.
pub open spec fn fresh_text_plans(entries: Map<u128, RecordView>, plans: Seq<UploadPlanView>) -> bool {
    &&& forall|i: int| 0 <= i < plans.len() ==> (#[trigger] plans[i]).kind == Kind::Text
    &&& forall|i: int|
        0 <= i < plans.len() ==> !entries.contains_key((#[trigger] plans[i]).token.bits)
    &&& forall|i: int, j: int|
        0 <= i < j < plans.len() ==> (#[trigger] plans[i]).token != (#[trigger] plans[j]).token
}

proof fn lemma_settled_all_records(entries: Map<u128, RecordView>, plans: Seq<UploadPlanView>)
    requires
        fresh_text_plans(entries, plans),
    ensures
        forall|bits: u128|
            settled_all(entries, plans).contains_key(bits) <==> entries.contains_key(bits) || exists|
                i: int,
            |
                0 <= i < plans.len() && (#[trigger] plans[i]).token.bits == bits,
        forall|bits: u128|
            entries.contains_key(bits) ==> settled_all(entries, plans)[bits] == entries[bits],
        forall|i: int|
            0 <= i < plans.len() ==> settled_all(entries, plans)[(#[trigger] plans[i]).token.bits]
                == (RecordView { path: plans[i].path, status: Status::Ready }),
        entries.dom().finite() ==> settled_all(entries, plans).dom().finite() && settled_all(
            entries,
            plans,
        ).len() == entries.len() + plans.len(),
    decreases plans.len(),
{
    if plans.len() > 0 {
        let before = plans.drop_last();
        let last = plans.last();
        assert forall|i: int| 0 <= i < before.len() implies before[i] == plans[i] by {}
        assert(fresh_text_plans(entries, before));
        lemma_settled_all_records(entries, before);
        let mid = settled_all(entries, before);
        assert(last == plans[plans.len() - 1]);
        assert(!mid.contains_key(last.token.bits));
        let after = settled_all(entries, plans);
        assert(after == mid.insert(last.token.bits, RecordView { path: last.path, status: Status::Ready }));
        assert forall|bits: u128| after.contains_key(bits) <==> entries.contains_key(bits) || exists|
            i: int,
        |
            0 <= i < plans.len() && (#[trigger] plans[i]).token.bits == bits by {
            if bits == last.token.bits {
                assert(plans[plans.len() - 1].token.bits == bits);
            } else if mid.contains_key(bits) && !entries.contains_key(bits) {
                let i = choose|i: int| 0 <= i < before.len() && (#[trigger] before[i]).token.bits == bits;
                assert(plans[i].token.bits == bits);
            } else if exists|i: int| 0 <= i < plans.len() && (#[trigger] plans[i]).token.bits == bits {
                let i = choose|i: int| 0 <= i < plans.len() && (#[trigger] plans[i]).token.bits == bits;
                assert(before[i].token.bits == bits);
            }
        }
        assert forall|i: int| 0 <= i < plans.len() implies after[(#[trigger] plans[i]).token.bits]
            == (RecordView { path: plans[i].path, status: Status::Ready }) by {
            if i < plans.len() - 1 {
                assert(before[i] == plans[i]);
                assert(plans[i].token != last.token);
            }
        }
    }
}

/// Any number of text uploads under tokens that differ from one another and
/// are new to the registry, settled one after the other, are all recorded
/// afterwards, each as ready at its own path; every earlier record is kept,
/// and the registry has grown by one record for each upload.
pub proof fn lemma_uploads_do_not_interfere(
    entries: Map<u128, RecordView>,
    plans: Seq<UploadPlanView>,
)
    requires
        fresh_text_plans(entries, plans),
    ensures
        forall|i: int|
            0 <= i < plans.len() ==> entry_by_text(
                settled_all(entries, plans),
                (#[trigger] plans[i]).token@,
            ) == Some(RecordView { path: plans[i].path, status: Status::Ready }),
        forall|i: int, j: int|
            0 <= i < j < plans.len() ==> (#[trigger] plans[i]).token@ != (#[trigger] plans[j]).token@,
        forall|bits: u128|
            entries.contains_key(bits) ==> settled_all(entries, plans).contains_key(bits)
                && settled_all(entries, plans)[bits] == entries[bits],
        entries.dom().finite() ==> settled_all(entries, plans).len() == entries.len() + plans.len(),
{
    lemma_settled_all_records(entries, plans);
    let after = settled_all(entries, plans);
    assert forall|i: int| 0 <= i < plans.len() implies entry_by_text(
        after,
        (#[trigger] plans[i]).token@,
    ) == Some(RecordView { path: plans[i].path, status: Status::Ready }) by {
        lemma_entry_by_own_text(after, plans[i].token);
    }
    assert forall|i: int, j: int| 0 <= i < j < plans.len() implies (#[trigger] plans[i]).token@
        != (#[trigger] plans[j]).token@ by {
        if plans[i].token@ == plans[j].token@ {
            lemma_token_text_injective(plans[i].token, plans[j].token);
        }
    }
}

/// A request whose `type` is neither `text` nor `pic` is answered by an
/// active session with the notice for an invalid type, and with no upload:
/// nothing is planned, stored or entered for it. The session stays as it is.
pub proof fn lemma_unknown_type_is_refused(session: Session, raw: RawAction, now: u64)
    requires
        session.phase == Phase::Active,
        kind_named(raw.file_type@).is_none(),
    ensures
        session.reaction_to(Frame::Text(Some(raw))) == ReactionView::Notice(INVALID_TYPE@),
        session.after_frame(Frame::Text(Some(raw)), now) == session,
{
}

/// A request of a known `type` whose name is no plain file name is answered
/// by an active session with the notice for an invalid name, and with no
/// upload. The session stays as it is.
pub proof fn lemma_unfit_name_is_refused(session: Session, raw: RawAction, now: u64)
    requires
        session.phase == Phase::Active,
        kind_named(raw.file_type@).is_some(),
        !is_plain_name(raw.name@),
    ensures
        session.reaction_to(Frame::Text(Some(raw))) == ReactionView::Notice(INVALID_NAME@),
        session.after_frame(Frame::Text(Some(raw)), now) == session,
{
}

/// Something that happens to a session: a timer tick, or a frame that
/// arrives, each with its time.
pub enum Event {
    Tick(u64),
    Arrival(Frame, u64),
}

/// The session after one event.
pub open spec fn after_event(session: Session, event: Event) -> Session {
    match event {
        Event::Tick(now) => session.after_beat(now),
        Event::Arrival(frame, now) => session.after_frame(frame, now),
    }
}

/// The session after a run of events, the first of them first.
pub open spec fn after_events(session: Session, events: Seq<Event>) -> Session
    decreases events.len(),
{
    if events.len() == 0 {
        session
    } else {
        after_event(after_events(session, events.drop_last()), events.last())
    }
}

/// Whether, in the run of `events` from `session`, the peer is in time at
/// every tick, and no frame closes or breaks the connection.
pub open spec fn peer_keeps_up(session: Session, events: Seq<Event>) -> bool {
    forall|i: int|
        0 <= i < events.len() ==> match #[trigger] events[i] {
            Event::Tick(now) => !after_events(session, events.take(i)).timed_out(now),
            Event::Arrival(frame, _) => frame.leads_to() == Phase::Active,
        }
}

/// A terminated session stays terminated, and unchanged, whatever happens.
pub proof fn lemma_terminated_is_final(session: Session, events: Seq<Event>)
    requires
        session.phase == Phase::Terminated,
    ensures
        after_events(session, events) == session,
    decreases events.len(),
{
    if events.len() > 0 {
        lemma_terminated_is_final(session, events.drop_last());
    }
}

/// An active session whose peer is in time at every tick stays active, for
/// as long as no frame closes or breaks the connection.
pub proof fn lemma_responsive_peer_stays_connected(session: Session, events: Seq<Event>)
    requires
        session.phase == Phase::Active,
        peer_keeps_up(session, events),
    ensures
        after_events(session, events).phase == Phase::Active,
    decreases events.len(),
{
    if events.len() > 0 {
        let before = events.drop_last();
        assert forall|i: int| 0 <= i < before.len() implies match #[trigger] before[i] {
            Event::Tick(now) => !after_events(session, before.take(i)).timed_out(now),
            Event::Arrival(frame, _) => frame.leads_to() == Phase::Active,
        } by {
            assert(before[i] == events[i]);
            assert(before.take(i) =~= events.take(i));
        }
        lemma_responsive_peer_stays_connected(session, before);
        let last = events.len() - 1;
        assert(events.take(last) =~= before);
        assert(events[last] == events.last());
    }
}

/// The time of tick number `k`, counted from zero, when the first tick
/// comes at `first` and one follows every heartbeat interval.
pub open spec fn tick_time(first: u64, k: nat) -> int {
    first + k * HEARTBEAT_INTERVAL
}

/// The first `count` ticks of that schedule.
pub open spec fn ticks(first: u64, count: nat) -> Seq<Event> {
    Seq::new(count, |k: int| Event::Tick(tick_time(first, k as nat) as u64))
}

/// The number of the first tick that finds the peer silent for longer than
/// the timeout, when the peer's last sign of life came at `last_heartbeat`.
pub open spec fn first_late_tick(last_heartbeat: u64, first: u64) -> nat {
    if first > last_heartbeat + CLIENT_TIMEOUT {
        0
    } else {
        ((last_heartbeat + CLIENT_TIMEOUT - first) / (HEARTBEAT_INTERVAL as int) + 1) as nat
    }
}

proof fn lemma_early_ticks_change_nothing(session: Session, first: u64, count: nat)
    requires
        session.phase == Phase::Active,
        count <= first_late_tick(session.last_heartbeat, first),
        tick_time(first, count) <= u64::MAX,
    ensures
        after_events(session, ticks(first, count)) == session,
    decreases count,
{
    if count > 0 {
        let fewer = (count - 1) as nat;
        lemma_early_ticks_change_nothing(session, first, fewer);
        assert(ticks(first, count).drop_last() =~= ticks(first, fewer));
        assert(ticks(first, count).last() == Event::Tick(tick_time(first, fewer) as u64));
    }
}

/// A peer that gives no sign of life is dropped by the first tick that
/// comes more than the timeout after its last one: the session is active up
/// to that tick and terminated by it. Where the first tick comes no later
/// than one interval after the timeout has run out, so does that tick.
pub proof fn lemma_silent_peer_is_dropped(session: Session, first: u64)
    requires
        session.phase == Phase::Active,
        tick_time(first, first_late_tick(session.last_heartbeat, first)) <= u64::MAX,
    ensures
        ({
            let late = first_late_tick(session.last_heartbeat, first);
            let deadline = session.last_heartbeat + CLIENT_TIMEOUT;
            &&& after_events(session, ticks(first, late)).phase == Phase::Active
            &&& after_events(session, ticks(first, late + 1)).phase == Phase::Terminated
            &&& tick_time(first, late) > deadline
            &&& first <= deadline + HEARTBEAT_INTERVAL ==> tick_time(first, late) <= deadline
                + HEARTBEAT_INTERVAL
        }),
{
    let late = first_late_tick(session.last_heartbeat, first);
    lemma_early_ticks_change_nothing(session, first, late);
    assert(ticks(first, late + 1).drop_last() =~= ticks(first, late));
    assert(ticks(first, late + 1).last() == Event::Tick(tick_time(first, late) as u64));
}

} // verus!
