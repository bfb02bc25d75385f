//! Properties of a reconciliation pass, proved of its transition function.

use vstd::prelude::*;
use crate::model::{DnsRecordView, ErrorView, TransportKind};
use crate::provider::{AddressFamily, family_of};
use crate::reconcile::{ActionView, EventView, OutcomeView, Phase, ReconcilerView};

verus! {

/// A detected address equal to the stored content settles the record as
/// already current, and no update is requested.
pub proof fn lemma_equal_address_is_no_op(
    s: ReconcilerView,
    record: DnsRecordView,
    family: AddressFamily,
    address: Seq<char>,
)
    requires
        s.wf(),
        s.phase == (Phase::Detecting { record, family }),
        address == record.content,
    ensures
        ({
            let (t, o, a) = s.step(EventView::Detected(Ok(address)));
            &&& o == Some(OutcomeView::AlreadyCurrent { id: record.id, address })
            &&& !(a is Update)
            &&& !(t.phase is Updating)
        }),
{
}

/// A detected address that differs from the stored content is written with
/// exactly one update, addressed by the record's own zone and id; once it
/// succeeds the outcome reports the stored content before and the detected
/// address after, and no further update for the record follows.
pub proof fn lemma_changed_address_is_updated_once(
    s: ReconcilerView,
    record: DnsRecordView,
    family: AddressFamily,
    address: Seq<char>,
    echoed: DnsRecordView,
)
    requires
        s.wf(),
        s.phase == (Phase::Detecting { record, family }),
        address != record.content,
    ensures
        ({
            let (t, o, a) = s.step(EventView::Detected(Ok(address)));
            let (u, p, b) = t.step(EventView::Updated(Ok(echoed)));
            &&& o is None
            &&& a == (ActionView::Update {
                zone_id: record.zone_id,
                record_id: record.id,
                content: address,
            })
            &&& p == Some(OutcomeView::Updated { id: record.id, old: record.content, new: address })
            &&& !(b is Update)
            &&& u.next == s.next + 1
        }),
{
}

/// An `A` record is compared against the IPv4 lookup, an `AAAA` record
/// against the IPv6 lookup, and no other lookup is requested for it.
pub proof fn lemma_record_type_selects_family(s: ReconcilerView, record: DnsRecordView)
    requires
        s.wf(),
        s.phase is Fetching,
    ensures
        record.record_type == "A"@ ==> s.step(EventView::Fetched(Ok(record))).2 == (ActionView::Detect {
            family: AddressFamily::Ipv4,
        }),
        record.record_type == "AAAA"@ ==> s.step(EventView::Fetched(Ok(record))).2 == (ActionView::Detect {
            family: AddressFamily::Ipv6,
        }),
{
    reveal_strlit("A");
    reveal_strlit("AAAA");
    assert("AAAA"@.len() != "A"@.len());
}

/// A record whose type is neither `A` nor `AAAA` aborts the pass before any
/// lookup or update for it, and the pass accepts nothing after that.
pub proof fn lemma_unsupported_type_aborts(s: ReconcilerView, record: DnsRecordView)
    requires
        s.wf(),
        s.phase is Fetching,
        record.record_type != "A"@,
        record.record_type != "AAAA"@,
    ensures
        ({
            let (t, o, a) = s.step(EventView::Fetched(Ok(record)));
            &&& a == (ActionView::Abort {
                record_id: s.current_id(),
                error: ErrorView::UnsupportedRecordType(record.record_type),
            })
            &&& o is None
            &&& t.is_done()
            &&& forall|e: EventView| !t.accepts(e)
        }),
{
    assert(family_of(record.record_type) is None);
}

/// When no connection can be established for the record's family, the record
/// is skipped without an update and the pass goes on with the next identifier.
pub proof fn lemma_unavailable_family_skips(
    s: ReconcilerView,
    record: DnsRecordView,
    family: AddressFamily,
    detail: Seq<char>,
)
    requires
        s.wf(),
        s.phase == (Phase::Detecting { record, family }),
    ensures
        ({
            let (t, o, a) = s.step(
                EventView::Detected(Err(ErrorView::Request(TransportKind::ConnectionFailed, detail))),
            );
            &&& o == Some(OutcomeView::Unavailable { id: record.id, family })
            &&& t.next == s.next + 1
            &&& t.next < s.record_ids.len() ==> a == (ActionView::Fetch {
                zone_id: s.zone_id,
                record_id: s.record_ids[t.next as int],
            })
            &&& t.next == s.record_ids.len() ==> a == ActionView::Finish && t.phase is Finished
        }),
{
}

/// Any other failure of the lookup aborts the pass: no further identifier
/// is fetched.
pub proof fn lemma_other_lookup_failure_aborts(
    s: ReconcilerView,
    record: DnsRecordView,
    family: AddressFamily,
    error: ErrorView,
)
    requires
        s.wf(),
        s.phase == (Phase::Detecting { record, family }),
        !(error matches ErrorView::Request(TransportKind::ConnectionFailed, _)),
    ensures
        ({
            let (t, o, a) = s.step(EventView::Detected(Err(error)));
            &&& a == (ActionView::Abort { record_id: s.current_id(), error })
            &&& o is None
            &&& t.is_done()
            &&& t.next == s.next
            &&& forall|e: EventView| !t.accepts(e)
        }),
{
}

/// A pass handles its identifiers one at a time and in order: each step keeps
/// the zone and the list, moves to at most the next identifier, and every
/// fetch it requests is for the identifier it then waits on.
pub proof fn lemma_identifiers_in_order(s: ReconcilerView, e: EventView)
    requires
        s.wf(),
        s.accepts(e),
    ensures
        ({
            let (t, o, a) = s.step(e);
            &&& t.wf()
            &&& t.zone_id == s.zone_id
            &&& t.record_ids == s.record_ids
            &&& t.next == s.next || t.next == s.next + 1
            &&& a is Fetch ==> t.phase is Fetching && a == (ActionView::Fetch {
                zone_id: s.zone_id,
                record_id: t.current_id(),
            })
        }),
{
}

} // verus!
