//! One reconciliation pass over a list of record identifiers, as a state
//! machine: the caller performs each requested action and feeds back what it
//! returned.

use vstd::prelude::*;
use crate::model::{
    DnsRecord, DnsRecordView, Error, ErrorView, InputDnsRecord, TransportKind, record_result_view,
    text_result_view,
};
use crate::provider::{AddressFamily, address_family, family_of};

verus! {

/// What the caller must do next.
#[derive(Debug)]
pub enum Action {
    /// Fetch record `record_id` of zone `zone_id`.
    Fetch { zone_id: String, record_id: String },
    /// Detect the public address of `family`.
    Detect { family: AddressFamily },
    /// Overwrite record `record_id` of zone `zone_id` with `update`.
    Update { zone_id: String, record_id: String, update: InputDnsRecord },
    /// Every identifier has been handled.
    Finish,
    /// The pass stops at `record_id` because of `error`.
    Abort { record_id: String, error: Error },
}

/// The result of the action last requested.
#[derive(Debug)]
pub enum Event {
    Fetched(Result<DnsRecord, Error>),
    Detected(Result<String, Error>),
    Updated(Result<DnsRecord, Error>),
}

/// How one record was settled.
#[derive(Debug)]
pub enum Outcome {
    /// The record held `old` and now holds `new`.
    Updated { id: String, old: String, new: String },
    /// The record already held the detected `address`.
    AlreadyCurrent { id: String, address: String },
    /// The host has no connectivity for `family`; the record was left alone.
    Unavailable { id: String, family: AddressFamily },
}

/// Where a pass stands.
enum Stage {
    Fetching,
    Detecting { record: DnsRecord, family: AddressFamily },
    Updating { record: DnsRecord, content: String },
    Finished,
    Aborted,
}

/// A reconciliation pass in progress.
pub struct Reconciler {
    zone_id: String,
    record_ids: Vec<String>,
    next: usize,
    stage: Stage,
}

/// Model of an action.
pub enum ActionView {
    Fetch { zone_id: Seq<char>, record_id: Seq<char> },
    Detect { family: AddressFamily },
    Update { zone_id: Seq<char>, record_id: Seq<char>, content: Seq<char> },
    Finish,
    Abort { record_id: Seq<char>, error: ErrorView },
}

/// Model of an event.
pub enum EventView {
    Fetched(Result<DnsRecordView, ErrorView>),
    Detected(Result<Seq<char>, ErrorView>),
    Updated(Result<DnsRecordView, ErrorView>),
}

/// Model of an outcome.
pub enum OutcomeView {
    Updated { id: Seq<char>, old: Seq<char>, new: Seq<char> },
    AlreadyCurrent { id: Seq<char>, address: Seq<char> },
    Unavailable { id: Seq<char>, family: AddressFamily },
}

/// Model of where a pass stands.
pub enum Phase {
    /// Waiting for the record at `next` to be fetched.
    Fetching,
    /// Waiting for the address of `family`, to compare with `record`.
    Detecting { record: DnsRecordView, family: AddressFamily },
    /// Waiting for `record` to be overwritten with `content`.
    Updating { record: DnsRecordView, content: Seq<char> },
    /// Every identifier has been handled.
    Finished,
    /// The pass stopped on a fatal error.
    Aborted,
}

/// Model of a pass.
pub struct ReconcilerView {
    pub zone_id: Seq<char>,
    pub record_ids: Seq<Seq<char>>,
    /// Index of the identifier being handled.
    pub next: nat,
    pub phase: Phase,
}

impl View for Action {
    type V = ActionView;

    open spec fn view(&self) -> ActionView {
        match self {
            Action::Fetch { zone_id, record_id } => ActionView::Fetch {
                zone_id: zone_id@,
                record_id: record_id@,
            },
            Action::Detect { family } => ActionView::Detect { family: *family },
            Action::Update { zone_id, record_id, update } => ActionView::Update {
                zone_id: zone_id@,
                record_id: record_id@,
                content: update.content@,
            },
            Action::Finish => ActionView::Finish,
            Action::Abort { record_id, error } => ActionView::Abort {
                record_id: record_id@,
                error: error@,
            },
        }
    }
}

impl View for Event {
    type V = EventView;

    open spec fn view(&self) -> EventView {
        match self {
            Event::Fetched(r) => EventView::Fetched(record_result_view(*r)),
            Event::Detected(r) => EventView::Detected(text_result_view(*r)),
            Event::Updated(r) => EventView::Updated(record_result_view(*r)),
        }
    }
}

impl View for Outcome {
    type V = OutcomeView;

    open spec fn view(&self) -> OutcomeView {
        match self {
            Outcome::Updated { id, old, new } => OutcomeView::Updated {
                id: id@,
                old: old@,
                new: new@,
            },
            Outcome::AlreadyCurrent { id, address } => OutcomeView::AlreadyCurrent {
                id: id@,
                address: address@,
            },
            Outcome::Unavailable { id, family } => OutcomeView::Unavailable {
                id: id@,
                family: *family,
            },
        }
    }
}

/// Model of an optional outcome.
pub open spec fn outcome_view(o: Option<Outcome>) -> Option<OutcomeView> {
    match o {
        Some(x) => Some(x@),
        None => None,
    }
}

impl View for Reconciler {
    type V = ReconcilerView;

    closed spec fn view(&self) -> ReconcilerView {
        ReconcilerView {
            zone_id: self.zone_id@,
            record_ids: self.record_ids@.map_values(|s: String| s@),
            next: self.next as nat,
            phase: match self.stage {
                Stage::Fetching => Phase::Fetching,
                Stage::Detecting { record, family } => Phase::Detecting { record: record@, family },
                Stage::Updating { record, content } => Phase::Updating {
                    record: record@,
                    content: content@,
                },
                Stage::Finished => Phase::Finished,
                Stage::Aborted => Phase::Aborted,
            },
        }
    }
}

impl ReconcilerView {
    /// The pass is consistent: while it waits on an identifier, one is there.
    pub open spec fn wf(self) -> bool {
        match self.phase {
            Phase::Finished | Phase::Aborted => self.next <= self.record_ids.len(),
            _ => self.next < self.record_ids.len(),
        }
    }

    /// The pass has ended.
    pub open spec fn is_done(self) -> bool {
        self.phase is Finished || self.phase is Aborted
    }

    /// Whether `e` answers the action that the pass waits on.
    pub open spec fn accepts(self, e: EventView) -> bool {
        match self.phase {
            Phase::Fetching => e is Fetched,
            Phase::Detecting { .. } => e is Detected,
            Phase::Updating { .. } => e is Updated,
            _ => false,
        }
    }

    /// The identifier being handled.
    pub open spec fn current_id(self) -> Seq<char> {
        self.record_ids[self.next as int]
    }

    /// The state after the identifier at `next` has been settled, and the
    /// action that then follows: fetch the next identifier, or finish.
    pub open spec fn advanced(self) -> (ReconcilerView, ActionView) {
        let i = self.next + 1;
        if i < self.record_ids.len() {
            (
                ReconcilerView { next: i, phase: Phase::Fetching, ..self },
                ActionView::Fetch { zone_id: self.zone_id, record_id: self.record_ids[i as int] },
            )
        } else {
            (ReconcilerView { next: i, phase: Phase::Finished, ..self }, ActionView::Finish)
        }
    }

    /// The state after a fatal error, and the action that reports it.
    pub open spec fn aborted(self, error: ErrorView) -> (ReconcilerView, ActionView) {
        (
            ReconcilerView { phase: Phase::Aborted, ..self },
            ActionView::Abort { record_id: self.current_id(), error },
        )
    }

    /// One transition of the pass: the new state, what was settled, and the next action.
    /// An event that the pass does not accept leaves it as it is.
    pub open spec fn step(self, e: EventView) -> (ReconcilerView, Option<OutcomeView>, ActionView) {
        let id = self.current_id();
        match (self.phase, e) {
            (Phase::Fetching, EventView::Fetched(Err(err))) => {
                let (s, a) = self.aborted(err);
                (s, None, a)
            },
            (Phase::Fetching, EventView::Fetched(Ok(record))) => match family_of(
                record.record_type,
            ) {
                Some(family) => (
                    ReconcilerView { phase: Phase::Detecting { record, family }, ..self },
                    None,
                    ActionView::Detect { family },
                ),
                None => {
                    let (s, a) = self.aborted(ErrorView::UnsupportedRecordType(record.record_type));
                    (s, None, a)
                },
            },
            (
                Phase::Detecting { record, family },
                EventView::Detected(Err(ErrorView::Request(TransportKind::ConnectionFailed, _))),
            ) => {
                let (s, a) = self.advanced();
                (s, Some(OutcomeView::Unavailable { id: record.id, family }), a)
            },
            (Phase::Detecting { .. }, EventView::Detected(Err(err))) => {
                let (s, a) = self.aborted(err);
                (s, None, a)
            },
            (Phase::Detecting { record, .. }, EventView::Detected(Ok(address))) => {
                if address == record.content {
                    let (s, a) = self.advanced();
                    (s, Some(OutcomeView::AlreadyCurrent { id: record.id, address }), a)
                } else {
                    (
                        ReconcilerView {
                            phase: Phase::Updating { record, content: address },
                            ..self
                        },
                        None,
                        ActionView::Update {
                            zone_id: record.zone_id,
                            record_id: record.id,
                            content: address,
                        },
                    )
                }
            },
            (Phase::Updating { .. }, EventView::Updated(Err(err))) => {
                let (s, a) = self.aborted(err);
                (s, None, a)
            },
            (Phase::Updating { record, content }, EventView::Updated(Ok(_))) => {
                let (s, a) = self.advanced();
                (s, Some(OutcomeView::Updated { id: record.id, old: record.content, new: content }), a)
            },
            _ => (self, None, ActionView::Finish),
        }
    }
}

impl Reconciler {
    /// A pass over `record_ids`, in order, in zone `zone_id`.
    pub fn new(zone_id: String, record_ids: Vec<String>) -> (r: Self)
        ensures
            r@.zone_id == zone_id@,
            r@.record_ids == record_ids@.map_values(|s: String| s@),
            r@.next == 0,
            r@.phase == (if record_ids@.len() == 0 {
                Phase::Finished
            } else {
                Phase::Fetching
            }),
            r@.wf(),
    {
        let stage = if record_ids.len() == 0 {
            Stage::Finished
        } else {
            Stage::Fetching
        };
        Reconciler { zone_id, record_ids, next: 0, stage }
    }

    /// The action that opens the pass: fetch the first record, or finish at once.
    pub fn first_action(&self) -> (a: Action)
        requires
            self@.wf(),
            self@.phase is Fetching || self@.phase is Finished,
        ensures
            self@.phase is Fetching ==> a@ == (ActionView::Fetch {
                zone_id: self@.zone_id,
                record_id: self@.current_id(),
            }),
            self@.phase is Finished ==> a@ == ActionView::Finish,
    {
        match self.stage {
            Stage::Fetching => Action::Fetch {
                zone_id: self.zone_id.clone(),
                record_id: self.record_ids[self.next].clone(),
            },
            _ => Action::Finish,
        }
    }

    /// Whether the pass has ended.
    pub fn is_done(&self) -> (r: bool)
        ensures
            r == self@.is_done(),
    {
        match self.stage {
            Stage::Finished | Stage::Aborted => true,
            _ => false,
        }
    }

    /// Whether `e` answers the action that the pass waits on.
    pub fn accepts(&self, e: &Event) -> (r: bool)
        ensures
            r == self@.accepts(e@),
    {
        match (&self.stage, e) {
            (Stage::Fetching, Event::Fetched(_)) => true,
            (Stage::Detecting { .. }, Event::Detected(_)) => true,
            (Stage::Updating { .. }, Event::Updated(_)) => true,
            _ => false,
        }
    }

    /// Settles the identifier being handled and moves to the next one.
    fn advance(&mut self) -> (a: Action)
        requires
            old(self).next < old(self).record_ids@.len(),
        ensures
            (final(self)@, a@) == old(self)@.advanced(),
            final(self)@.wf(),
    {
        let n = self.record_ids.len();
        self.next = self.next + 1;
        if self.next < n {
            self.stage = Stage::Fetching;
            Action::Fetch {
                zone_id: self.zone_id.clone(),
                record_id: self.record_ids[self.next].clone(),
            }
        } else {
            self.stage = Stage::Finished;
            Action::Finish
        }
    }

    /// Stops the pass on `error`.
    fn abort(&mut self, error: Error) -> (a: Action)
        requires
            old(self).next < old(self).record_ids@.len(),
        ensures
            (final(self)@, a@) == old(self)@.aborted(error@),
            final(self)@.wf(),
    {
        self.stage = Stage::Aborted;
        Action::Abort { record_id: self.record_ids[self.next].clone(), error }
    }

    /// Takes the result of the action last requested, and returns what it
    /// settled, if anything, with the action to perform next.
    pub fn step(&mut self, event: Event) -> (r: (Option<Outcome>, Action))
        requires
            old(self)@.wf(),
            old(self)@.accepts(event@),
        ensures
            final(self)@.wf(),
            (final(self)@, outcome_view(r.0), r.1@) == old(self)@.step(event@),
    {
        let mut stage = Stage::Aborted;
        std::mem::swap(&mut self.stage, &mut stage);
        match (stage, event) {
            (Stage::Fetching, Event::Fetched(Err(e))) => (None, self.abort(e)),
            (Stage::Fetching, Event::Fetched(Ok(record))) => {
                match address_family(record.record_type.as_str()) {
                    Ok(family) => {
                        self.stage = Stage::Detecting { record, family };
                        (None, Action::Detect { family })
                    },
                    Err(e) => (None, self.abort(e)),
                }
            },
            (Stage::Detecting { record, family }, Event::Detected(Err(e))) => {
                match e {
                    Error::Request(TransportKind::ConnectionFailed, _) => {
                        let a = self.advance();
                        (Some(Outcome::Unavailable { id: record.id, family }), a)
                    },
                    _ => (None, self.abort(e)),
                }
            },
            (Stage::Detecting { record, .. }, Event::Detected(Ok(address))) => {
                if address == record.content {
                    let a = self.advance();
                    (Some(Outcome::AlreadyCurrent { id: record.id, address }), a)
                } else {
                    let a = Action::Update {
                        zone_id: record.zone_id.clone(),
                        record_id: record.id.clone(),
                        update: InputDnsRecord { content: address.clone() },
                    };
                    self.stage = Stage::Updating { record, content: address };
                    (None, a)
                }
            },
            (Stage::Updating { .. }, Event::Updated(Err(e))) => (None, self.abort(e)),
            (Stage::Updating { record, content }, Event::Updated(Ok(_))) => {
                let a = self.advance();
                (Some(Outcome::Updated { id: record.id, old: record.content, new: content }), a)
            },
            (_, _) => {
                assert(false);
                (None, Action::Finish)
            },
        }
    }
}

} // verus!
