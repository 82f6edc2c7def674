//! The poller's one operation: bring the DNS record in line with the public
//! address, and touch the provider only where the two differ.
//!
//! A pass is a small machine. It hands out one action at a time, takes the
//! outcome of that action as an event, and ends with a result. What it
//! decides is stated here once, for every sequence of events.

use crate::dns_service::{DnsService, DnsServiceError};
use crate::ipv4::Ipv4Addr;
use crate::public_ip_service::{PublicIpService, PublicIpServiceError, PublicIpServiceErrorView};
use vstd::prelude::*;

verus! {

/// Why a pass failed: which side broke, and how.
#[derive(Clone, Debug, PartialEq, Eq)]
pub enum DynDnsServiceError {
    /// An event came in that the pass was not waiting for.
    UnknownError,
    /// The source of the public address failed.
    PublicIpServiceError { source: PublicIpServiceError },
    /// The DNS side failed.
    DnsServiceError { source: DnsServiceError },
}

/// The mathematical model of a [`DynDnsServiceError`].
pub enum DynDnsServiceErrorView {
    UnknownError,
    PublicIpServiceError { source: PublicIpServiceErrorView },
    DnsServiceError { source: DnsServiceError },
}

impl View for DynDnsServiceError {
    type V = DynDnsServiceErrorView;

    open spec fn view(&self) -> DynDnsServiceErrorView {
        match self {
            DynDnsServiceError::UnknownError => DynDnsServiceErrorView::UnknownError,
            DynDnsServiceError::PublicIpServiceError { source } => {
                DynDnsServiceErrorView::PublicIpServiceError { source: source@ }
            },
            DynDnsServiceError::DnsServiceError { source } => {
                DynDnsServiceErrorView::DnsServiceError { source: *source }
            },
        }
    }
}

impl DeepView for DynDnsServiceError {
    type V = DynDnsServiceErrorView;

    open spec fn deep_view(&self) -> DynDnsServiceErrorView {
        self@
    }
}

impl From<PublicIpServiceError> for DynDnsServiceError {
    fn from(source: PublicIpServiceError) -> (mapped: DynDnsServiceError) {
        DynDnsServiceError::PublicIpServiceError { source }
    }
}

impl vstd::std_specs::convert::FromSpecImpl<PublicIpServiceError> for DynDnsServiceError {
    open spec fn obeys_from_spec() -> bool {
        true
    }

    open spec fn from_spec(source: PublicIpServiceError) -> DynDnsServiceError {
        DynDnsServiceError::PublicIpServiceError { source }
    }
}

impl From<DnsServiceError> for DynDnsServiceError {
    fn from(source: DnsServiceError) -> (mapped: DynDnsServiceError) {
        DynDnsServiceError::DnsServiceError { source }
    }
}

impl vstd::std_specs::convert::FromSpecImpl<DnsServiceError> for DynDnsServiceError {
    open spec fn obeys_from_spec() -> bool {
        true
    }

    open spec fn from_spec(source: DnsServiceError) -> DynDnsServiceError {
        DynDnsServiceError::DnsServiceError { source }
    }
}

/// Where a pass stands: which outcome it waits for.
#[derive(Clone, Copy, Debug, PartialEq, Eq, Structural)]
pub enum SyncState {
    /// The record's current address has been asked for.
    ResolvingRecord,
    /// The record holds `current`, and the public address has been asked
    /// for.
    ObservingAddress { current: Option<Ipv4Addr> },
    /// The update has been asked for.
    Updating,
    /// The pass is over.
    Finished,
}

/// The outcome of the action that a pass handed out last.
#[derive(Debug, PartialEq, Eq)]
pub enum SyncEvent {
    RecordResolved { outcome: Result<Option<Ipv4Addr>, DnsServiceError> },
    AddressObserved { outcome: Result<Ipv4Addr, PublicIpServiceError> },
    RecordUpdated { outcome: Result<(), DnsServiceError> },
}

/// The mathematical model of a [`SyncEvent`].
pub enum SyncEventView {
    RecordResolved { outcome: Result<Option<Ipv4Addr>, DnsServiceError> },
    AddressObserved { outcome: Result<Ipv4Addr, PublicIpServiceErrorView> },
    RecordUpdated { outcome: Result<(), DnsServiceError> },
}

impl View for SyncEvent {
    type V = SyncEventView;

    open spec fn view(&self) -> SyncEventView {
        match self {
            SyncEvent::RecordResolved { outcome } => SyncEventView::RecordResolved {
                outcome: *outcome,
            },
            SyncEvent::AddressObserved { outcome } => SyncEventView::AddressObserved {
                outcome: match outcome {
                    Ok(ip) => Ok(*ip),
                    Err(error) => Err(error@),
                },
            },
            SyncEvent::RecordUpdated { outcome } => SyncEventView::RecordUpdated {
                outcome: *outcome,
            },
        }
    }
}

/// What a pass asks for next.
#[derive(Debug, PartialEq, Eq)]
pub enum SyncAction {
    /// Ask the DNS side for the record's current address.
    ResolveRecord,
    /// Ask the address source for the public address.
    ObserveAddress,
    /// Ask the DNS side to set the record to `ip`.
    UpdateRecord { ip: Ipv4Addr },
    /// Nothing more: the pass ends with `outcome`.
    Finish { outcome: Result<(), DynDnsServiceError> },
}

/// The mathematical model of a [`SyncAction`].
pub enum SyncActionView {
    ResolveRecord,
    ObserveAddress,
    UpdateRecord { ip: Ipv4Addr },
    Finish { outcome: Result<(), DynDnsServiceErrorView> },
}

impl View for SyncAction {
    type V = SyncActionView;

    open spec fn view(&self) -> SyncActionView {
        match self {
            SyncAction::ResolveRecord => SyncActionView::ResolveRecord,
            SyncAction::ObserveAddress => SyncActionView::ObserveAddress,
            SyncAction::UpdateRecord { ip } => SyncActionView::UpdateRecord { ip: *ip },
            SyncAction::Finish { outcome } => SyncActionView::Finish {
                outcome: match outcome {
                    Ok(_) => Ok(()),
                    Err(error) => Err(error@),
                },
            },
        }
    }
}

/// Whether a record that holds `current` has to be set to `observed`: it has
/// where there is no record value yet, or another one.
pub open spec fn needs_update(current: Option<Ipv4Addr>, observed: Ipv4Addr) -> bool {
    current != Some(observed)
}

/// A pass that ends with a failure of the DNS side.
pub open spec fn dns_failure(source: DnsServiceError) -> SyncActionView {
    SyncActionView::Finish { outcome: Err(DynDnsServiceErrorView::DnsServiceError { source }) }
}

/// A pass that ends with a failure of the address source.
pub open spec fn address_failure(source: PublicIpServiceErrorView) -> SyncActionView {
    SyncActionView::Finish {
        outcome: Err(DynDnsServiceErrorView::PublicIpServiceError { source }),
    }
}

/// A pass that ends well.
pub open spec fn success() -> SyncActionView {
    SyncActionView::Finish { outcome: Ok(()) }
}

/// How a pass starts: it waits for the record's current address.
pub open spec fn sync_first() -> (SyncState, SyncActionView) {
    (SyncState::ResolvingRecord, SyncActionView::ResolveRecord)
}

/// How a pass goes on from `state` when `event` comes in.
pub open spec fn sync_next(state: SyncState, event: SyncEventView) -> (SyncState, SyncActionView) {
    match (state, event) {
        (SyncState::ResolvingRecord, SyncEventView::RecordResolved { outcome: Ok(current) }) => (
            SyncState::ObservingAddress { current },
            SyncActionView::ObserveAddress,
        ),
        (SyncState::ResolvingRecord, SyncEventView::RecordResolved { outcome: Err(source) }) => (
            SyncState::Finished,
            dns_failure(source),
        ),
        (
            SyncState::ObservingAddress { current },
            SyncEventView::AddressObserved { outcome: Ok(observed) },
        ) => if needs_update(current, observed) {
            (SyncState::Updating, SyncActionView::UpdateRecord { ip: observed })
        } else {
            (SyncState::Finished, success())
        },
        (
            SyncState::ObservingAddress { .. },
            SyncEventView::AddressObserved { outcome: Err(source) },
        ) => (SyncState::Finished, address_failure(source)),
        (SyncState::Updating, SyncEventView::RecordUpdated { outcome: Ok(_) }) => (
            SyncState::Finished,
            success(),
        ),
        (SyncState::Updating, SyncEventView::RecordUpdated { outcome: Err(source) }) => (
            SyncState::Finished,
            dns_failure(source),
        ),
        _ => (
            SyncState::Finished,
            SyncActionView::Finish { outcome: Err(DynDnsServiceErrorView::UnknownError) },
        ),
    }
}

/// The actions that a pass in `state` hands out as `events` come in, one for
/// each event until the pass is over.
pub open spec fn sync_run(state: SyncState, events: Seq<SyncEventView>) -> Seq<SyncActionView>
    decreases events.len(),
{
    if events.len() == 0 || state is Finished {
        Seq::empty()
    } else {
        let (next, action) = sync_next(state, events[0]);
        seq![action] + sync_run(next, events.drop_first())
    }
}

/// All the actions of a pass that meets `events`, from its first one on.
pub open spec fn sync_pass(events: Seq<SyncEventView>) -> Seq<SyncActionView> {
    seq![sync_first().1] + sync_run(sync_first().0, events)
}

/// The addresses that the update actions among `actions` carry, in order.
pub open spec fn updates_in(actions: Seq<SyncActionView>) -> Seq<Ipv4Addr>
    decreases actions.len(),
{
    if actions.len() == 0 {
        Seq::empty()
    } else {
        let rest = updates_in(actions.drop_last());
        match actions.last() {
            SyncActionView::UpdateRecord { ip } => rest.push(ip),
            _ => rest,
        }
    }
}

/// How many events a pass in `state` can still take.
pub open spec fn steps_left(state: SyncState) -> nat {
    match state {
        SyncState::ResolvingRecord => 3,
        SyncState::ObservingAddress { .. } => 2,
        SyncState::Updating => 1,
        SyncState::Finished => 0,
    }
}

/// Whether `action` is what a pass in `state` has handed out.
pub open spec fn awaited(state: SyncState, action: SyncActionView) -> bool {
    match state {
        SyncState::ResolvingRecord => action is ResolveRecord,
        SyncState::ObservingAddress { .. } => action is ObserveAddress,
        SyncState::Updating => action is UpdateRecord,
        SyncState::Finished => action is Finish,
    }
}

impl SyncState {
    /// Starts a pass: the record's current address is asked for first.
    pub fn begin() -> (first: (SyncState, SyncAction))
        ensures
            (first.0, first.1@) == sync_first(),
    {
        (SyncState::ResolvingRecord, SyncAction::ResolveRecord)
    }

    /// Takes the pass one step on: `event` is the outcome of the action that
    /// was handed out last.
    pub fn advance(self, event: SyncEvent) -> (next: (SyncState, SyncAction))
        ensures
            (next.0, next.1@) == sync_next(self, event@),
    {
        match (self, event) {
            (SyncState::ResolvingRecord, SyncEvent::RecordResolved { outcome: Ok(current) }) => (
                SyncState::ObservingAddress { current },
                SyncAction::ObserveAddress,
            ),
            (SyncState::ResolvingRecord, SyncEvent::RecordResolved { outcome: Err(source) }) => (
                SyncState::Finished,
                SyncAction::Finish { outcome: Err(DynDnsServiceError::DnsServiceError { source }) },
            ),
            (
                SyncState::ObservingAddress { current },
                SyncEvent::AddressObserved { outcome: Ok(observed) },
            ) => {
                let unchanged = match current {
                    Some(held) => held == observed,
                    None => false,
                };
                if unchanged {
                    (SyncState::Finished, SyncAction::Finish { outcome: Ok(()) })
                } else {
                    (SyncState::Updating, SyncAction::UpdateRecord { ip: observed })
                }
            },
            (
                SyncState::ObservingAddress { .. },
                SyncEvent::AddressObserved { outcome: Err(source) },
            ) => (
                SyncState::Finished,
                SyncAction::Finish {
                    outcome: Err(DynDnsServiceError::PublicIpServiceError { source }),
                },
            ),
            (SyncState::Updating, SyncEvent::RecordUpdated { outcome: Ok(_) }) => (
                SyncState::Finished,
                SyncAction::Finish { outcome: Ok(()) },
            ),
            (SyncState::Updating, SyncEvent::RecordUpdated { outcome: Err(source) }) => (
                SyncState::Finished,
                SyncAction::Finish { outcome: Err(DynDnsServiceError::DnsServiceError { source }) },
            ),
            _ => (
                SyncState::Finished,
                SyncAction::Finish { outcome: Err(DynDnsServiceError::UnknownError) },
            ),
        }
    }

    /// Whether the pass is over.
    pub fn is_finished(&self) -> (over: bool)
        ensures
            over == (*self is Finished),
    {
        match self {
            SyncState::Finished => true,
            _ => false,
        }
    }
}

/// The updates among one action.
pub proof fn lemma_updates_in_one(action: SyncActionView)
    ensures
        updates_in(seq![action]) == match action {
            SyncActionView::UpdateRecord { ip } => seq![ip],
            _ => Seq::<Ipv4Addr>::empty(),
        },
{
    let one = seq![action];
    assert(one.drop_last() =~= Seq::<SyncActionView>::empty());
    assert(updates_in(one.drop_last()) =~= Seq::<Ipv4Addr>::empty());
    match action {
        SyncActionView::UpdateRecord { ip } => {
            assert(updates_in(one) =~= seq![ip]);
        },
        _ => {},
    }
}

/// The updates among two runs of actions, one after the other, are those of
/// the first and then those of the second.
pub proof fn lemma_updates_in_concat(left: Seq<SyncActionView>, right: Seq<SyncActionView>)
    ensures
        updates_in(left + right) == updates_in(left) + updates_in(right),
    decreases right.len(),
{
    if right.len() == 0 {
        assert(left + right =~= left);
        assert(updates_in(left) + updates_in(right) =~= updates_in(left));
    } else {
        let all = left + right;
        assert(all.drop_last() =~= left + right.drop_last());
        assert(all.last() == right.last());
        lemma_updates_in_concat(left, right.drop_last());
        match right.last() {
            SyncActionView::UpdateRecord { ip } => {
                assert(updates_in(all) =~= updates_in(left) + updates_in(right));
            },
            _ => {},
        }
    }
}

/// Whatever comes in, a pass in `state` hands out no more actions than it has
/// steps left, asks for at most one update, and asks for none once the
/// update has been asked for.
pub proof fn lemma_run_is_bounded(state: SyncState, events: Seq<SyncEventView>)
    ensures
        sync_run(state, events).len() <= steps_left(state),
        sync_run(state, events).len() <= events.len(),
        updates_in(sync_run(state, events)).len() <= 1,
        (state is Updating || state is Finished) ==> updates_in(sync_run(state, events)).len()
            == 0,
    decreases events.len(),
{
    if events.len() == 0 || state is Finished {
        assert(sync_run(state, events) =~= Seq::<SyncActionView>::empty());
    } else {
        let (next, action) = sync_next(state, events[0]);
        let rest = sync_run(next, events.drop_first());
        lemma_run_is_bounded(next, events.drop_first());
        lemma_updates_in_one(action);
        lemma_updates_in_concat(seq![action], rest);
    }
}

/// Every pass starts by asking for the record's address, takes at most three
/// outcomes, and asks for at most one update.
pub proof fn lemma_pass_is_bounded(events: Seq<SyncEventView>)
    ensures
        sync_pass(events)[0] == SyncActionView::ResolveRecord,
        1 <= sync_pass(events).len() <= 4,
        updates_in(sync_pass(events)).len() <= 1,
{
    let run = sync_run(SyncState::ResolvingRecord, events);
    lemma_run_is_bounded(SyncState::ResolvingRecord, events);
    lemma_updates_in_one(SyncActionView::ResolveRecord);
    lemma_updates_in_concat(seq![SyncActionView::ResolveRecord], run);
}

/// An update is only ever asked for as the third action of a pass, after the
/// record's address and the public address have both been obtained, and it
/// carries the address that was observed.
pub proof fn lemma_update_comes_last(events: Seq<SyncEventView>, i: int)
    requires
        0 <= i < sync_pass(events).len(),
        sync_pass(events)[i] is UpdateRecord,
    ensures
        i == 2,
        events.len() >= 2,
        events[0] matches SyncEventView::RecordResolved { outcome: Ok(current) }
            && events[1] matches SyncEventView::AddressObserved { outcome: Ok(observed) }
            && needs_update(current, observed) && sync_pass(events)[2]
            == (SyncActionView::UpdateRecord { ip: observed }),
{
    reveal_with_fuel(sync_run, 4);
    let run = sync_run(SyncState::ResolvingRecord, events);
    lemma_run_is_bounded(SyncState::ResolvingRecord, events);
    if events.len() >= 1 {
        let (s1, a1) = sync_next(SyncState::ResolvingRecord, events[0]);
        let rest1 = events.drop_first();
        lemma_run_is_bounded(s1, rest1);
        if rest1.len() >= 1 && !(s1 is Finished) {
            let (s2, a2) = sync_next(s1, rest1[0]);
            let rest2 = rest1.drop_first();
            lemma_run_is_bounded(s2, rest2);
            if rest2.len() >= 1 && !(s2 is Finished) {
                let (s3, a3) = sync_next(s2, rest2[0]);
                lemma_run_is_bounded(s3, rest2.drop_first());
                assert(sync_run(s3, rest2.drop_first()) =~= Seq::<SyncActionView>::empty());
            }
        }
    }
}

/// The public address is only ever asked for as the second action of a
/// pass, after the record's address has been obtained.
pub proof fn lemma_observation_follows_lookup(events: Seq<SyncEventView>, i: int)
    requires
        0 <= i < sync_pass(events).len(),
        sync_pass(events)[i] is ObserveAddress,
    ensures
        i == 1,
        events.len() >= 1,
        events[0] matches SyncEventView::RecordResolved { outcome: Ok(_) },
{
    reveal_with_fuel(sync_run, 4);
    lemma_run_is_bounded(SyncState::ResolvingRecord, events);
    if events.len() >= 1 {
        let (s1, a1) = sync_next(SyncState::ResolvingRecord, events[0]);
        let rest1 = events.drop_first();
        lemma_run_is_bounded(s1, rest1);
        if rest1.len() >= 1 && !(s1 is Finished) {
            let (s2, a2) = sync_next(s1, rest1[0]);
            let rest2 = rest1.drop_first();
            lemma_run_is_bounded(s2, rest2);
            if rest2.len() >= 1 && !(s2 is Finished) {
                let (s3, a3) = sync_next(s2, rest2[0]);
                lemma_run_is_bounded(s3, rest2.drop_first());
                assert(sync_run(s3, rest2.drop_first()) =~= Seq::<SyncActionView>::empty());
            }
        }
    }
}

/// Where the DNS side cannot resolve the record, as where the provider has
/// no zone for the domain, the pass ends at once with that failure of the
/// DNS side, and no update is asked for.
pub proof fn lemma_failed_lookup_ends_pass(events: Seq<SyncEventView>, source: DnsServiceError)
    requires
        events.len() >= 1,
        events[0] == (SyncEventView::RecordResolved { outcome: Err(source) }),
    ensures
        sync_pass(events) == seq![SyncActionView::ResolveRecord, dns_failure(source)],
        updates_in(sync_pass(events)) == Seq::<Ipv4Addr>::empty(),
{
    reveal_with_fuel(sync_run, 2);
    let pass = seq![SyncActionView::ResolveRecord, dns_failure(source)];
    assert(sync_pass(events) =~= pass);
    lemma_updates_in_one(SyncActionView::ResolveRecord);
    lemma_updates_in_one(dns_failure(source));
    lemma_updates_in_concat(seq![SyncActionView::ResolveRecord], seq![dns_failure(source)]);
    assert(pass =~= seq![SyncActionView::ResolveRecord] + seq![dns_failure(source)]);
}

/// Where the record holds the address that is observed, the pass ends well
/// after the two lookups, and no update is asked for.
pub proof fn lemma_equal_addresses_need_no_update(events: Seq<SyncEventView>, ip: Ipv4Addr)
    requires
        events.len() >= 2,
        events[0] == (SyncEventView::RecordResolved { outcome: Ok(Some(ip)) }),
        events[1] == (SyncEventView::AddressObserved { outcome: Ok(ip) }),
    ensures
        sync_pass(events) == seq![
            SyncActionView::ResolveRecord,
            SyncActionView::ObserveAddress,
            success(),
        ],
        updates_in(sync_pass(events)) == Seq::<Ipv4Addr>::empty(),
{
    reveal_with_fuel(sync_run, 3);
    let pass = seq![SyncActionView::ResolveRecord, SyncActionView::ObserveAddress, success()];
    assert(events.drop_first()[0] == events[1]);
    assert(sync_pass(events) =~= pass);
    lemma_updates_in_one(SyncActionView::ResolveRecord);
    lemma_updates_in_one(SyncActionView::ObserveAddress);
    lemma_updates_in_one(success());
    let head = seq![SyncActionView::ResolveRecord] + seq![SyncActionView::ObserveAddress];
    lemma_updates_in_concat(
        seq![SyncActionView::ResolveRecord],
        seq![SyncActionView::ObserveAddress],
    );
    lemma_updates_in_concat(head, seq![success()]);
    assert(pass =~= head + seq![success()]);
}

/// Where the record holds no address yet, or another one than is observed,
/// exactly one update is asked for, and it carries the observed address.
pub proof fn lemma_differing_addresses_need_one_update(
    events: Seq<SyncEventView>,
    current: Option<Ipv4Addr>,
    observed: Ipv4Addr,
)
    requires
        events.len() >= 2,
        events[0] == (SyncEventView::RecordResolved { outcome: Ok(current) }),
        events[1] == (SyncEventView::AddressObserved { outcome: Ok(observed) }),
        needs_update(current, observed),
    ensures
        sync_pass(events).len() >= 3,
        sync_pass(events).subrange(0, 3) == seq![
            SyncActionView::ResolveRecord,
            SyncActionView::ObserveAddress,
            SyncActionView::UpdateRecord { ip: observed },
        ],
        updates_in(sync_pass(events)) == seq![observed],
{
    reveal_with_fuel(sync_run, 3);
    let head = seq![
        SyncActionView::ResolveRecord,
        SyncActionView::ObserveAddress,
        SyncActionView::UpdateRecord { ip: observed },
    ];
    let rest1 = events.drop_first();
    let rest2 = rest1.drop_first();
    assert(rest1[0] == events[1]);
    let tail = sync_run(SyncState::Updating, rest2);
    assert(sync_pass(events) =~= head + tail);
    assert(sync_pass(events).subrange(0, 3) =~= head);
    lemma_run_is_bounded(SyncState::Updating, rest2);
    lemma_updates_in_one(SyncActionView::ResolveRecord);
    lemma_updates_in_one(SyncActionView::ObserveAddress);
    lemma_updates_in_one(SyncActionView::UpdateRecord { ip: observed });
    let two = seq![SyncActionView::ResolveRecord] + seq![SyncActionView::ObserveAddress];
    lemma_updates_in_concat(
        seq![SyncActionView::ResolveRecord],
        seq![SyncActionView::ObserveAddress],
    );
    lemma_updates_in_concat(two, seq![SyncActionView::UpdateRecord { ip: observed }]);
    assert(head =~= two + seq![SyncActionView::UpdateRecord { ip: observed }]);
    lemma_updates_in_concat(head, tail);
    assert(updates_in(sync_pass(events)) =~= seq![observed]);
}

/// Where the update that a pass asked for succeeds, the pass ends well.
pub proof fn lemma_successful_update_ends_pass(
    events: Seq<SyncEventView>,
    current: Option<Ipv4Addr>,
    observed: Ipv4Addr,
)
    requires
        events.len() >= 3,
        events[0] == (SyncEventView::RecordResolved { outcome: Ok(current) }),
        events[1] == (SyncEventView::AddressObserved { outcome: Ok(observed) }),
        events[2] == (SyncEventView::RecordUpdated { outcome: Ok(()) }),
        needs_update(current, observed),
    ensures
        sync_pass(events) == seq![
            SyncActionView::ResolveRecord,
            SyncActionView::ObserveAddress,
            SyncActionView::UpdateRecord { ip: observed },
            success(),
        ],
{
    reveal_with_fuel(sync_run, 4);
    let rest1 = events.drop_first();
    let rest2 = rest1.drop_first();
    assert(rest1[0] == events[1]);
    assert(rest2[0] == events[2]);
    assert(sync_pass(events) =~= seq![
        SyncActionView::ResolveRecord,
        SyncActionView::ObserveAddress,
        SyncActionView::UpdateRecord { ip: observed },
        success(),
    ]);
}

/// Where the public address cannot be observed, the pass has asked for the
/// record's address first, ends with that failure of the address source, and
/// asks for no update.
pub proof fn lemma_failed_observation_ends_pass(
    events: Seq<SyncEventView>,
    current: Option<Ipv4Addr>,
    source: PublicIpServiceErrorView,
)
    requires
        events.len() >= 2,
        events[0] == (SyncEventView::RecordResolved { outcome: Ok(current) }),
        events[1] == (SyncEventView::AddressObserved { outcome: Err(source) }),
    ensures
        sync_pass(events) == seq![
            SyncActionView::ResolveRecord,
            SyncActionView::ObserveAddress,
            address_failure(source),
        ],
        updates_in(sync_pass(events)) == Seq::<Ipv4Addr>::empty(),
{
    reveal_with_fuel(sync_run, 3);
    let pass = seq![
        SyncActionView::ResolveRecord,
        SyncActionView::ObserveAddress,
        address_failure(source),
    ];
    assert(events.drop_first()[0] == events[1]);
    assert(sync_pass(events) =~= pass);
    lemma_updates_in_one(SyncActionView::ResolveRecord);
    lemma_updates_in_one(SyncActionView::ObserveAddress);
    lemma_updates_in_one(address_failure(source));
    let head = seq![SyncActionView::ResolveRecord] + seq![SyncActionView::ObserveAddress];
    lemma_updates_in_concat(
        seq![SyncActionView::ResolveRecord],
        seq![SyncActionView::ObserveAddress],
    );
    lemma_updates_in_concat(head, seq![address_failure(source)]);
    assert(pass =~= head + seq![address_failure(source)]);
}

/// Where the update itself fails, the pass ends with a failure of the DNS
/// side, which no failure of the address source can be mistaken for.
pub proof fn lemma_failed_update_is_a_dns_failure(
    events: Seq<SyncEventView>,
    current: Option<Ipv4Addr>,
    observed: Ipv4Addr,
    source: DnsServiceError,
)
    requires
        events.len() >= 3,
        events[0] == (SyncEventView::RecordResolved { outcome: Ok(current) }),
        events[1] == (SyncEventView::AddressObserved { outcome: Ok(observed) }),
        events[2] == (SyncEventView::RecordUpdated { outcome: Err(source) }),
        needs_update(current, observed),
    ensures
        sync_pass(events) == seq![
            SyncActionView::ResolveRecord,
            SyncActionView::ObserveAddress,
            SyncActionView::UpdateRecord { ip: observed },
            dns_failure(source),
        ],
        forall|other: PublicIpServiceErrorView| dns_failure(source) != address_failure(other),
{
    reveal_with_fuel(sync_run, 4);
    let rest1 = events.drop_first();
    let rest2 = rest1.drop_first();
    assert(rest1[0] == events[1]);
    assert(rest2[0] == events[2]);
    assert(sync_pass(events) =~= seq![
        SyncActionView::ResolveRecord,
        SyncActionView::ObserveAddress,
        SyncActionView::UpdateRecord { ip: observed },
        dns_failure(source),
    ]);
}

/// The state that a pass in `state` is in after `events` have come in.
pub open spec fn sync_state(state: SyncState, events: Seq<SyncEventView>) -> SyncState
    decreases events.len(),
{
    if events.len() == 0 || state is Finished {
        state
    } else {
        sync_state(sync_next(state, events[0]).0, events.drop_first())
    }
}

/// One more event takes a pass that is not over one step on: it adds the
/// action that the pass decides on in the state it had reached.
pub proof fn lemma_run_one_more(state: SyncState, events: Seq<SyncEventView>, event: SyncEventView)
    requires
        !(sync_state(state, events) is Finished),
    ensures
        sync_run(state, events).len() == events.len(),
        sync_run(state, events.push(event)) == sync_run(state, events).push(
            sync_next(sync_state(state, events), event).1,
        ),
        sync_state(state, events.push(event)) == sync_next(sync_state(state, events), event).0,
    decreases events.len(),
{
    let more = events.push(event);
    if events.len() == 0 {
        assert(more.drop_first() =~= Seq::<SyncEventView>::empty());
        assert(more[0] == event);
        let (next, action) = sync_next(state, event);
        assert(sync_run(next, more.drop_first()) =~= Seq::<SyncActionView>::empty());
        assert(sync_run(state, more) =~= sync_run(state, events).push(action));
        assert(sync_state(next, more.drop_first()) == next);
        assert(sync_state(state, more) == next);
    } else {
        let (next, action) = sync_next(state, events[0]);
        assert(more[0] == events[0]);
        assert(more.drop_first() =~= events.drop_first().push(event));
        assert(sync_state(state, events) == sync_state(next, events.drop_first()));
        lemma_run_one_more(next, events.drop_first(), event);
        assert(sync_state(state, more) == sync_state(next, more.drop_first()));
        assert(sync_run(state, more) =~= sync_run(state, events).push(
            sync_next(sync_state(state, events), event).1,
        ));
    }
}

/// The outcome that a pass which met `events` ended with, where it has ended.
pub open spec fn pass_outcome(events: Seq<SyncEventView>) -> Option<
    Result<(), DynDnsServiceErrorView>,
> {
    match sync_pass(events).last() {
        SyncActionView::Finish { outcome } => Some(outcome),
        _ => None,
    }
}

/// The poller for one record: the record `subdomain` of the zone of `domain`,
/// a DNS side and a source of the public address.
pub struct DynDnsService<D, P> {
    domain: String,
    subdomain: String,
    dns_service: D,
    public_ip_service: P,
}

impl<D: DnsService, P: PublicIpService> DynDnsService<D, P> {
    /// The domain whose zone holds the record.
    pub closed spec fn domain_view(&self) -> Seq<char> {
        self.domain@
    }

    /// The name of the record within the zone.
    pub closed spec fn subdomain_view(&self) -> Seq<char> {
        self.subdomain@
    }

    /// The DNS side.
    pub closed spec fn dns_service_view(&self) -> D {
        self.dns_service
    }

    /// The source of the public address.
    pub closed spec fn public_ip_service_view(&self) -> P {
        self.public_ip_service
    }

    /// Whether `events` are answers that the two sides of this poller may
    /// have given in one pass: at most three, namely what the DNS side
    /// answered when asked for this poller's record, what the source
    /// answered when asked for the public address, and what the DNS side
    /// answered when asked to set this poller's record to the address that
    /// the pass wanted it set to.
    pub open spec fn answered(&self, events: Seq<SyncEventView>) -> bool {
        &&& events.len() <= 3
        &&& events.len() >= 1 ==> (events[0] matches SyncEventView::RecordResolved { outcome }
            && self.dns_service_view().resolves(
            self.subdomain_view(),
            self.domain_view(),
            outcome,
        ))
        &&& events.len() >= 2 ==> (events[1] matches SyncEventView::AddressObserved { outcome }
            && self.public_ip_service_view().observes(outcome))
        &&& events.len() >= 3 ==> (events[2] matches SyncEventView::RecordUpdated { outcome } && (
        sync_pass(events)[2] matches SyncActionView::UpdateRecord { ip }
            && self.dns_service_view().updates(
            self.subdomain_view(),
            self.domain_view(),
            ip,
            outcome,
        )))
    }

    /// The poller for the record `subdomain` of the zone of `domain`, over
    /// the two sides given.
    pub fn new(domain: &str, subdomain: &str, dns_service: D, public_ip_service: P) -> (service:
        Self)
        ensures
            service.domain_view() == domain@,
            service.subdomain_view() == subdomain@,
            service.dns_service_view() == dns_service,
            service.public_ip_service_view() == public_ip_service,
    {
        DynDnsService {
            domain: domain.to_owned(),
            subdomain: subdomain.to_owned(),
            dns_service,
            public_ip_service,
        }
    }

    /// The domain whose zone holds the record.
    pub fn domain(&self) -> (domain: &str)
        ensures
            domain@ == self.domain_view(),
    {
        self.domain.as_str()
    }

    /// The name of the record within the zone.
    pub fn subdomain(&self) -> (subdomain: &str)
        ensures
            subdomain@ == self.subdomain_view(),
    {
        self.subdomain.as_str()
    }

    /// The DNS side.
    pub fn dns_service(&self) -> (side: &D)
        ensures
            *side == self.dns_service_view(),
    {
        &self.dns_service
    }

    /// The source of the public address.
    pub fn public_ip_service(&self) -> (side: &P)
        ensures
            *side == self.public_ip_service_view(),
    {
        &self.public_ip_service
    }

    /// Runs one pass against the two sides: it performs each action that the
    /// pass hands out and feeds the outcome back, until the pass ends. The
    /// result is the outcome of a pass over answers that the two sides gave:
    /// the DNS side for this poller's subdomain and domain, and for the
    /// address that the pass wanted set.
    pub fn update_dns_if_required(&self) -> (outcome: Result<(), DynDnsServiceError>)
        ensures
            exists|events: Seq<SyncEventView>|
                self.answered(events) && #[trigger] pass_outcome(events) == Some(
                    match outcome {
                        Ok(_) => Ok::<(), DynDnsServiceErrorView>(()),
                        Err(error) => Err(error@),
                    },
                ),
            outcome matches Err(error) ==> !(error is UnknownError),
    {
        let (first_state, first_action) = SyncState::begin();
        let mut state = first_state;
        let mut action = first_action;
        let ghost mut events: Seq<SyncEventView> = Seq::empty();
        proof {
            assert(sync_run(SyncState::ResolvingRecord, events) =~= Seq::<
                SyncActionView,
            >::empty());
            assert(sync_pass(events) =~= seq![action@]);
        }
        loop
            invariant
                awaited(state, action@),
                state is Finished ==> !(action@ matches SyncActionView::Finish {
                    outcome: Err(DynDnsServiceErrorView::UnknownError),
                }),
                state == sync_state(SyncState::ResolvingRecord, events),
                sync_pass(events).len() == events.len() + 1,
                sync_pass(events).last() == action@,
                !(state is Finished) ==> events.len() + steps_left(state) == 3,
                self.answered(events),
            decreases steps_left(state),
        {
            let ghost before = events;
            let event = match action {
                SyncAction::ResolveRecord => SyncEvent::RecordResolved {
                    outcome: self.dns_service.resolve_ip(
                        self.subdomain.as_str(),
                        self.domain.as_str(),
                    ),
                },
                SyncAction::ObserveAddress => SyncEvent::AddressObserved {
                    outcome: self.public_ip_service.get_ip(),
                },
                SyncAction::UpdateRecord { ip } => SyncEvent::RecordUpdated {
                    outcome: self.dns_service.update_dns(
                        self.subdomain.as_str(),
                        self.domain.as_str(),
                        ip,
                    ),
                },
                SyncAction::Finish { outcome } => {
                    assert(pass_outcome(events) == Some(
                        match outcome {
                            Ok(_) => Ok::<(), DynDnsServiceErrorView>(()),
                            Err(error) => Err(error@),
                        },
                    ));
                    return outcome;
                },
            };
            proof {
                lemma_run_one_more(SyncState::ResolvingRecord, events, event@);
                let step = sync_next(state, event@).1;
                assert(sync_pass(events.push(event@)) =~= sync_pass(events).push(step));
                events = events.push(event@);
                assert(forall|i: int| 0 <= i < before.len() ==> events[i] == before[i]);
                assert(forall|i: int|
                    0 <= i < sync_pass(before).len() ==> sync_pass(events)[i] == sync_pass(
                        before,
                    )[i]);
                assert(events[before.len() as int] == event@);
            }
            let (next_state, next_action) = state.advance(event);
            state = next_state;
            action = next_action;
        }
    }
}

/// What a [`DynDnsServiceError`] says of itself: which side failed.
pub open spec fn sync_error_message(error: DynDnsServiceErrorView) -> Seq<char> {
    match error {
        DynDnsServiceErrorView::UnknownError => "unknown error"@,
        DynDnsServiceErrorView::PublicIpServiceError { .. } => "public ip service error"@,
        DynDnsServiceErrorView::DnsServiceError { .. } => "dns service error"@,
    }
}

impl DynDnsServiceError {
    /// The error in words.
    pub fn to_string(&self) -> (message: String)
        ensures
            message@ == sync_error_message(self@),
    {
        match self {
            DynDnsServiceError::UnknownError => "unknown error".to_owned(),
            DynDnsServiceError::PublicIpServiceError { .. } => {
                "public ip service error".to_owned()
            },
            DynDnsServiceError::DnsServiceError { .. } => "dns service error".to_owned(),
        }
    }
}

} // verus!
