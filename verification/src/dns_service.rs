//! The DNS side of the poller: the capability that resolves and updates a
//! record, its errors, and the flows that realise it over the provider's API.

use crate::hetzner_dns_client::{
    find_record_outcome, find_record_request_for, find_zone_outcome, find_zone_request_for,
    update_ip_outcome, update_ip_request_for, API_URL, HetznerDnsClient, HetznerDnsClientError,
    HetznerDnsClientErrorView, HetznerDnsClientView, Record, RecordView, Zone, ZoneView,
};
use crate::http::{HttpReply, HttpReplyView, HttpRequest, HttpRequestView, Method};
use crate::ipv4::{parse_dotted, Ipv4Addr};
use vstd::prelude::*;

verus! {

/// Why the DNS side failed.
#[derive(Clone, Copy, Debug, PartialEq, Eq, Structural)]
pub enum DnsServiceError {
    /// The provider has no zone for the domain.
    UnknownZone,
    /// The zone has no record of the wanted name, so there is nothing to
    /// update.
    UnknownRecord,
    /// A call of the provider failed, or its answer made no sense.
    ClientError,
    /// A failure of another kind.
    UnknownError,
}

impl From<HetznerDnsClientError> for DnsServiceError {
    fn from(error: HetznerDnsClientError) -> (mapped: DnsServiceError) {
        DnsServiceError::ClientError
    }
}

impl vstd::std_specs::convert::FromSpecImpl<HetznerDnsClientError> for DnsServiceError {
    open spec fn obeys_from_spec() -> bool {
        true
    }

    open spec fn from_spec(error: HetznerDnsClientError) -> DnsServiceError {
        DnsServiceError::ClientError
    }
}

/// The capability that the poller needs of a DNS provider. Each provider says
/// by its two relations which answers it may give to which question; what is
/// proved of a poller holds of every provider, by its own relations.
pub trait DnsService {
    /// Whether `outcome` is an answer that this provider may give when asked
    /// for the address of the record `subdomain` of the zone of `domain`. A
    /// provider that says nothing of itself may give any answer.
    open spec fn resolves(
        &self,
        subdomain: Seq<char>,
        domain: Seq<char>,
        outcome: Result<Option<Ipv4Addr>, DnsServiceError>,
    ) -> bool {
        true
    }

    /// Whether `outcome` is an answer that this provider may give when asked
    /// to set the record `subdomain` of the zone of `domain` to `ip`. A
    /// provider that says nothing of itself may give any answer.
    open spec fn updates(
        &self,
        subdomain: Seq<char>,
        domain: Seq<char>,
        ip: Ipv4Addr,
        outcome: Result<(), DnsServiceError>,
    ) -> bool {
        true
    }

    /// The address that the record `subdomain` of the zone of `domain` holds
    /// now; `None` where the zone has no such record yet.
    fn resolve_ip(&self, subdomain: &str, domain: &str) -> (outcome: Result<
        Option<Ipv4Addr>,
        DnsServiceError,
    >)
        ensures
            self.resolves(subdomain@, domain@, outcome),
    ;

    /// Sets the record `subdomain` of the zone of `domain` to `ip`.
    fn update_dns(&self, subdomain: &str, domain: &str, ip: Ipv4Addr) -> (outcome: Result<
        (),
        DnsServiceError,
    >)
        ensures
            self.updates(subdomain@, domain@, ip, outcome),
    ;
}

/// The DNS capability over the provider's API.
#[derive(Clone, Debug, PartialEq, Eq)]
pub struct HetznerDnsService {
    client: HetznerDnsClient,
}

impl View for HetznerDnsService {
    type V = HetznerDnsClientView;

    closed spec fn view(&self) -> HetznerDnsClientView {
        self.client@
    }
}

/// Where a lookup of the current address stands: which answer it waits for.
#[derive(Clone, Debug, PartialEq, Eq)]
pub enum ResolveIpState {
    FindingZone,
    FindingRecord { zone: Zone },
}

/// The mathematical model of a [`ResolveIpState`].
pub enum ResolveIpStateView {
    FindingZone,
    FindingRecord { zone: ZoneView },
}

impl View for ResolveIpState {
    type V = ResolveIpStateView;

    open spec fn view(&self) -> ResolveIpStateView {
        match self {
            ResolveIpState::FindingZone => ResolveIpStateView::FindingZone,
            ResolveIpState::FindingRecord { zone } => ResolveIpStateView::FindingRecord {
                zone: zone@,
            },
        }
    }
}

/// What a lookup of the current address does next: send a request and wait
/// in `state` for its answer, or end with an outcome.
#[derive(Debug, PartialEq, Eq)]
pub enum ResolveIpStep {
    Send { state: ResolveIpState, request: HttpRequest },
    Done { outcome: Result<Option<Ipv4Addr>, DnsServiceError> },
}

/// The mathematical model of a [`ResolveIpStep`].
pub enum ResolveIpStepView {
    Send { state: ResolveIpStateView, request: HttpRequestView },
    Done { outcome: Result<Option<Ipv4Addr>, DnsServiceError> },
}

impl View for ResolveIpStep {
    type V = ResolveIpStepView;

    open spec fn view(&self) -> ResolveIpStepView {
        match self {
            ResolveIpStep::Send { state, request } => ResolveIpStepView::Send {
                state: state@,
                request: request@,
            },
            ResolveIpStep::Done { outcome } => ResolveIpStepView::Done { outcome: *outcome },
        }
    }
}

/// Where an update stands: which answer it waits for.
#[derive(Clone, Debug, PartialEq, Eq)]
pub enum UpdateDnsState {
    FindingZone,
    FindingRecord { zone: Zone },
    Updating { record: Record },
}

/// The mathematical model of an [`UpdateDnsState`].
pub enum UpdateDnsStateView {
    FindingZone,
    FindingRecord { zone: ZoneView },
    Updating { record: RecordView },
}

impl View for UpdateDnsState {
    type V = UpdateDnsStateView;

    open spec fn view(&self) -> UpdateDnsStateView {
        match self {
            UpdateDnsState::FindingZone => UpdateDnsStateView::FindingZone,
            UpdateDnsState::FindingRecord { zone } => UpdateDnsStateView::FindingRecord {
                zone: zone@,
            },
            UpdateDnsState::Updating { record } => UpdateDnsStateView::Updating {
                record: record@,
            },
        }
    }
}

/// What an update does next: send a request and wait in `state` for its
/// answer, or end with an outcome.
#[derive(Debug, PartialEq, Eq)]
pub enum UpdateDnsStep {
    Send { state: UpdateDnsState, request: HttpRequest },
    Done { outcome: Result<(), DnsServiceError> },
}

/// The mathematical model of an [`UpdateDnsStep`].
pub enum UpdateDnsStepView {
    Send { state: UpdateDnsStateView, request: HttpRequestView },
    Done { outcome: Result<(), DnsServiceError> },
}

impl View for UpdateDnsStep {
    type V = UpdateDnsStepView;

    open spec fn view(&self) -> UpdateDnsStepView {
        match self {
            UpdateDnsStep::Send { state, request } => UpdateDnsStepView::Send {
                state: state@,
                request: request@,
            },
            UpdateDnsStep::Done { outcome } => UpdateDnsStepView::Done { outcome: *outcome },
        }
    }
}

/// The address that a record holds: its value read as dotted-decimal text. A
/// value that is no address is a failure of the provider's answer.
pub open spec fn address_of(record: RecordView) -> Result<Option<Ipv4Addr>, DnsServiceError> {
    match parse_dotted(record.value) {
        Some(ip) => Ok(Some(ip)),
        None => Err(DnsServiceError::ClientError),
    }
}

/// How a lookup of the current address of `subdomain` under `domain` starts.
pub open spec fn resolve_ip_first(client: HetznerDnsClientView, domain: Seq<char>)
    -> ResolveIpStepView {
    ResolveIpStepView::Send {
        state: ResolveIpStateView::FindingZone,
        request: find_zone_request_for(client, domain),
    }
}

/// How a lookup of the current address of `subdomain` under `domain` goes on
/// from `state` when `reply` comes in.
pub open spec fn resolve_ip_next(
    client: HetznerDnsClientView,
    subdomain: Seq<char>,
    domain: Seq<char>,
    state: ResolveIpStateView,
    reply: HttpReplyView,
) -> ResolveIpStepView {
    match state {
        ResolveIpStateView::FindingZone => match find_zone_outcome(domain, reply) {
            Ok(Some(zone)) => ResolveIpStepView::Send {
                state: ResolveIpStateView::FindingRecord { zone },
                request: find_record_request_for(client, zone.id),
            },
            Ok(None) => ResolveIpStepView::Done { outcome: Err(DnsServiceError::UnknownZone) },
            Err(_) => ResolveIpStepView::Done { outcome: Err(DnsServiceError::ClientError) },
        },
        ResolveIpStateView::FindingRecord { zone } => match find_record_outcome(
            zone.id,
            subdomain,
            reply,
        ) {
            Ok(Some(record)) => ResolveIpStepView::Done { outcome: address_of(record) },
            Ok(None) => ResolveIpStepView::Done { outcome: Ok(None) },
            Err(_) => ResolveIpStepView::Done { outcome: Err(DnsServiceError::ClientError) },
        },
    }
}

/// How an update of `subdomain` under `domain` starts.
pub open spec fn update_dns_first(client: HetznerDnsClientView, domain: Seq<char>)
    -> UpdateDnsStepView {
    UpdateDnsStepView::Send {
        state: UpdateDnsStateView::FindingZone,
        request: find_zone_request_for(client, domain),
    }
}

/// How an update of `subdomain` under `domain` to `ip` goes on from `state`
/// when `reply` comes in.
pub open spec fn update_dns_next(
    client: HetznerDnsClientView,
    subdomain: Seq<char>,
    domain: Seq<char>,
    ip: Ipv4Addr,
    state: UpdateDnsStateView,
    reply: HttpReplyView,
) -> UpdateDnsStepView {
    match state {
        UpdateDnsStateView::FindingZone => match find_zone_outcome(domain, reply) {
            Ok(Some(zone)) => UpdateDnsStepView::Send {
                state: UpdateDnsStateView::FindingRecord { zone },
                request: find_record_request_for(client, zone.id),
            },
            Ok(None) => UpdateDnsStepView::Done { outcome: Err(DnsServiceError::UnknownZone) },
            Err(_) => UpdateDnsStepView::Done { outcome: Err(DnsServiceError::ClientError) },
        },
        UpdateDnsStateView::FindingRecord { zone } => match find_record_outcome(
            zone.id,
            subdomain,
            reply,
        ) {
            Ok(Some(record)) => UpdateDnsStepView::Send {
                state: UpdateDnsStateView::Updating { record },
                request: update_ip_request_for(client, subdomain, zone.id, record.id, ip),
            },
            Ok(None) => UpdateDnsStepView::Done { outcome: Err(DnsServiceError::UnknownRecord) },
            Err(_) => UpdateDnsStepView::Done { outcome: Err(DnsServiceError::ClientError) },
        },
        UpdateDnsStateView::Updating { record } => match update_ip_outcome(record.id, reply) {
            Ok(_) => UpdateDnsStepView::Done { outcome: Ok(()) },
            Err(_) => UpdateDnsStepView::Done { outcome: Err(DnsServiceError::ClientError) },
        },
    }
}

impl HetznerDnsService {
    /// The DNS capability over the provider's public API.
    pub fn new(api_token: &str) -> (service: HetznerDnsService)
        ensures
            service@.api_token == api_token@,
            service@.api_url == API_URL@,
    {
        let client = HetznerDnsClient::new(api_token);
        Self::from_client(client)
    }

    /// The DNS capability over the given client.
    pub fn from_client(client: HetznerDnsClient) -> (service: HetznerDnsService)
        ensures
            service@ == client@,
    {
        HetznerDnsService { client }
    }

    /// Starts a lookup of the address that the record under `domain` holds:
    /// the zone is asked for first.
    pub fn resolve_ip_start(&self, domain: &str) -> (step: ResolveIpStep)
        ensures
            step@ == resolve_ip_first(self@, domain@),
    {
        ResolveIpStep::Send {
            state: ResolveIpState::FindingZone,
            request: self.client.find_zone_request(domain),
        }
    }

    /// Takes a lookup of the address of `subdomain` under `domain` one step
    /// on: `reply` answers the request that led to `state`.
    pub fn resolve_ip(
        &self,
        subdomain: &str,
        domain: &str,
        state: ResolveIpState,
        reply: &HttpReply,
    ) -> (step: ResolveIpStep)
        ensures
            step@ == resolve_ip_next(self@, subdomain@, domain@, state@, reply@),
    {
        match state {
            ResolveIpState::FindingZone => match self.client.find_zone(domain, reply) {
                Ok(Some(zone)) => {
                    let request = self.client.find_record_request(zone.id.as_str());
                    ResolveIpStep::Send { state: ResolveIpState::FindingRecord { zone }, request }
                },
                Ok(None) => ResolveIpStep::Done { outcome: Err(DnsServiceError::UnknownZone) },
                Err(_) => ResolveIpStep::Done { outcome: Err(DnsServiceError::ClientError) },
            },
            ResolveIpState::FindingRecord { zone } => match self.client.find_record(
                zone.id.as_str(),
                subdomain,
                reply,
            ) {
                Ok(Some(record)) => match Ipv4Addr::parse(record.value.as_str()) {
                    Some(ip) => ResolveIpStep::Done { outcome: Ok(Some(ip)) },
                    None => ResolveIpStep::Done { outcome: Err(DnsServiceError::ClientError) },
                },
                Ok(None) => ResolveIpStep::Done { outcome: Ok(None) },
                Err(_) => ResolveIpStep::Done { outcome: Err(DnsServiceError::ClientError) },
            },
        }
    }

    /// Starts an update of the record under `domain`: the zone is asked for
    /// first.
    pub fn update_dns_start(&self, domain: &str) -> (step: UpdateDnsStep)
        ensures
            step@ == update_dns_first(self@, domain@),
    {
        UpdateDnsStep::Send {
            state: UpdateDnsState::FindingZone,
            request: self.client.find_zone_request(domain),
        }
    }

    /// Takes an update of `subdomain` under `domain` to `ip` one step on:
    /// `reply` answers the request that led to `state`.
    pub fn update_dns(
        &self,
        subdomain: &str,
        domain: &str,
        ip: Ipv4Addr,
        state: UpdateDnsState,
        reply: &HttpReply,
    ) -> (step: UpdateDnsStep)
        ensures
            step@ == update_dns_next(self@, subdomain@, domain@, ip, state@, reply@),
    {
        match state {
            UpdateDnsState::FindingZone => match self.client.find_zone(domain, reply) {
                Ok(Some(zone)) => {
                    let request = self.client.find_record_request(zone.id.as_str());
                    UpdateDnsStep::Send { state: UpdateDnsState::FindingRecord { zone }, request }
                },
                Ok(None) => UpdateDnsStep::Done { outcome: Err(DnsServiceError::UnknownZone) },
                Err(_) => UpdateDnsStep::Done { outcome: Err(DnsServiceError::ClientError) },
            },
            UpdateDnsState::FindingRecord { zone } => match self.client.find_record(
                zone.id.as_str(),
                subdomain,
                reply,
            ) {
                Ok(Some(record)) => {
                    let request = self.client.update_ip_request(
                        subdomain,
                        zone.id.as_str(),
                        record.id.as_str(),
                        ip,
                    );
                    UpdateDnsStep::Send { state: UpdateDnsState::Updating { record }, request }
                },
                Ok(None) => UpdateDnsStep::Done { outcome: Err(DnsServiceError::UnknownRecord) },
                Err(_) => UpdateDnsStep::Done { outcome: Err(DnsServiceError::ClientError) },
            },
            UpdateDnsState::Updating { record } => match self.client.update_ip(
                record.id.as_str(),
                reply,
            ) {
                Ok(_) => UpdateDnsStep::Done { outcome: Ok(()) },
                Err(_) => UpdateDnsStep::Done { outcome: Err(DnsServiceError::ClientError) },
            },
        }
    }
}

/// An update request goes out only in answer to a record query that found
/// the record, which in turn follows a zone query that found the zone: there
/// is no path that updates blindly.
pub proof fn lemma_update_follows_lookups(
    client: HetznerDnsClientView,
    subdomain: Seq<char>,
    domain: Seq<char>,
    ip: Ipv4Addr,
    state: UpdateDnsStateView,
    reply: HttpReplyView,
)
    requires
        update_dns_next(client, subdomain, domain, ip, state, reply) matches UpdateDnsStepView::Send {
            request,
            ..
        } && request.method == Method::Put,
    ensures
        state matches UpdateDnsStateView::FindingRecord { zone } && find_record_outcome(
            zone.id,
            subdomain,
            reply,
        ) matches Ok(Some(record)) && update_dns_next(client, subdomain, domain, ip, state, reply)
            == (UpdateDnsStepView::Send {
            state: UpdateDnsStateView::Updating { record },
            request: update_ip_request_for(client, subdomain, zone.id, record.id, ip),
        }),
{
}

/// The record that an update sets is the one that the lookup of the same
/// pass would read: both flows ask the same questions about the zone and the
/// record.
pub proof fn lemma_update_and_lookup_agree(
    client: HetznerDnsClientView,
    subdomain: Seq<char>,
    domain: Seq<char>,
    ip: Ipv4Addr,
    zone_reply: HttpReplyView,
)
    ensures
        match (
            resolve_ip_next(client, subdomain, domain, ResolveIpStateView::FindingZone, zone_reply),
            update_dns_next(
                client,
                subdomain,
                domain,
                ip,
                UpdateDnsStateView::FindingZone,
                zone_reply,
            ),
        ) {
            (
                ResolveIpStepView::Send { state: ResolveIpStateView::FindingRecord { zone: z1 }, request: r1 },
                UpdateDnsStepView::Send { state: UpdateDnsStateView::FindingRecord { zone: z2 }, request: r2 },
            ) => z1 == z2 && r1 == r2,
            (ResolveIpStepView::Done { outcome: Err(e1) }, UpdateDnsStepView::Done { outcome: Err(e2) }) => e1
                == e2,
            _ => false,
        },
{
}

/// What a [`DnsServiceError`] says of itself.
pub open spec fn dns_error_message(error: DnsServiceError) -> Seq<char> {
    match error {
        DnsServiceError::UnknownZone => "unknown zone"@,
        DnsServiceError::UnknownRecord => "unknown record"@,
        DnsServiceError::ClientError => "client error"@,
        DnsServiceError::UnknownError => "unknown error"@,
    }
}

impl DnsServiceError {
    /// The error in words.
    pub fn to_string(&self) -> (message: String)
        ensures
            message@ == dns_error_message(*self),
    {
        match self {
            DnsServiceError::UnknownZone => "unknown zone".to_owned(),
            DnsServiceError::UnknownRecord => "unknown record".to_owned(),
            DnsServiceError::ClientError => "client error".to_owned(),
            DnsServiceError::UnknownError => "unknown error".to_owned(),
        }
    }
}

/// Where the provider lists no zone for the domain, a lookup and an update
/// both end with `UnknownZone`: nothing more is asked, and nothing is
/// written.
pub proof fn lemma_no_zone_is_unknown_zone(
    client: HetznerDnsClientView,
    subdomain: Seq<char>,
    domain: Seq<char>,
    ip: Ipv4Addr,
    reply: HttpReplyView,
)
    requires
        find_zone_outcome(domain, reply) == Ok::<Option<ZoneView>, HetznerDnsClientErrorView>(
            None,
        ),
    ensures
        resolve_ip_next(client, subdomain, domain, ResolveIpStateView::FindingZone, reply) == (
        ResolveIpStepView::Done { outcome: Err(DnsServiceError::UnknownZone) }),
        update_dns_next(client, subdomain, domain, ip, UpdateDnsStateView::FindingZone, reply)
            == (UpdateDnsStepView::Done { outcome: Err(DnsServiceError::UnknownZone) }),
{
}

/// Where the zone exists and has no record of the wanted name, a lookup
/// reads that there is no address yet, and an update ends with
/// `UnknownRecord`: this crate never creates a record.
pub proof fn lemma_no_record_reads_none(
    client: HetznerDnsClientView,
    subdomain: Seq<char>,
    domain: Seq<char>,
    ip: Ipv4Addr,
    zone: ZoneView,
    reply: HttpReplyView,
)
    requires
        find_record_outcome(zone.id, subdomain, reply) == Ok::<
            Option<RecordView>,
            HetznerDnsClientErrorView,
        >(None),
    ensures
        resolve_ip_next(
            client,
            subdomain,
            domain,
            ResolveIpStateView::FindingRecord { zone },
            reply,
        ) == (ResolveIpStepView::Done { outcome: Ok(None) }),
        update_dns_next(
            client,
            subdomain,
            domain,
            ip,
            UpdateDnsStateView::FindingRecord { zone },
            reply,
        ) == (UpdateDnsStepView::Done { outcome: Err(DnsServiceError::UnknownRecord) }),
{
}

/// A lookup never sends anything but queries: it reads, and leaves writing to
/// an update.
pub proof fn lemma_lookup_only_reads(
    client: HetznerDnsClientView,
    subdomain: Seq<char>,
    domain: Seq<char>,
    state: ResolveIpStateView,
    reply: HttpReplyView,
)
    ensures
        resolve_ip_first(client, domain) matches ResolveIpStepView::Send { request, .. }
            && request.method == Method::Get,
        resolve_ip_next(client, subdomain, domain, state, reply) matches ResolveIpStepView::Send {
            request,
            ..
        } ==> request.method == Method::Get,
{
}

} // verus!
