use dyndnsd::dns_service::{
    DnsServiceError, HetznerDnsService, ResolveIpState, ResolveIpStep, UpdateDnsState,
    UpdateDnsStep,
};
use dyndnsd::hetzner_dns_client::{
    GetRecordsResponse, GetZonesResponse, HetznerDnsClient, HetznerDnsClientError, Record,
    UpdateRecordResponse, Zone,
};
use dyndnsd::http::{HttpReply, HttpRequest, Method, RequestError};
use dyndnsd::ipv4::Ipv4Addr;

const ZONE: &str = "example.com";
const SUBDOMAIN: &str = "example.com";
const ZONE_ID: &str = "zid123";
const RECORD_ID: &str = "rid123";
const OLD_IP: &str = "127.0.0.2";
const NEW_IP: &str = "127.0.0.3";
const URI: &str = "http://provider";

fn service() -> HetznerDnsService {
    HetznerDnsService::from_client(HetznerDnsClient::new_with_url("XXX", URI))
}

fn zone() -> Zone {
    Zone { name: String::from(ZONE), id: String::from(ZONE_ID) }
}

fn record(value: &str) -> Record {
    Record {
        id: String::from(RECORD_ID),
        zone_id: String::from(ZONE_ID),
        name: String::from(SUBDOMAIN),
        record_type: String::from("A"),
        value: String::from(value),
    }
}

fn ok(body: String) -> HttpReply {
    HttpReply::Response { status: 200, body }
}

fn zones_reply(zones: Vec<Zone>) -> HttpReply {
    ok(GetZonesResponse { zones }.to_json().to_text().unwrap())
}

fn records_reply(records: Vec<Record>) -> HttpReply {
    ok(GetRecordsResponse { records }.to_json().to_text().unwrap())
}

/// Runs a lookup against scripted replies and returns the outcome with the
/// requests that were sent.
fn run_resolve(
    svc: &HetznerDnsService,
    replies: Vec<HttpReply>,
) -> (Result<Option<Ipv4Addr>, DnsServiceError>, Vec<HttpRequest>) {
    let mut sent = Vec::new();
    let mut replies = replies.into_iter();
    let mut step = svc.resolve_ip_start(ZONE);
    loop {
        match step {
            ResolveIpStep::Done { outcome } => return (outcome, sent),
            ResolveIpStep::Send { state, request } => {
                sent.push(request);
                let reply = replies.next().expect("a request without a scripted reply");
                step = svc.resolve_ip(SUBDOMAIN, ZONE, state, &reply);
            }
        }
    }
}

/// Runs an update against scripted replies and returns the outcome with the
/// requests that were sent.
fn run_update(
    svc: &HetznerDnsService,
    ip: Ipv4Addr,
    replies: Vec<HttpReply>,
) -> (Result<(), DnsServiceError>, Vec<HttpRequest>) {
    let mut sent = Vec::new();
    let mut replies = replies.into_iter();
    let mut step = svc.update_dns_start(ZONE);
    loop {
        match step {
            UpdateDnsStep::Done { outcome } => return (outcome, sent),
            UpdateDnsStep::Send { state, request } => {
                sent.push(request);
                let reply = replies.next().expect("a request without a scripted reply");
                step = svc.update_dns(SUBDOMAIN, ZONE, ip, state, &reply);
            }
        }
    }
}

#[test]
fn resolve_ip() {
    let svc = service();
    let (outcome, sent) =
        run_resolve(&svc, vec![zones_reply(vec![zone()]), records_reply(vec![record(OLD_IP)])]);
    let ip = outcome.expect("An error occured.").expect("Did not receive the IP.");
    assert_eq!(ip.to_string(), OLD_IP, "Did not receive the DNS IP");
    assert_eq!(sent.len(), 2);
    assert_eq!(sent[0].url, "http://provider/zones?name=example.com");
    assert_eq!(sent[1].url, "http://provider/records?zone_id=zid123");
}

#[test]
fn resolve_ip_should_err_when_zone_not_exists() {
    let svc = service();
    let (ip, sent) = run_resolve(&svc, vec![zones_reply(vec![])]);
    assert!(matches!(ip.err().unwrap(), DnsServiceError::UnknownZone));
    assert_eq!(sent.len(), 1);
    assert_eq!(sent[0].url, "http://provider/zones?name=example.com");
}

#[test]
fn resolve_ip_should_return_none_when_record_not_exists() {
    let svc = service();
    let (ip, sent) = run_resolve(&svc, vec![zones_reply(vec![zone()]), records_reply(vec![])]);
    assert!(ip.unwrap().is_none());
    assert_eq!(sent.len(), 2);
}

#[test]
fn update_dns() {
    let svc = service();
    let new_ip_addr = Ipv4Addr::parse(NEW_IP).unwrap();
    let (result, sent) = run_update(
        &svc,
        new_ip_addr,
        vec![
            zones_reply(vec![zone()]),
            records_reply(vec![record(OLD_IP)]),
            ok(UpdateRecordResponse { record: record(NEW_IP) }.to_json().to_text().unwrap()),
        ],
    );
    assert!(result.is_ok());
    assert_eq!(sent.len(), 3);
    assert_eq!(sent[2].method, Method::Put);
    assert_eq!(sent[2].url, "http://provider/records/rid123");
    let body: serde_json::Value = serde_json::from_str(sent[2].body.as_ref().unwrap()).unwrap();
    assert_eq!(body["name"], serde_json::Value::from(SUBDOMAIN));
    assert_eq!(body["zone_id"], serde_json::Value::from(ZONE_ID));
    assert_eq!(body["value"], serde_json::Value::from(NEW_IP));
}

#[test]
fn resolve_ip_fails_on_a_value_that_is_no_address() {
    let svc = service();
    for value in ["", "localhost", "1.2.3", "1.2.3.4.5", "01.2.3.4", "::1"] {
        let (outcome, _) = run_resolve(
            &svc,
            vec![zones_reply(vec![zone()]), records_reply(vec![record(value)])],
        );
        assert_eq!(outcome, Err(DnsServiceError::ClientError), "{:?}", value);
    }
}

#[test]
fn resolve_ip_fails_on_provider_failures() {
    let svc = service();
    let unauthorized = HttpReply::Response { status: 401, body: String::new() };
    let broken = HttpReply::Response { status: 500, body: String::new() };
    let refused = HttpReply::Failed { reason: "connection refused".to_string() };
    for reply in [unauthorized.clone(), broken.clone(), refused.clone(), ok("oops".to_string())] {
        let (outcome, sent) = run_resolve(&svc, vec![reply]);
        assert_eq!(outcome, Err(DnsServiceError::ClientError));
        assert_eq!(sent.len(), 1);
    }
    for reply in [unauthorized, broken, refused, ok("{}".to_string())] {
        let (outcome, sent) = run_resolve(&svc, vec![zones_reply(vec![zone()]), reply]);
        assert_eq!(outcome, Err(DnsServiceError::ClientError));
        assert_eq!(sent.len(), 2);
    }
}

#[test]
fn resolve_ip_fails_on_an_ambiguous_zone() {
    let svc = service();
    let other = Zone { id: "zid456".to_string(), name: ZONE.to_string() };
    let (outcome, sent) = run_resolve(&svc, vec![zones_reply(vec![zone(), other])]);
    assert_eq!(outcome, Err(DnsServiceError::ClientError));
    assert_eq!(sent.len(), 1);
}

#[test]
fn update_dns_needs_the_zone_and_the_record() {
    let svc = service();
    let ip = Ipv4Addr::new(127, 0, 0, 3);
    let (outcome, sent) = run_update(&svc, ip, vec![zones_reply(vec![])]);
    assert_eq!(outcome, Err(DnsServiceError::UnknownZone));
    assert_eq!(sent.len(), 1);
    let (outcome, sent) =
        run_update(&svc, ip, vec![zones_reply(vec![zone()]), records_reply(vec![])]);
    assert_eq!(outcome, Err(DnsServiceError::UnknownRecord));
    assert_eq!(sent.len(), 2);
    assert!(sent.iter().all(|request| request.method == Method::Get));
}

#[test]
fn update_dns_fails_where_the_provider_refuses() {
    let svc = service();
    let ip = Ipv4Addr::new(127, 0, 0, 3);
    for reply in [
        HttpReply::Response { status: 401, body: String::new() },
        HttpReply::Response { status: 422, body: "{}".to_string() },
        HttpReply::Failed { reason: "timeout".to_string() },
        ok("{\"record\":null}".to_string()),
    ] {
        let (outcome, sent) = run_update(
            &svc,
            ip,
            vec![zones_reply(vec![zone()]), records_reply(vec![record(OLD_IP)]), reply],
        );
        assert_eq!(outcome, Err(DnsServiceError::ClientError));
        assert_eq!(sent.len(), 3);
    }
}

#[test]
fn lookup_states_carry_the_zone() {
    let svc = service();
    let step = svc.resolve_ip(SUBDOMAIN, ZONE, ResolveIpState::FindingZone, &zones_reply(vec![zone()]));
    match step {
        ResolveIpStep::Send { state, request } => {
            assert_eq!(state, ResolveIpState::FindingRecord { zone: zone() });
            assert_eq!(request.method, Method::Get);
        }
        other => panic!("unexpected step {:?}", other),
    }
    let step = svc.update_dns(
        SUBDOMAIN,
        ZONE,
        Ipv4Addr::new(1, 2, 3, 4),
        UpdateDnsState::FindingRecord { zone: zone() },
        &records_reply(vec![record(OLD_IP)]),
    );
    match step {
        UpdateDnsStep::Send { state, request } => {
            assert_eq!(state, UpdateDnsState::Updating { record: record(OLD_IP) });
            assert_eq!(request.method, Method::Put);
        }
        other => panic!("unexpected step {:?}", other),
    }
}

#[test]
fn client_errors_map_to_one_dns_error() {
    for error in [
        HetznerDnsClientError::InvalidApiToken,
        HetznerDnsClientError::FailedToResolveZone { zone: "z".to_string() },
        HetznerDnsClientError::FaliedToUpdateIp { record: "r".to_string() },
        HetznerDnsClientError::FailedToResolveRecord { record: "r".to_string() },
        HetznerDnsClientError::AmbiguousZone { zone: "z".to_string() },
        HetznerDnsClientError::RequestFailed { source: RequestError::Decode },
        HetznerDnsClientError::InternalError,
    ] {
        assert_eq!(DnsServiceError::from(error), DnsServiceError::ClientError);
    }
}

#[test]
fn default_service_talks_to_the_public_api() {
    let svc = HetznerDnsService::new("token");
    match svc.resolve_ip_start("example.org") {
        ResolveIpStep::Send { state, request } => {
            assert_eq!(state, ResolveIpState::FindingZone);
            assert_eq!(request.url, "https://dns.hetzner.com/api/v1/zones?name=example.org");
            assert_eq!(
                request.headers,
                vec![("Auth-API-Token".to_string(), "token".to_string())]
            );
        }
        other => panic!("unexpected step {:?}", other),
    }
}
