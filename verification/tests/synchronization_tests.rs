use dyndnsd::dns_service::{
    DnsService, DnsServiceError, HetznerDnsService, ResolveIpStep, UpdateDnsStep,
};
use dyndnsd::dyndns_service::{DynDnsService, DynDnsServiceError};
use dyndnsd::hetzner_dns_client::HetznerDnsClient;
use dyndnsd::http::{HttpReply, HttpRequest, Method};
use dyndnsd::ipv4::Ipv4Addr;
use dyndnsd::public_ip_service::{PublicIpService, PublicIpServiceError};
use dyndnsd::ubus_jsonrpc_public_ip_service::{UbusJsonRpcClient, UbusStep};
use std::cell::RefCell;
use std::rc::Rc;

const PROVIDER: &str = "http://provider";
const ROUTER: &str = "http://router/ubus";

type Sent = Rc<RefCell<Vec<HttpRequest>>>;

/// A scripted provider and router: answers by method and URL, and keeps what
/// was asked.
#[derive(Clone)]
struct Wire {
    zones: String,
    records: String,
    update_status: u16,
    login_status: u16,
    observed: String,
    sent: Sent,
}

impl Wire {
    fn new(observed: &str) -> Wire {
        Wire {
            zones: "{\"zones\":[{\"id\":\"zid123\",\"name\":\"example.com\"}]}".to_string(),
            records: "{\"records\":[{\"id\":\"rid123\",\"zone_id\":\"zid123\",\"name\":\"example.com\",\"type\":\"A\",\"value\":\"127.0.0.2\"}]}".to_string(),
            update_status: 200,
            login_status: 200,
            observed: observed.to_string(),
            sent: Rc::new(RefCell::new(Vec::new())),
        }
    }

    fn send(&self, request: HttpRequest) -> HttpReply {
        let reply = self.answer(&request);
        self.sent.borrow_mut().push(request);
        reply
    }

    fn answer(&self, request: &HttpRequest) -> HttpReply {
        let ok = |body: String| HttpReply::Response { status: 200, body };
        if request.url == ROUTER {
            let body = request.body.clone().unwrap_or_default();
            if body.contains("\"login\"") {
                return HttpReply::Response {
                    status: self.login_status,
                    body: "{\"jsonrpc\":\"2.0\",\"id\":1,\"result\":[0,{\"ubus_rpc_session\":\"session\"}]}".to_string(),
                };
            }
            return ok(format!(
                "{{\"jsonrpc\":\"2.0\",\"id\":null,\"result\":[0,{{\"ipv4-address\":[{{\"address\":\"{}\",\"mask\":32}}]}}]}}",
                self.observed
            ));
        }
        if request.method == Method::Get && request.url == "http://provider/zones?name=example.com" {
            return ok(self.zones.clone());
        }
        if request.method == Method::Get && request.url == "http://provider/records?zone_id=zid123" {
            return ok(self.records.clone());
        }
        if request.method == Method::Put && request.url == "http://provider/records/rid123" {
            return HttpReply::Response {
                status: self.update_status,
                body: "{\"record\":{\"id\":\"rid123\",\"zone_id\":\"zid123\",\"name\":\"example.com\",\"type\":\"A\",\"value\":\"0.0.0.0\"}}".to_string(),
            };
        }
        HttpReply::Response { status: 404, body: String::new() }
    }

    fn updates(&self) -> Vec<HttpRequest> {
        self.sent.borrow().iter().filter(|r| r.method == Method::Put).cloned().collect()
    }

    fn lines(&self) -> Vec<String> {
        self.sent
            .borrow()
            .iter()
            .map(|r| format!("{:?} {}", r.method, r.url))
            .collect()
    }
}

struct WiredDns {
    service: HetznerDnsService,
    wire: Wire,
}

impl DnsService for WiredDns {
    fn resolve_ip(
        &self,
        subdomain: &str,
        domain: &str,
    ) -> Result<Option<Ipv4Addr>, DnsServiceError> {
        let mut step = self.service.resolve_ip_start(domain);
        loop {
            match step {
                ResolveIpStep::Done { outcome } => return outcome,
                ResolveIpStep::Send { state, request } => {
                    let reply = self.wire.send(request);
                    step = self.service.resolve_ip(subdomain, domain, state, &reply);
                }
            }
        }
    }

    fn update_dns(
        &self,
        subdomain: &str,
        domain: &str,
        ip: Ipv4Addr,
    ) -> Result<(), DnsServiceError> {
        let mut step = self.service.update_dns_start(domain);
        loop {
            match step {
                UpdateDnsStep::Done { outcome } => return outcome,
                UpdateDnsStep::Send { state, request } => {
                    let reply = self.wire.send(request);
                    step = self.service.update_dns(subdomain, domain, ip, state, &reply);
                }
            }
        }
    }
}

struct WiredRouter {
    client: UbusJsonRpcClient,
    wire: Wire,
}

impl PublicIpService for WiredRouter {
    fn get_ip(&self) -> Result<Ipv4Addr, PublicIpServiceError> {
        let mut step = self.client.public_ip_start();
        loop {
            match step {
                UbusStep::Done { outcome } => return outcome,
                UbusStep::Send { state, request } => {
                    let reply = self.wire.send(request);
                    step = self.client.public_ip(state, &reply);
                }
            }
        }
    }
}

fn poller(wire: &Wire) -> DynDnsService<WiredDns, WiredRouter> {
    let dns = WiredDns {
        service: HetznerDnsService::from_client(HetznerDnsClient::new_with_url("XXX", PROVIDER)),
        wire: wire.clone(),
    };
    let router = WiredRouter {
        client: UbusJsonRpcClient::new(ROUTER, "user", "pass"),
        wire: wire.clone(),
    };
    DynDnsService::new("example.com", "example.com", dns, router)
}

#[test]
fn changed_address_is_put_to_the_record() {
    let wire = Wire::new("127.0.0.3");
    assert_eq!(poller(&wire).update_dns_if_required(), Ok(()));
    let updates = wire.updates();
    assert_eq!(updates.len(), 1);
    assert_eq!(updates[0].url, "http://provider/records/rid123");
    assert!(updates[0]
        .headers
        .contains(&("Auth-API-Token".to_string(), "XXX".to_string())));
    let body: serde_json::Value =
        serde_json::from_str(updates[0].body.as_ref().unwrap()).unwrap();
    assert_eq!(body["value"], serde_json::Value::from("127.0.0.3"));
    assert_eq!(body["name"], serde_json::Value::from("example.com"));
    assert_eq!(body["zone_id"], serde_json::Value::from("zid123"));
    assert_eq!(body["type"], serde_json::Value::from("A"));
    assert_eq!(body["ttl"], serde_json::Value::from(60u64));
    assert_eq!(
        wire.lines(),
        vec![
            "Get http://provider/zones?name=example.com",
            "Get http://provider/records?zone_id=zid123",
            "Post http://router/ubus",
            "Post http://router/ubus",
            "Get http://provider/zones?name=example.com",
            "Get http://provider/records?zone_id=zid123",
            "Put http://provider/records/rid123",
        ]
    );
}

#[test]
fn unchanged_address_is_not_written() {
    let wire = Wire::new("127.0.0.2");
    let poller = poller(&wire);
    assert_eq!(poller.update_dns_if_required(), Ok(()));
    assert_eq!(poller.update_dns_if_required(), Ok(()));
    assert!(wire.updates().is_empty());
    assert_eq!(wire.sent.borrow().len(), 8);
}

#[test]
fn router_reports_exactly_the_status_address() {
    let wire = Wire::new("192.168.1.100");
    let router = WiredRouter { client: UbusJsonRpcClient::new(ROUTER, "user", "pass"), wire: wire.clone() };
    assert_eq!(router.get_ip(), Ok(Ipv4Addr::new(192, 168, 1, 100)));
    assert_eq!(wire.sent.borrow().len(), 2);
}

#[test]
fn refused_login_stops_before_the_status_query() {
    let mut wire = Wire::new("192.168.1.100");
    wire.login_status = 403;
    let router = WiredRouter { client: UbusJsonRpcClient::new(ROUTER, "user", "pass"), wire: wire.clone() };
    assert_eq!(router.get_ip(), Err(PublicIpServiceError::InvalidCredentials));
    assert_eq!(wire.sent.borrow().len(), 1);
    assert_eq!(
        poller(&wire).update_dns_if_required(),
        Err(DynDnsServiceError::PublicIpServiceError {
            source: PublicIpServiceError::InvalidCredentials
        })
    );
    assert!(wire.updates().is_empty());
}

#[test]
fn missing_zone_fails_the_pass_before_anything_else() {
    let mut wire = Wire::new("127.0.0.3");
    wire.zones = "{\"zones\":[]}".to_string();
    assert_eq!(
        poller(&wire).update_dns_if_required(),
        Err(DynDnsServiceError::DnsServiceError { source: DnsServiceError::UnknownZone })
    );
    assert_eq!(wire.lines(), vec!["Get http://provider/zones?name=example.com"]);
}

#[test]
fn missing_record_cannot_be_updated() {
    let mut wire = Wire::new("127.0.0.3");
    wire.records = "{\"records\":[]}".to_string();
    assert_eq!(
        poller(&wire).update_dns_if_required(),
        Err(DynDnsServiceError::DnsServiceError { source: DnsServiceError::UnknownRecord })
    );
    assert!(wire.updates().is_empty());
    assert_eq!(wire.sent.borrow().len(), 6);
}

#[test]
fn failed_update_is_a_dns_side_failure() {
    let mut wire = Wire::new("127.0.0.3");
    wire.update_status = 500;
    let outcome = poller(&wire).update_dns_if_required();
    assert_eq!(
        outcome,
        Err(DynDnsServiceError::DnsServiceError { source: DnsServiceError::ClientError })
    );
    assert!(!matches!(outcome, Err(DynDnsServiceError::PublicIpServiceError { .. })));
    assert_eq!(wire.updates().len(), 1);
}
