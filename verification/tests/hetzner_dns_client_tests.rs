use dyndnsd::hetzner_dns_client::{
    select_record, select_zone, GetRecordsResponse, GetZonesResponse, HetznerDnsClient,
    HetznerDnsClientError, Record, UpdateRecordRequest, UpdateRecordResponse, Zone, API_URL,
    RECORD_TTL,
};
use dyndnsd::http::{HttpReply, Method, RequestError};
use dyndnsd::ipv4::Ipv4Addr;
use dyndnsd::json::Json;

const API_TOKEN: &str = "XXX";
const ZONE: &str = "example.com";
const SUBDOMAIN: &str = "example.com";
const EXPECTED_ZONE_ID: &str = "zid123";
const EXPECTED_RECORD_ID: &str = "rid123";
const OLD_IP: &str = "127.0.0.2";
const NEW_IP: &str = "127.0.0.3";
const URI: &str = "http://127.0.0.1:4000";

fn token_header() -> (String, String) {
    ("Auth-API-Token".to_string(), API_TOKEN.to_string())
}

fn record(id: &str, name: &str, value: &str) -> Record {
    Record {
        id: String::from(id),
        zone_id: String::from(EXPECTED_ZONE_ID),
        name: String::from(name),
        record_type: String::from("A"),
        value: String::from(value),
    }
}

fn ok(body: String) -> HttpReply {
    HttpReply::Response { status: 200, body }
}

fn status(status: u16) -> HttpReply {
    HttpReply::Response { status, body: String::new() }
}

fn decode_failure() -> HetznerDnsClientError {
    HetznerDnsClientError::RequestFailed { source: RequestError::Decode }
}

#[test]
fn test_get_zone_id() {
    let zone = Zone { name: String::from(ZONE), id: String::from(EXPECTED_ZONE_ID) };
    let zones_response = GetZonesResponse { zones: vec![zone.clone()] };

    let client = HetznerDnsClient::new_with_url(API_TOKEN, URI);
    let request = client.find_zone_request(ZONE);
    assert_eq!(request.method, Method::Get);
    assert_eq!(request.url, "http://127.0.0.1:4000/zones?name=example.com");
    assert_eq!(request.headers, vec![token_header()]);
    assert_eq!(request.body, None);

    let returned_zone = client
        .find_zone(ZONE, &ok(zones_response.to_json().to_text().unwrap()))
        .expect("find zone id failed")
        .expect("no zone id returned");
    assert_eq!(returned_zone, zone);
}

#[test]
fn test_get_record() {
    let records_response =
        GetRecordsResponse { records: vec![record(EXPECTED_RECORD_ID, SUBDOMAIN, OLD_IP)] };

    let client = HetznerDnsClient::new_with_url(API_TOKEN, URI);
    let request = client.find_record_request(EXPECTED_ZONE_ID);
    assert_eq!(request.method, Method::Get);
    assert_eq!(request.url, "http://127.0.0.1:4000/records?zone_id=zid123");
    assert_eq!(request.headers, vec![token_header()]);
    assert_eq!(request.body, None);

    let record = client
        .find_record(EXPECTED_ZONE_ID, SUBDOMAIN, &ok(records_response.to_json().to_text().unwrap()))
        .expect("find record id failed")
        .expect("no record id returned");
    assert_eq!(record.id, EXPECTED_RECORD_ID);
}

#[test]
fn test_update_record() {
    let update_response =
        UpdateRecordResponse { record: record(EXPECTED_RECORD_ID, SUBDOMAIN, OLD_IP) };

    let client = HetznerDnsClient::new_with_url(API_TOKEN, URI);
    let request = client.update_ip_request(
        SUBDOMAIN,
        EXPECTED_ZONE_ID,
        EXPECTED_RECORD_ID,
        Ipv4Addr::parse(NEW_IP).unwrap(),
    );
    assert_eq!(request.method, Method::Put);
    assert_eq!(request.url, format!("http://127.0.0.1:4000/records/{}", EXPECTED_RECORD_ID));
    assert_eq!(
        request.headers,
        vec![("Content-Type".to_string(), "application/json".to_string()), token_header()]
    );

    let record = client
        .update_ip(EXPECTED_RECORD_ID, &ok(update_response.to_json().to_text().unwrap()))
        .expect("find record id failed");
    assert_eq!(record.id, EXPECTED_RECORD_ID);
}

#[test]
fn update_body_carries_name_ttl_type_zone_and_value() {
    let client = HetznerDnsClient::new_with_url(API_TOKEN, URI);
    let request = client.update_ip_request(
        SUBDOMAIN,
        EXPECTED_ZONE_ID,
        EXPECTED_RECORD_ID,
        Ipv4Addr::new(127, 0, 0, 3),
    );
    let body: serde_json::Value =
        serde_json::from_str(&request.body.expect("an update has a body")).unwrap();
    let members = body.as_object().unwrap();
    assert_eq!(members.len(), 5);
    assert_eq!(body["name"], serde_json::Value::from(SUBDOMAIN));
    assert_eq!(body["ttl"], serde_json::Value::from(60u64));
    assert_eq!(body["type"], serde_json::Value::from("A"));
    assert_eq!(body["zone_id"], serde_json::Value::from(EXPECTED_ZONE_ID));
    assert_eq!(body["value"], serde_json::Value::from(NEW_IP));
}

#[test]
fn update_request_value_types() {
    let request = UpdateRecordRequest::new("www", "z1", Ipv4Addr::new(10, 1, 2, 3));
    assert_eq!(
        request,
        UpdateRecordRequest {
            name: "www".to_string(),
            ttl: 60,
            record_type: "A".to_string(),
            value: "10.1.2.3".to_string(),
            zone_id: "z1".to_string(),
        }
    );
    assert_eq!(RECORD_TTL, 60);
    assert_eq!(
        request.to_json(),
        Json::Object(vec![
            ("name".to_string(), Json::String("www".to_string())),
            ("ttl".to_string(), Json::Number(serde_json::Number::from(60u64))),
            ("type".to_string(), Json::String("A".to_string())),
            ("value".to_string(), Json::String("10.1.2.3".to_string())),
            ("zone_id".to_string(), Json::String("z1".to_string())),
        ])
    );
}

#[test]
fn default_client_talks_to_the_public_api() {
    let client = HetznerDnsClient::new(API_TOKEN);
    assert_eq!(API_URL, "https://dns.hetzner.com/api/v1");
    assert_eq!(
        client.find_zone_request("example.org").url,
        "https://dns.hetzner.com/api/v1/zones?name=example.org"
    );
    assert_eq!(client, HetznerDnsClient::new_with_url(API_TOKEN, API_URL));
}

#[test]
fn zone_lookup_without_zones_finds_none() {
    let client = HetznerDnsClient::new_with_url(API_TOKEN, URI);
    assert_eq!(client.find_zone(ZONE, &ok("{\"zones\":[]}".to_string())), Ok(None));
}

#[test]
fn zone_lookup_with_several_zones_is_ambiguous() {
    let client = HetznerDnsClient::new_with_url(API_TOKEN, URI);
    let body = "{\"zones\":[{\"id\":\"a\",\"name\":\"example.com\"},{\"id\":\"b\",\"name\":\"example.com\"}]}";
    assert_eq!(
        client.find_zone(ZONE, &ok(body.to_string())),
        Err(HetznerDnsClientError::AmbiguousZone { zone: ZONE.to_string() })
    );
}

#[test]
fn zone_lookup_ignores_members_it_does_not_know() {
    let client = HetznerDnsClient::new_with_url(API_TOKEN, URI);
    let body = "{\"meta\":{\"page\":1},\"zones\":[{\"ttl\":86400,\"id\":\"zid123\",\"name\":\"example.com\",\"ns\":[\"a\",\"b\"]}]}";
    assert_eq!(
        client.find_zone(ZONE, &ok(body.to_string())),
        Ok(Some(Zone { id: "zid123".to_string(), name: "example.com".to_string() }))
    );
}

#[test]
fn zone_lookup_maps_statuses_to_errors() {
    let client = HetznerDnsClient::new_with_url(API_TOKEN, URI);
    assert_eq!(client.find_zone(ZONE, &status(401)), Err(HetznerDnsClientError::InvalidApiToken));
    for code in [201, 204, 301, 400, 403, 404, 500, 503] {
        assert_eq!(
            client.find_zone(ZONE, &status(code)),
            Err(HetznerDnsClientError::FailedToResolveZone { zone: ZONE.to_string() })
        );
    }
    assert_eq!(
        client.find_zone(ZONE, &HttpReply::Failed { reason: "timed out".to_string() }),
        Err(HetznerDnsClientError::RequestFailed {
            source: RequestError::Transport { reason: "timed out".to_string() }
        })
    );
}

#[test]
fn malformed_bodies_are_decode_failures() {
    let client = HetznerDnsClient::new_with_url(API_TOKEN, URI);
    for body in [
        "",
        "not json",
        "{",
        "[]",
        "null",
        "{}",
        "{\"zones\":{}}",
        "{\"zones\":[1]}",
        "{\"zones\":[{\"id\":\"a\"}]}",
        "{\"zones\":[{\"id\":1,\"name\":\"example.com\"}]}",
        "{\"zones\":[{\"id\":\"a\",\"name\":\"example.com\"},null]}",
    ] {
        assert_eq!(client.find_zone(ZONE, &ok(body.to_string())), Err(decode_failure()), "{}", body);
    }
    for body in [
        "",
        "{}",
        "{\"records\":7}",
        "{\"records\":[{\"id\":\"r\",\"zone_id\":\"z\",\"name\":\"n\",\"type\":\"A\"}]}",
        "{\"records\":[{\"id\":\"r\",\"zone_id\":\"z\",\"name\":\"n\",\"type\":\"A\",\"value\":4}]}",
    ] {
        assert_eq!(
            client.find_record("z", "n", &ok(body.to_string())),
            Err(decode_failure()),
            "{}",
            body
        );
    }
    for body in ["", "{}", "{\"record\":[]}", "{\"record\":{\"id\":\"r\"}}"] {
        assert_eq!(client.update_ip("r", &ok(body.to_string())), Err(decode_failure()), "{}", body);
    }
}

#[test]
fn record_lookup_takes_the_first_record_of_that_name() {
    let client = HetznerDnsClient::new_with_url(API_TOKEN, URI);
    let response = GetRecordsResponse {
        records: vec![
            record("r0", "www", "10.0.0.1"),
            record("r1", SUBDOMAIN, OLD_IP),
            record("r2", SUBDOMAIN, NEW_IP),
        ],
    };
    let reply = ok(response.to_json().to_text().unwrap());
    assert_eq!(
        client.find_record(EXPECTED_ZONE_ID, SUBDOMAIN, &reply),
        Ok(Some(record("r1", SUBDOMAIN, OLD_IP)))
    );
    assert_eq!(
        client.find_record(EXPECTED_ZONE_ID, "www", &reply),
        Ok(Some(record("r0", "www", "10.0.0.1")))
    );
    assert_eq!(client.find_record(EXPECTED_ZONE_ID, "mail", &reply), Ok(None));
    assert_eq!(client.find_record(EXPECTED_ZONE_ID, "WWW", &reply), Ok(None));
    assert_eq!(
        client.find_record(EXPECTED_ZONE_ID, SUBDOMAIN, &ok("{\"records\":[]}".to_string())),
        Ok(None)
    );
}

#[test]
fn record_lookup_maps_statuses_to_errors() {
    let client = HetznerDnsClient::new_with_url(API_TOKEN, URI);
    assert_eq!(
        client.find_record(EXPECTED_ZONE_ID, SUBDOMAIN, &status(401)),
        Err(HetznerDnsClientError::InvalidApiToken)
    );
    assert_eq!(
        client.find_record(EXPECTED_ZONE_ID, SUBDOMAIN, &status(404)),
        Err(HetznerDnsClientError::FailedToResolveRecord { record: EXPECTED_ZONE_ID.to_string() })
    );
    assert_eq!(
        client.find_record(
            EXPECTED_ZONE_ID,
            SUBDOMAIN,
            &HttpReply::Failed { reason: "tls".to_string() }
        ),
        Err(HetznerDnsClientError::RequestFailed {
            source: RequestError::Transport { reason: "tls".to_string() }
        })
    );
}

#[test]
fn update_maps_statuses_to_errors() {
    let client = HetznerDnsClient::new_with_url(API_TOKEN, URI);
    assert_eq!(
        client.update_ip(EXPECTED_RECORD_ID, &status(401)),
        Err(HetznerDnsClientError::InvalidApiToken)
    );
    assert_eq!(
        client.update_ip(EXPECTED_RECORD_ID, &status(422)),
        Err(HetznerDnsClientError::FaliedToUpdateIp { record: EXPECTED_RECORD_ID.to_string() })
    );
    assert_eq!(
        client.update_ip(EXPECTED_RECORD_ID, &HttpReply::Failed { reason: "reset".to_string() }),
        Err(HetznerDnsClientError::RequestFailed {
            source: RequestError::Transport { reason: "reset".to_string() }
        })
    );
}

#[test]
fn selection_works_on_decoded_answers() {
    let one = Zone { id: "a".to_string(), name: ZONE.to_string() };
    let two = Zone { id: "b".to_string(), name: ZONE.to_string() };
    assert_eq!(select_zone(ZONE, GetZonesResponse { zones: vec![] }), Ok(None));
    assert_eq!(
        select_zone(ZONE, GetZonesResponse { zones: vec![one.clone()] }),
        Ok(Some(one.clone()))
    );
    assert_eq!(
        select_zone(ZONE, GetZonesResponse { zones: vec![one, two] }),
        Err(HetznerDnsClientError::AmbiguousZone { zone: ZONE.to_string() })
    );
    assert_eq!(select_record("www", GetRecordsResponse { records: vec![] }), None);
    assert_eq!(
        select_record(
            "www",
            GetRecordsResponse {
                records: vec![record("r0", "mail", "1.1.1.1"), record("r1", "www", "2.2.2.2")]
            }
        ),
        Some(record("r1", "www", "2.2.2.2"))
    );
}

#[test]
fn answers_round_trip_through_json() {
    let zone = Zone { id: "zid123".to_string(), name: "example.com".to_string() };
    assert_eq!(Zone::from_json(&zone.to_json()), Some(zone.clone()));
    let rec = record("rid123", "www", OLD_IP);
    assert_eq!(Record::from_json(&rec.to_json()), Some(rec.clone()));
    let zones = GetZonesResponse { zones: vec![zone.clone(), zone] };
    assert_eq!(GetZonesResponse::from_json(&zones.to_json()), Some(zones));
    let records = GetRecordsResponse { records: vec![rec.clone(), record("r2", "mail", NEW_IP)] };
    assert_eq!(GetRecordsResponse::from_json(&records.to_json()), Some(records));
    let updated = UpdateRecordResponse { record: rec };
    assert_eq!(UpdateRecordResponse::from_json(&updated.to_json()), Some(updated));
}

#[test]
fn answers_decode_from_provider_json() {
    let doc = Json::parse(
        "{\"record\":{\"type\":\"A\",\"id\":\"rid123\",\"created\":\"2020-01-01\",\"zone_id\":\"zid123\",\"name\":\"www\",\"value\":\"127.0.0.2\",\"ttl\":60}}",
    )
    .unwrap();
    assert_eq!(
        UpdateRecordResponse::from_json(&doc),
        Some(UpdateRecordResponse { record: record("rid123", "www", OLD_IP) })
    );
    assert_eq!(Zone::from_json(&Json::Null), None);
    assert_eq!(Record::from_json(&Json::Array(vec![])), None);
    assert_eq!(GetZonesResponse::from_json(&Json::String("zones".to_string())), None);
}
