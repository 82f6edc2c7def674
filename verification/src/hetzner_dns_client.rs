//! The client of the DNS provider's REST API: which request resolves a zone,
//! finds a record or updates one, and what each answer means.

use crate::http::{
    content_type_json, content_type_name, json_content_type, result_view, HttpReply,
    HttpReplyView, HttpRequest, HttpRequestView, Method, RequestError, RequestErrorView,
    STATUS_OK, STATUS_UNAUTHORIZED,
};
use crate::ipv4::{dotted, Ipv4Addr};
use crate::json::{
    all_well_formed, distinct_keys, json_number, json_parse, json_text, member_from,
    member_views, members_well_formed, object, string, views, Json, JsonView,
};
use vstd::prelude::*;

verus! {

/// A zone of the provider: its identifier and its domain name.
#[derive(Clone, Debug, PartialEq, Eq)]
pub struct Zone {
    pub id: String,
    pub name: String,
}

/// The mathematical model of a [`Zone`].
pub struct ZoneView {
    pub id: Seq<char>,
    pub name: Seq<char>,
}

impl View for Zone {
    type V = ZoneView;

    open spec fn view(&self) -> ZoneView {
        ZoneView { id: self.id@, name: self.name@ }
    }
}

impl DeepView for Zone {
    type V = ZoneView;

    open spec fn deep_view(&self) -> ZoneView {
        self@
    }
}

/// A resource record of the provider. `record_type` is the member `type` of
/// the provider's JSON, and `value` holds the address as dotted-decimal text.
#[derive(Clone, Debug, PartialEq, Eq)]
pub struct Record {
    pub id: String,
    pub zone_id: String,
    pub name: String,
    pub record_type: String,
    pub value: String,
}

/// The mathematical model of a [`Record`].
pub struct RecordView {
    pub id: Seq<char>,
    pub zone_id: Seq<char>,
    pub name: Seq<char>,
    pub record_type: Seq<char>,
    pub value: Seq<char>,
}

impl View for Record {
    type V = RecordView;

    open spec fn view(&self) -> RecordView {
        RecordView {
            id: self.id@,
            zone_id: self.zone_id@,
            name: self.name@,
            record_type: self.record_type@,
            value: self.value@,
        }
    }
}

impl DeepView for Record {
    type V = RecordView;

    open spec fn deep_view(&self) -> RecordView {
        self@
    }
}

/// The zone that a JSON object describes: its string members `id` and `name`.
pub open spec fn zone_of_json(doc: JsonView) -> Option<ZoneView> {
    match (doc.text_field("id"@), doc.text_field("name"@)) {
        (Some(id), Some(name)) => Some(ZoneView { id, name }),
        _ => None,
    }
}

/// The JSON object that describes a zone.
pub open spec fn json_of_zone(zone: ZoneView) -> JsonView {
    object(seq![("id"@, string(zone.id)), ("name"@, string(zone.name))])
}

/// The record that a JSON object describes: its string members `id`,
/// `zone_id`, `name`, `type` and `value`.
pub open spec fn record_of_json(doc: JsonView) -> Option<RecordView> {
    match (
        doc.text_field("id"@),
        doc.text_field("zone_id"@),
        doc.text_field("name"@),
        doc.text_field("type"@),
        doc.text_field("value"@),
    ) {
        (Some(id), Some(zone_id), Some(name), Some(record_type), Some(value)) => Some(
            RecordView { id, zone_id, name, record_type, value },
        ),
        _ => None,
    }
}

/// The JSON object that describes a record.
pub open spec fn json_of_record(record: RecordView) -> JsonView {
    object(
        seq![
            ("id"@, string(record.id)),
            ("zone_id"@, string(record.zone_id)),
            ("name"@, string(record.name)),
            ("type"@, string(record.record_type)),
            ("value"@, string(record.value)),
        ],
    )
}

/// The member names of the provider's JSON are pairwise different.
pub proof fn lemma_member_names_differ()
    ensures
        "id"@ != "zone_id"@,
        "id"@ != "name"@,
        "id"@ != "type"@,
        "id"@ != "value"@,
        "zone_id"@ != "name"@,
        "zone_id"@ != "type"@,
        "zone_id"@ != "value"@,
        "name"@ != "type"@,
        "name"@ != "value"@,
        "type"@ != "value"@,
        "name"@ != "ttl"@,
        "ttl"@ != "type"@,
        "ttl"@ != "value"@,
        "ttl"@ != "zone_id"@,
{
    reveal_strlit("id");
    reveal_strlit("zone_id");
    reveal_strlit("name");
    reveal_strlit("type");
    reveal_strlit("value");
    reveal_strlit("ttl");
    assert("id"@.len() == 2);
    assert("zone_id"@.len() == 7);
    assert("name"@.len() == 4);
    assert("type"@.len() == 4);
    assert("value"@.len() == 5);
    assert("ttl"@.len() == 3);
    assert("name"@[0] != "type"@[0]);
}

/// Describing a zone in JSON and reading the description gives the zone back.
pub proof fn lemma_zone_roundtrip(zone: ZoneView)
    ensures
        zone_of_json(json_of_zone(zone)) == Some(zone),
{
    lemma_member_names_differ();
    let members = seq![("id"@, string(zone.id)), ("name"@, string(zone.name))];
    assert(member_from(members, "id"@, 0) == Some(string(zone.id)));
    assert(member_from(members, "name"@, 1) == Some(string(zone.name)));
    assert(member_from(members, "name"@, 0) == Some(string(zone.name)));
}

/// Describing a record in JSON and reading the description gives the record
/// back.
pub proof fn lemma_record_roundtrip(record: RecordView)
    ensures
        record_of_json(json_of_record(record)) == Some(record),
{
    lemma_member_names_differ();
    let members = seq![
        ("id"@, string(record.id)),
        ("zone_id"@, string(record.zone_id)),
        ("name"@, string(record.name)),
        ("type"@, string(record.record_type)),
        ("value"@, string(record.value)),
    ];
    reveal_with_fuel(member_from, 6);
    assert(member_from(members, "id"@, 0) == Some(string(record.id)));
    assert(member_from(members, "zone_id"@, 0) == Some(string(record.zone_id)));
    assert(member_from(members, "name"@, 0) == Some(string(record.name)));
    assert(member_from(members, "type"@, 0) == Some(string(record.record_type)));
    assert(member_from(members, "value"@, 0) == Some(string(record.value)));
}

/// The JSON objects that describe a zone and a record bear no key twice.
pub proof fn lemma_descriptions_are_well_formed(zone: ZoneView, record: RecordView)
    ensures
        json_of_zone(zone).well_formed(),
        json_of_record(record).well_formed(),
{
    lemma_member_names_differ();
    reveal_with_fuel(JsonView::well_formed, 2);
}

impl Zone {
    /// Reads a zone from the JSON object that describes it.
    pub fn from_json(doc: &Json) -> (zone: Option<Zone>)
        ensures
            zone.deep_view() == zone_of_json(doc@),
    {
        let id = match doc.get_str("id") {
            Some(text) => text,
            None => {
                return None;
            },
        };
        let name = match doc.get_str("name") {
            Some(text) => text,
            None => {
                return None;
            },
        };
        Some(Zone { id: id.to_owned(), name: name.to_owned() })
    }

    /// The JSON object that describes the zone.
    pub fn to_json(&self) -> (doc: Json)
        ensures
            doc@ == json_of_zone(self@),
            doc@.well_formed(),
    {
        proof {
            lemma_descriptions_are_well_formed(self@, arbitrary());
        }
        let mut members: Vec<(String, Json)> = Vec::new();
        members.push(("id".to_owned(), Json::string(self.id.as_str())));
        members.push(("name".to_owned(), Json::string(self.name.as_str())));
        assert(member_views(members@) =~= seq![
            ("id"@, string(self.id@)),
            ("name"@, string(self.name@)),
        ]);
        Json::object(members)
    }
}

impl Record {
    /// Reads a record from the JSON object that describes it.
    pub fn from_json(doc: &Json) -> (record: Option<Record>)
        ensures
            record.deep_view() == record_of_json(doc@),
    {
        let id = match doc.get_str("id") {
            Some(text) => text,
            None => {
                return None;
            },
        };
        let zone_id = match doc.get_str("zone_id") {
            Some(text) => text,
            None => {
                return None;
            },
        };
        let name = match doc.get_str("name") {
            Some(text) => text,
            None => {
                return None;
            },
        };
        let record_type = match doc.get_str("type") {
            Some(text) => text,
            None => {
                return None;
            },
        };
        let value = match doc.get_str("value") {
            Some(text) => text,
            None => {
                return None;
            },
        };
        Some(
            Record {
                id: id.to_owned(),
                zone_id: zone_id.to_owned(),
                name: name.to_owned(),
                record_type: record_type.to_owned(),
                value: value.to_owned(),
            },
        )
    }

    /// The JSON object that describes the record.
    pub fn to_json(&self) -> (doc: Json)
        ensures
            doc@ == json_of_record(self@),
            doc@.well_formed(),
    {
        proof {
            lemma_descriptions_are_well_formed(arbitrary(), self@);
        }
        let mut members: Vec<(String, Json)> = Vec::new();
        members.push(("id".to_owned(), Json::string(self.id.as_str())));
        members.push(("zone_id".to_owned(), Json::string(self.zone_id.as_str())));
        members.push(("name".to_owned(), Json::string(self.name.as_str())));
        members.push(("type".to_owned(), Json::string(self.record_type.as_str())));
        members.push(("value".to_owned(), Json::string(self.value.as_str())));
        assert(member_views(members@) =~= seq![
            ("id"@, string(self.id@)),
            ("zone_id"@, string(self.zone_id@)),
            ("name"@, string(self.name@)),
            ("type"@, string(self.record_type@)),
            ("value"@, string(self.value@)),
        ]);
        Json::object(members)
    }
}

/// The zones that a list of JSON objects describes, where each describes one.
pub open spec fn zones_of_items(items: Seq<JsonView>) -> Option<Seq<ZoneView>> {
    if forall|i: int| 0 <= i < items.len() ==> (#[trigger] zone_of_json(items[i])) is Some {
        Some(Seq::new(items.len(), |i: int| zone_of_json(items[i])->Some_0))
    } else {
        None
    }
}

/// The records that a list of JSON objects describes, where each describes
/// one.
pub open spec fn records_of_items(items: Seq<JsonView>) -> Option<Seq<RecordView>> {
    if forall|i: int| 0 <= i < items.len() ==> (#[trigger] record_of_json(items[i])) is Some {
        Some(Seq::new(items.len(), |i: int| record_of_json(items[i])->Some_0))
    } else {
        None
    }
}

/// The zones listed by the answer to a zone query: the array member `zones`.
pub open spec fn zones_of_json(doc: JsonView) -> Option<Seq<ZoneView>> {
    match doc.items_field("zones"@) {
        Some(items) => zones_of_items(items),
        None => None,
    }
}

/// The records listed by the answer to a record query: the array member
/// `records`.
pub open spec fn records_of_json(doc: JsonView) -> Option<Seq<RecordView>> {
    match doc.items_field("records"@) {
        Some(items) => records_of_items(items),
        None => None,
    }
}

/// The record echoed by the answer to an update: the member `record`.
pub open spec fn updated_record_of_json(doc: JsonView) -> Option<RecordView> {
    match doc.field("record"@) {
        Some(inner) => record_of_json(inner),
        None => None,
    }
}

/// The answer to a zone query.
#[derive(Clone, Debug, PartialEq, Eq)]
pub struct GetZonesResponse {
    pub zones: Vec<Zone>,
}

impl View for GetZonesResponse {
    type V = Seq<ZoneView>;

    open spec fn view(&self) -> Seq<ZoneView> {
        self.zones.deep_view()
    }
}

impl DeepView for GetZonesResponse {
    type V = Seq<ZoneView>;

    open spec fn deep_view(&self) -> Seq<ZoneView> {
        self@
    }
}

/// The answer to a record query.
#[derive(Clone, Debug, PartialEq, Eq)]
pub struct GetRecordsResponse {
    pub records: Vec<Record>,
}

impl View for GetRecordsResponse {
    type V = Seq<RecordView>;

    open spec fn view(&self) -> Seq<RecordView> {
        self.records.deep_view()
    }
}

impl DeepView for GetRecordsResponse {
    type V = Seq<RecordView>;

    open spec fn deep_view(&self) -> Seq<RecordView> {
        self@
    }
}

/// The answer to an update: the record as the provider now holds it.
#[derive(Clone, Debug, PartialEq, Eq)]
pub struct UpdateRecordResponse {
    pub record: Record,
}

impl View for UpdateRecordResponse {
    type V = RecordView;

    open spec fn view(&self) -> RecordView {
        self.record@
    }
}

impl DeepView for UpdateRecordResponse {
    type V = RecordView;

    open spec fn deep_view(&self) -> RecordView {
        self@
    }
}

impl GetZonesResponse {
    /// Reads the answer to a zone query from its JSON document.
    pub fn from_json(doc: &Json) -> (response: Option<GetZonesResponse>)
        ensures
            response.deep_view() == zones_of_json(doc@),
    {
        let items = match doc.get_array("zones") {
            Some(items) => items,
            None => {
                return None;
            },
        };
        let mut zones: Vec<Zone> = Vec::new();
        let mut i: usize = 0;
        while i < items.len()
            invariant
                doc@.items_field("zones"@) == Some(views(items@)),
                i <= items.len(),
                zones@.len() == i,
                forall|k: int|
                    0 <= k < i ==> zone_of_json(#[trigger] views(items@)[k]) == Some(zones@[k]@),
            decreases items.len() - i,
        {
            match Zone::from_json(&items[i]) {
                Some(zone) => {
                    zones.push(zone);
                },
                None => {
                    assert(zone_of_json(views(items@)[i as int]) is None);
                    return None;
                },
            }
            i += 1;
        }
        let response = GetZonesResponse { zones };
        assert(response@ =~= zones_of_items(views(items@))->Some_0);
        Some(response)
    }

    /// The JSON document of the answer.
    pub fn to_json(&self) -> (doc: Json)
        ensures
            zones_of_json(doc@) == Some(self@),
            doc@.well_formed(),
    {
        let mut items: Vec<Json> = Vec::new();
        let mut i: usize = 0;
        while i < self.zones.len()
            invariant
                i <= self.zones.len(),
                items@.len() == i,
                forall|k: int|
                    0 <= k < i ==> (#[trigger] items@[k])@ == json_of_zone(self.zones@[k]@),
                forall|k: int| 0 <= k < i ==> (#[trigger] items@[k])@.well_formed(),
            decreases self.zones.len() - i,
        {
            items.push(self.zones[i].to_json());
            i += 1;
        }
        let mut members: Vec<(String, Json)> = Vec::new();
        let ghost shown = views(items@);
        assert(all_well_formed(shown)) by {
            assert forall|k: int| 0 <= k < shown.len() implies (#[trigger] shown[k]).well_formed() by {
                assert(items@[k]@.well_formed());
            }
        }
        members.push(("zones".to_owned(), Json::array(items)));
        let doc = Json::object(members);
        proof {
            assert(member_views(members@) =~= seq![("zones"@, JsonView::Array(shown))]);
            assert(distinct_keys(member_views(members@)));
            assert(members_well_formed(member_views(members@)));
            assert(doc@.items_field("zones"@) == Some(shown));
            assert forall|k: int| 0 <= k < shown.len() implies (#[trigger] zone_of_json(
                shown[k],
            )) == Some(self.zones@[k]@) by {
                assert(items@[k]@ == json_of_zone(self.zones@[k]@));
                lemma_zone_roundtrip(self.zones@[k]@);
            }
            assert(zones_of_items(shown)->Some_0 =~= self@);
        }
        doc
    }
}

impl GetRecordsResponse {
    /// Reads the answer to a record query from its JSON document.
    pub fn from_json(doc: &Json) -> (response: Option<GetRecordsResponse>)
        ensures
            response.deep_view() == records_of_json(doc@),
    {
        let items = match doc.get_array("records") {
            Some(items) => items,
            None => {
                return None;
            },
        };
        let mut records: Vec<Record> = Vec::new();
        let mut i: usize = 0;
        while i < items.len()
            invariant
                doc@.items_field("records"@) == Some(views(items@)),
                i <= items.len(),
                records@.len() == i,
                forall|k: int|
                    0 <= k < i ==> record_of_json(#[trigger] views(items@)[k]) == Some(
                        records@[k]@,
                    ),
            decreases items.len() - i,
        {
            match Record::from_json(&items[i]) {
                Some(record) => {
                    records.push(record);
                },
                None => {
                    assert(record_of_json(views(items@)[i as int]) is None);
                    return None;
                },
            }
            i += 1;
        }
        let response = GetRecordsResponse { records };
        assert(response@ =~= records_of_items(views(items@))->Some_0);
        Some(response)
    }

    /// The JSON document of the answer.
    pub fn to_json(&self) -> (doc: Json)
        ensures
            records_of_json(doc@) == Some(self@),
            doc@.well_formed(),
    {
        let mut items: Vec<Json> = Vec::new();
        let mut i: usize = 0;
        while i < self.records.len()
            invariant
                i <= self.records.len(),
                items@.len() == i,
                forall|k: int|
                    0 <= k < i ==> (#[trigger] items@[k])@ == json_of_record(self.records@[k]@),
                forall|k: int| 0 <= k < i ==> (#[trigger] items@[k])@.well_formed(),
            decreases self.records.len() - i,
        {
            items.push(self.records[i].to_json());
            i += 1;
        }
        let mut members: Vec<(String, Json)> = Vec::new();
        let ghost shown = views(items@);
        assert(all_well_formed(shown)) by {
            assert forall|k: int| 0 <= k < shown.len() implies (#[trigger] shown[k]).well_formed() by {
                assert(items@[k]@.well_formed());
            }
        }
        members.push(("records".to_owned(), Json::array(items)));
        let doc = Json::object(members);
        proof {
            assert(member_views(members@) =~= seq![("records"@, JsonView::Array(shown))]);
            assert(distinct_keys(member_views(members@)));
            assert(members_well_formed(member_views(members@)));
            assert(doc@.items_field("records"@) == Some(shown));
            assert forall|k: int| 0 <= k < shown.len() implies (#[trigger] record_of_json(
                shown[k],
            )) == Some(self.records@[k]@) by {
                assert(items@[k]@ == json_of_record(self.records@[k]@));
                lemma_record_roundtrip(self.records@[k]@);
            }
            assert(records_of_items(shown)->Some_0 =~= self@);
        }
        doc
    }
}

impl UpdateRecordResponse {
    /// Reads the answer to an update from its JSON document.
    pub fn from_json(doc: &Json) -> (response: Option<UpdateRecordResponse>)
        ensures
            response.deep_view() == updated_record_of_json(doc@),
    {
        match doc.get("record") {
            Some(inner) => match Record::from_json(inner) {
                Some(record) => Some(UpdateRecordResponse { record }),
                None => None,
            },
            None => None,
        }
    }

    /// The JSON document of the answer.
    pub fn to_json(&self) -> (doc: Json)
        ensures
            updated_record_of_json(doc@) == Some(self@),
            doc@.well_formed(),
    {
        let mut members: Vec<(String, Json)> = Vec::new();
        members.push(("record".to_owned(), self.record.to_json()));
        let doc = Json::object(members);
        proof {
            assert(member_views(members@) =~= seq![("record"@, json_of_record(self.record@))]);
            assert(distinct_keys(member_views(members@)));
            assert(members_well_formed(member_views(members@)));
            assert(doc@.field("record"@) == Some(json_of_record(self.record@)));
            lemma_record_roundtrip(self.record@);
        }
        doc
    }
}

/// The time to live, in seconds, that every update asks for.
pub const RECORD_TTL: u16 = 60;

/// The body of an update: the record's name, its time to live in seconds, its
/// type (`type` in the provider's JSON), the new value and the zone.
#[derive(Clone, Debug, PartialEq, Eq)]
pub struct UpdateRecordRequest {
    pub name: String,
    pub ttl: u16,
    pub record_type: String,
    pub value: String,
    pub zone_id: String,
}

/// The mathematical model of an [`UpdateRecordRequest`].
pub struct UpdateRecordRequestView {
    pub name: Seq<char>,
    pub ttl: u16,
    pub record_type: Seq<char>,
    pub value: Seq<char>,
    pub zone_id: Seq<char>,
}

impl View for UpdateRecordRequest {
    type V = UpdateRecordRequestView;

    open spec fn view(&self) -> UpdateRecordRequestView {
        UpdateRecordRequestView {
            name: self.name@,
            ttl: self.ttl,
            record_type: self.record_type@,
            value: self.value@,
            zone_id: self.zone_id@,
        }
    }
}

impl DeepView for UpdateRecordRequest {
    type V = UpdateRecordRequestView;

    open spec fn deep_view(&self) -> UpdateRecordRequestView {
        self@
    }
}

/// The JSON object that is the body of an update.
pub open spec fn json_of_update(request: UpdateRecordRequestView) -> JsonView {
    object(
        seq![
            ("name"@, string(request.name)),
            ("ttl"@, JsonView::Number(json_number(request.ttl as u64))),
            ("type"@, string(request.record_type)),
            ("value"@, string(request.value)),
            ("zone_id"@, string(request.zone_id)),
        ],
    )
}

/// The body that sets the record `name` of zone `zone_id` to the address
/// `ip`: an `A` record with the fixed time to live.
pub open spec fn update_for(name: Seq<char>, zone_id: Seq<char>, ip: Ipv4Addr)
    -> UpdateRecordRequestView {
    UpdateRecordRequestView {
        name,
        ttl: RECORD_TTL,
        record_type: "A"@,
        value: dotted(ip),
        zone_id,
    }
}

/// The JSON object that is the body of an update bears no key twice.
pub proof fn lemma_update_is_well_formed(request: UpdateRecordRequestView)
    ensures
        json_of_update(request).well_formed(),
{
    lemma_member_names_differ();
    reveal_with_fuel(JsonView::well_formed, 2);
}

impl UpdateRecordRequest {
    /// The body that sets the record `name` of zone `zone_id` to `ip`.
    pub fn new(name: &str, zone_id: &str, ip: Ipv4Addr) -> (request: UpdateRecordRequest)
        ensures
            request@ == update_for(name@, zone_id@, ip),
    {
        UpdateRecordRequest {
            name: name.to_owned(),
            ttl: RECORD_TTL,
            record_type: "A".to_owned(),
            value: ip.to_string(),
            zone_id: zone_id.to_owned(),
        }
    }

    /// The JSON object that is the body.
    pub fn to_json(&self) -> (doc: Json)
        ensures
            doc@ == json_of_update(self@),
            doc@.well_formed(),
    {
        proof {
            lemma_update_is_well_formed(self@);
        }
        let mut members: Vec<(String, Json)> = Vec::new();
        members.push(("name".to_owned(), Json::string(self.name.as_str())));
        members.push(("ttl".to_owned(), Json::number(self.ttl as u64)));
        members.push(("type".to_owned(), Json::string(self.record_type.as_str())));
        members.push(("value".to_owned(), Json::string(self.value.as_str())));
        members.push(("zone_id".to_owned(), Json::string(self.zone_id.as_str())));
        assert(member_views(members@) =~= seq![
            ("name"@, string(self.name@)),
            ("ttl"@, JsonView::Number(json_number(self.ttl as u64))),
            ("type"@, string(self.record_type@)),
            ("value"@, string(self.value@)),
            ("zone_id"@, string(self.zone_id@)),
        ]);
        Json::object(members)
    }
}

/// Why a call of the provider's API gave no result.
#[derive(Clone, Debug, PartialEq, Eq)]
pub enum HetznerDnsClientError {
    /// The provider refused the API token.
    InvalidApiToken,
    /// The zone query was answered with an unexpected status.
    FailedToResolveZone { zone: String },
    /// The update was answered with an unexpected status.
    FaliedToUpdateIp { record: String },
    /// The record query was answered with an unexpected status.
    FailedToResolveRecord { record: String },
    /// The provider listed more than one zone for the domain.
    AmbiguousZone { zone: String },
    /// The transport failed, or the body was not the JSON expected.
    RequestFailed { source: RequestError },
    /// A failure inside the client.
    InternalError,
}

/// The mathematical model of a [`HetznerDnsClientError`].
pub enum HetznerDnsClientErrorView {
    InvalidApiToken,
    FailedToResolveZone { zone: Seq<char> },
    FaliedToUpdateIp { record: Seq<char> },
    FailedToResolveRecord { record: Seq<char> },
    AmbiguousZone { zone: Seq<char> },
    RequestFailed { source: RequestErrorView },
    InternalError,
}

impl View for HetznerDnsClientError {
    type V = HetznerDnsClientErrorView;

    open spec fn view(&self) -> HetznerDnsClientErrorView {
        match self {
            HetznerDnsClientError::InvalidApiToken => HetznerDnsClientErrorView::InvalidApiToken,
            HetznerDnsClientError::FailedToResolveZone { zone } => {
                HetznerDnsClientErrorView::FailedToResolveZone { zone: zone@ }
            },
            HetznerDnsClientError::FaliedToUpdateIp { record } => {
                HetznerDnsClientErrorView::FaliedToUpdateIp { record: record@ }
            },
            HetznerDnsClientError::FailedToResolveRecord { record } => {
                HetznerDnsClientErrorView::FailedToResolveRecord { record: record@ }
            },
            HetznerDnsClientError::AmbiguousZone { zone } => {
                HetznerDnsClientErrorView::AmbiguousZone { zone: zone@ }
            },
            HetznerDnsClientError::RequestFailed { source } => {
                HetznerDnsClientErrorView::RequestFailed { source: source@ }
            },
            HetznerDnsClientError::InternalError => HetznerDnsClientErrorView::InternalError,
        }
    }
}

impl DeepView for HetznerDnsClientError {
    type V = HetznerDnsClientErrorView;

    open spec fn deep_view(&self) -> HetznerDnsClientErrorView {
        self@
    }
}

/// The error for a transport that produced no response.
pub open spec fn transport_failure(reason: Seq<char>) -> HetznerDnsClientErrorView {
    HetznerDnsClientErrorView::RequestFailed {
        source: RequestErrorView::Transport { reason },
    }
}

/// The error for a body that is not the JSON expected.
pub open spec fn decode_failure() -> HetznerDnsClientErrorView {
    HetznerDnsClientErrorView::RequestFailed { source: RequestErrorView::Decode }
}

/// The zone that a list of zones settles on for `zone`: none where the list is
/// empty, its one entry where it has one, and an error where it has more,
/// since picking one of several would be a guess.
pub open spec fn pick_zone(zone: Seq<char>, zones: Seq<ZoneView>) -> Result<
    Option<ZoneView>,
    HetznerDnsClientErrorView,
> {
    if zones.len() == 0 {
        Ok(None)
    } else if zones.len() == 1 {
        Ok(Some(zones[0]))
    } else {
        Err(HetznerDnsClientErrorView::AmbiguousZone { zone })
    }
}

/// The first record at or after `from` whose name is `name`.
pub open spec fn record_named(records: Seq<RecordView>, name: Seq<char>, from: int) -> Option<
    RecordView,
>
    decreases records.len() - from,
{
    if from < 0 || from >= records.len() {
        None
    } else if records[from].name == name {
        Some(records[from])
    } else {
        record_named(records, name, from + 1)
    }
}

/// What the body of a successful zone query means for `zone`, given what
/// parsing it as JSON gave.
pub open spec fn zone_in_body(zone: Seq<char>, doc: Option<JsonView>) -> Result<
    Option<ZoneView>,
    HetznerDnsClientErrorView,
> {
    match doc {
        Some(doc) => match zones_of_json(doc) {
            Some(zones) => pick_zone(zone, zones),
            None => Err(decode_failure()),
        },
        None => Err(decode_failure()),
    }
}

/// What the body of a successful record query means for `subdomain`, given
/// what parsing it as JSON gave.
pub open spec fn record_in_body(subdomain: Seq<char>, doc: Option<JsonView>) -> Result<
    Option<RecordView>,
    HetznerDnsClientErrorView,
> {
    match doc {
        Some(doc) => match records_of_json(doc) {
            Some(records) => Ok(record_named(records, subdomain, 0)),
            None => Err(decode_failure()),
        },
        None => Err(decode_failure()),
    }
}

/// What the body of a successful update means, given what parsing it as JSON
/// gave.
pub open spec fn record_in_update_body(doc: Option<JsonView>) -> Result<
    RecordView,
    HetznerDnsClientErrorView,
> {
    match doc {
        Some(doc) => match updated_record_of_json(doc) {
            Some(record) => Ok(record),
            None => Err(decode_failure()),
        },
        None => Err(decode_failure()),
    }
}

/// What the answer to a zone query means for `zone`.
pub open spec fn find_zone_outcome(zone: Seq<char>, reply: HttpReplyView) -> Result<
    Option<ZoneView>,
    HetznerDnsClientErrorView,
> {
    match reply {
        HttpReplyView::Failed { reason } => Err(transport_failure(reason)),
        HttpReplyView::Response { status, body } => {
            if status == STATUS_OK {
                zone_in_body(zone, json_parse(body))
            } else if status == STATUS_UNAUTHORIZED {
                Err(HetznerDnsClientErrorView::InvalidApiToken)
            } else {
                Err(HetznerDnsClientErrorView::FailedToResolveZone { zone })
            }
        },
    }
}

/// What the answer to a record query for zone `zone_id` means for
/// `subdomain`.
pub open spec fn find_record_outcome(
    zone_id: Seq<char>,
    subdomain: Seq<char>,
    reply: HttpReplyView,
) -> Result<Option<RecordView>, HetznerDnsClientErrorView> {
    match reply {
        HttpReplyView::Failed { reason } => Err(transport_failure(reason)),
        HttpReplyView::Response { status, body } => {
            if status == STATUS_OK {
                record_in_body(subdomain, json_parse(body))
            } else if status == STATUS_UNAUTHORIZED {
                Err(HetznerDnsClientErrorView::InvalidApiToken)
            } else {
                Err(HetznerDnsClientErrorView::FailedToResolveRecord { record: zone_id })
            }
        },
    }
}

/// What the answer to an update of the record `record_id` means.
pub open spec fn update_ip_outcome(record_id: Seq<char>, reply: HttpReplyView) -> Result<
    RecordView,
    HetznerDnsClientErrorView,
> {
    match reply {
        HttpReplyView::Failed { reason } => Err(transport_failure(reason)),
        HttpReplyView::Response { status, body } => {
            if status == STATUS_OK {
                record_in_update_body(json_parse(body))
            } else if status == STATUS_UNAUTHORIZED {
                Err(HetznerDnsClientErrorView::InvalidApiToken)
            } else {
                Err(HetznerDnsClientErrorView::FaliedToUpdateIp { record: record_id })
            }
        },
    }
}

/// The zone that the answer to a zone query settles on for `zone`.
pub fn select_zone(zone: &str, response: GetZonesResponse) -> (found: Result<
    Option<Zone>,
    HetznerDnsClientError,
>)
    ensures
        result_view(found) == pick_zone(zone@, response@),
{
    let mut zones = response.zones;
    if zones.len() == 0 {
        Ok(None)
    } else if zones.len() == 1 {
        let only = zones.pop();
        Ok(only)
    } else {
        Err(HetznerDnsClientError::AmbiguousZone { zone: zone.to_owned() })
    }
}

/// The first record of the answer to a record query whose name is
/// `subdomain`.
pub fn select_record(subdomain: &str, response: GetRecordsResponse) -> (found: Option<Record>)
    ensures
        found.deep_view() == record_named(response@, subdomain@, 0),
{
    let mut records = response.records;
    let wanted = subdomain.to_owned();
    let mut i: usize = 0;
    while i < records.len()
        invariant
            i <= records.len(),
            wanted@ == subdomain@,
            records.deep_view() == response@,
            record_named(response@, subdomain@, 0) == record_named(
                response@,
                subdomain@,
                i as int,
            ),
        decreases records.len() - i,
    {
        assert(records.deep_view()[i as int] == records@[i as int]@);
        if records[i].name == wanted {
            let record = records.remove(i);
            return Some(record);
        }
        i += 1;
    }
    None
}

/// The header that carries the API token.
pub open spec fn token_header_name() -> Seq<char> {
    "Auth-API-Token"@
}

/// The client of the provider's API: where the API lives and the token that
/// authenticates each request.
#[derive(Clone, Debug, PartialEq, Eq)]
pub struct HetznerDnsClient {
    api_url: String,
    api_token: String,
}

/// The mathematical model of a [`HetznerDnsClient`].
pub struct HetznerDnsClientView {
    pub api_url: Seq<char>,
    pub api_token: Seq<char>,
}

impl View for HetznerDnsClient {
    type V = HetznerDnsClientView;

    closed spec fn view(&self) -> HetznerDnsClientView {
        HetznerDnsClientView { api_url: self.api_url@, api_token: self.api_token@ }
    }
}

/// The URL under which the provider serves its API.
pub const API_URL: &'static str = "https://dns.hetzner.com/api/v1";

/// The request that asks for the zones named `zone`.
pub open spec fn find_zone_request_for(client: HetznerDnsClientView, zone: Seq<char>)
    -> HttpRequestView {
    HttpRequestView {
        method: Method::Get,
        url: client.api_url + "/zones?name="@ + zone,
        headers: seq![(token_header_name(), client.api_token)],
        body: None,
    }
}

/// The request that asks for the records of the zone `zone_id`.
pub open spec fn find_record_request_for(client: HetznerDnsClientView, zone_id: Seq<char>)
    -> HttpRequestView {
    HttpRequestView {
        method: Method::Get,
        url: client.api_url + "/records?zone_id="@ + zone_id,
        headers: seq![(token_header_name(), client.api_token)],
        body: None,
    }
}

/// The request that sets the record `record_id`, named `name` in the zone
/// `zone_id`, to the address `ip`.
pub open spec fn update_ip_request_for(
    client: HetznerDnsClientView,
    name: Seq<char>,
    zone_id: Seq<char>,
    record_id: Seq<char>,
    ip: Ipv4Addr,
) -> HttpRequestView {
    HttpRequestView {
        method: Method::Put,
        url: client.api_url + "/records/"@ + record_id,
        headers: seq![
            (content_type_name(), content_type_json()),
            (token_header_name(), client.api_token),
        ],
        body: Some(json_text(json_of_update(update_for(name, zone_id, ip)))),
    }
}

impl HetznerDnsClient {
    /// A client of the provider's public API.
    pub fn new(api_token: &str) -> (client: HetznerDnsClient)
        ensures
            client@.api_token == api_token@,
            client@.api_url == API_URL@,
    {
        Self::new_with_url(api_token, API_URL)
    }

    /// A client of the API served under `api_url`.
    pub fn new_with_url(api_token: &str, api_url: &str) -> (client: HetznerDnsClient)
        ensures
            client@.api_token == api_token@,
            client@.api_url == api_url@,
    {
        HetznerDnsClient { api_url: api_url.to_owned(), api_token: api_token.to_owned() }
    }

    fn token_header(&self) -> (header: (String, String))
        ensures
            header.deep_view() == (token_header_name(), self@.api_token),
    {
        ("Auth-API-Token".to_owned(), self.api_token.clone())
    }

    fn url(&self, path: &str, argument: &str) -> (url: String)
        ensures
            url@ == self@.api_url + path@ + argument@,
    {
        let mut url = self.api_url.clone();
        url.append(path);
        url.append(argument);
        url
    }

    /// The request that asks for the zones named `zone`.
    pub fn find_zone_request(&self, zone: &str) -> (request: HttpRequest)
        ensures
            request@ == find_zone_request_for(self@, zone@),
    {
        let mut headers: Vec<(String, String)> = Vec::new();
        headers.push(self.token_header());
        let request = HttpRequest {
            method: Method::Get,
            url: self.url("/zones?name=", zone),
            headers,
            body: None,
        };
        assert(request@.headers =~= seq![(token_header_name(), self@.api_token)]);
        request
    }

    /// What the answer to a zone query means for `zone`: the one zone that
    /// the provider lists, or none where it lists none.
    pub fn find_zone(&self, zone: &str, reply: &HttpReply) -> (found: Result<
        Option<Zone>,
        HetznerDnsClientError,
    >)
        ensures
            result_view(found) == find_zone_outcome(zone@, reply@),
    {
        match reply {
            HttpReply::Failed { reason } => Err(
                HetznerDnsClientError::RequestFailed {
                    source: RequestError::Transport { reason: reason.clone() },
                },
            ),
            HttpReply::Response { status, body } => {
                if *status == STATUS_OK {
                    let doc = match Json::parse(body.as_str()) {
                        Some(doc) => doc,
                        None => {
                            return Err(
                                HetznerDnsClientError::RequestFailed {
                                    source: RequestError::Decode,
                                },
                            );
                        },
                    };
                    match GetZonesResponse::from_json(&doc) {
                        Some(response) => select_zone(zone, response),
                        None => Err(
                            HetznerDnsClientError::RequestFailed { source: RequestError::Decode },
                        ),
                    }
                } else if *status == STATUS_UNAUTHORIZED {
                    Err(HetznerDnsClientError::InvalidApiToken)
                } else {
                    Err(HetznerDnsClientError::FailedToResolveZone { zone: zone.to_owned() })
                }
            },
        }
    }

    /// The request that asks for the records of the zone `zone_id`.
    pub fn find_record_request(&self, zone_id: &str) -> (request: HttpRequest)
        ensures
            request@ == find_record_request_for(self@, zone_id@),
    {
        let mut headers: Vec<(String, String)> = Vec::new();
        headers.push(self.token_header());
        let request = HttpRequest {
            method: Method::Get,
            url: self.url("/records?zone_id=", zone_id),
            headers,
            body: None,
        };
        assert(request@.headers =~= seq![(token_header_name(), self@.api_token)]);
        request
    }

    /// What the answer to a record query for the zone `zone_id` means for
    /// `subdomain`: the first record of that name, or none.
    pub fn find_record(&self, zone_id: &str, subdomain: &str, reply: &HttpReply) -> (found:
        Result<Option<Record>, HetznerDnsClientError>)
        ensures
            result_view(found) == find_record_outcome(zone_id@, subdomain@, reply@),
    {
        match reply {
            HttpReply::Failed { reason } => Err(
                HetznerDnsClientError::RequestFailed {
                    source: RequestError::Transport { reason: reason.clone() },
                },
            ),
            HttpReply::Response { status, body } => {
                if *status == STATUS_OK {
                    let doc = match Json::parse(body.as_str()) {
                        Some(doc) => doc,
                        None => {
                            return Err(
                                HetznerDnsClientError::RequestFailed {
                                    source: RequestError::Decode,
                                },
                            );
                        },
                    };
                    match GetRecordsResponse::from_json(&doc) {
                        Some(response) => Ok(select_record(subdomain, response)),
                        None => Err(
                            HetznerDnsClientError::RequestFailed { source: RequestError::Decode },
                        ),
                    }
                } else if *status == STATUS_UNAUTHORIZED {
                    Err(HetznerDnsClientError::InvalidApiToken)
                } else {
                    Err(
                        HetznerDnsClientError::FailedToResolveRecord {
                            record: zone_id.to_owned(),
                        },
                    )
                }
            },
        }
    }

    /// The request that sets the record `record_id`, named `name` in the zone
    /// `zone_id`, to the address `ip`.
    pub fn update_ip_request(&self, name: &str, zone_id: &str, record_id: &str, ip: Ipv4Addr)
        -> (request: HttpRequest)
        ensures
            request@ == update_ip_request_for(self@, name@, zone_id@, record_id@, ip),
    {
        let body = UpdateRecordRequest::new(name, zone_id, ip).to_json().write();
        let mut headers: Vec<(String, String)> = Vec::new();
        headers.push(json_content_type());
        headers.push(self.token_header());
        let request = HttpRequest {
            method: Method::Put,
            url: self.url("/records/", record_id),
            headers,
            body: Some(body),
        };
        assert(request@.headers =~= seq![
            (content_type_name(), content_type_json()),
            (token_header_name(), self@.api_token),
        ]);
        request
    }

    /// What the answer to an update of the record `record_id` means: the
    /// record as the provider now holds it.
    pub fn update_ip(&self, record_id: &str, reply: &HttpReply) -> (updated: Result<
        Record,
        HetznerDnsClientError,
    >)
        ensures
            result_view(updated) == update_ip_outcome(record_id@, reply@),
    {
        match reply {
            HttpReply::Failed { reason } => Err(
                HetznerDnsClientError::RequestFailed {
                    source: RequestError::Transport { reason: reason.clone() },
                },
            ),
            HttpReply::Response { status, body } => {
                if *status == STATUS_OK {
                    let doc = match Json::parse(body.as_str()) {
                        Some(doc) => doc,
                        None => {
                            return Err(
                                HetznerDnsClientError::RequestFailed {
                                    source: RequestError::Decode,
                                },
                            );
                        },
                    };
                    match UpdateRecordResponse::from_json(&doc) {
                        Some(response) => Ok(response.record),
                        None => Err(
                            HetznerDnsClientError::RequestFailed { source: RequestError::Decode },
                        ),
                    }
                } else if *status == STATUS_UNAUTHORIZED {
                    Err(HetznerDnsClientError::InvalidApiToken)
                } else {
                    Err(HetznerDnsClientError::FaliedToUpdateIp { record: record_id.to_owned() })
                }
            },
        }
    }
}

/// What a [`HetznerDnsClientError`] says of itself.
pub open spec fn client_error_message(error: HetznerDnsClientErrorView) -> Seq<char> {
    match error {
        HetznerDnsClientErrorView::InvalidApiToken => {
            "We could not authenticate against the API."@
        },
        HetznerDnsClientErrorView::FailedToResolveZone { zone } => {
            "Failed to retrieve zone: "@ + zone
        },
        HetznerDnsClientErrorView::FaliedToUpdateIp { record } => "Failed to update ip: "@ + record,
        HetznerDnsClientErrorView::FailedToResolveRecord { record } => {
            "Failed to retrieve record: "@ + record
        },
        HetznerDnsClientErrorView::AmbiguousZone { zone } => "More than one zone is named: "@ + zone,
        HetznerDnsClientErrorView::RequestFailed { .. } => "request failed"@,
        HetznerDnsClientErrorView::InternalError => "internal error"@,
    }
}

impl HetznerDnsClientError {
    /// The error in words.
    pub fn to_string(&self) -> (message: String)
        ensures
            message@ == client_error_message(self@),
    {
        match self {
            HetznerDnsClientError::InvalidApiToken => {
                "We could not authenticate against the API.".to_owned()
            },
            HetznerDnsClientError::FailedToResolveZone { zone } => {
                let mut message = "Failed to retrieve zone: ".to_owned();
                message.append(zone.as_str());
                message
            },
            HetznerDnsClientError::FaliedToUpdateIp { record } => {
                let mut message = "Failed to update ip: ".to_owned();
                message.append(record.as_str());
                message
            },
            HetznerDnsClientError::FailedToResolveRecord { record } => {
                let mut message = "Failed to retrieve record: ".to_owned();
                message.append(record.as_str());
                message
            },
            HetznerDnsClientError::AmbiguousZone { zone } => {
                let mut message = "More than one zone is named: ".to_owned();
                message.append(zone.as_str());
                message
            },
            HetznerDnsClientError::RequestFailed { .. } => "request failed".to_owned(),
            HetznerDnsClientError::InternalError => "internal error".to_owned(),
        }
    }
}

/// The record that a lookup finds is the first one listed that bears the
/// wanted name; it finds none exactly where no record listed bears it.
pub proof fn lemma_record_named_is_first(records: Seq<RecordView>, name: Seq<char>, from: int)
    requires
        0 <= from,
    ensures
        match record_named(records, name, from) {
            Some(found) => exists|i: int|
                from <= i < records.len() && #[trigger] records[i] == found && found.name == name
                    && forall|j: int| from <= j < i ==> (#[trigger] records[j]).name != name,
            None => forall|j: int| from <= j < records.len() ==> (#[trigger] records[j]).name != name,
        },
    decreases records.len() - from,
{
    if from < records.len() {
        if records[from].name == name {
            assert(records[from] == records[from]);
        } else {
            lemma_record_named_is_first(records, name, from + 1);
            match record_named(records, name, from + 1) {
                Some(found) => {
                    let i = choose|i: int|
                        from + 1 <= i < records.len() && #[trigger] records[i] == found
                            && found.name == name && forall|j: int|
                            from + 1 <= j < i ==> (#[trigger] records[j]).name != name;
                    assert forall|j: int| from <= j < i implies (#[trigger] records[j]).name
                        != name by {
                        if j > from {
                        }
                    }
                    assert(records[i] == found);
                },
                None => {
                    assert forall|j: int| from <= j < records.len() implies (
                    #[trigger] records[j]).name != name by {
                        if j > from {
                        }
                    }
                },
            }
        }
    }
}

/// Where every record that the provider lists belongs to the zone that was
/// asked for, the record that a lookup finds belongs to that zone.
pub proof fn lemma_found_record_belongs_to_zone(
    records: Seq<RecordView>,
    name: Seq<char>,
    zone_id: Seq<char>,
)
    requires
        forall|i: int| 0 <= i < records.len() ==> (#[trigger] records[i]).zone_id == zone_id,
    ensures
        record_named(records, name, 0) matches Some(found) ==> found.zone_id == zone_id
            && found.name == name,
{
    lemma_record_named_is_first(records, name, 0);
}

} // verus!
