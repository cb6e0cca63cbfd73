//! The data of the protocol: zones, address records and the payloads of the
//! actions' answers.

use vstd::prelude::*;
use crate::envelope::{
    Payload, required_text, optional_text, optional_bool, number_field, bool_field,
    read_required_text, read_optional_text, read_optional_bool, read_number, read_bool,
};
use crate::errors::Errors;
use crate::json::{
    Json, member, members, entry, text_entry, number_entry, text_or_null, text_or_null_json,
    same_text, number_member,
};

verus! {

/// The type of a DNS record. Only `A` and `AAAA` records are managed; any
/// other type is carried through untouched.
#[derive(Debug, Clone, PartialEq, Eq)]
pub enum RecordType {
    A,
    AAAA,
    Other(String),
}

/// The record type that the wire text `s` names.
pub open spec fn record_type_of(s: String) -> RecordType {
    if s@ == "A"@ {
        RecordType::A
    } else if s@ == "AAAA"@ {
        RecordType::AAAA
    } else {
        RecordType::Other(s)
    }
}

/// The wire text of a record type.
pub open spec fn record_type_text(t: RecordType) -> Seq<char> {
    match t {
        RecordType::A => "A"@,
        RecordType::AAAA => "AAAA"@,
        RecordType::Other(s) => s@,
    }
}

impl core::str::FromStr for RecordType {
    type Err = Errors;

    fn from_str(s: &str) -> Result<RecordType, Errors> {
        Ok(RecordType::from_text(&s.to_string()))
    }
}

/// A public address of the host, in its textual form.
#[derive(Debug, Clone, PartialEq, Eq)]
pub enum IpAddress {
    V4(String),
    V6(String),
}

/// The textual form of an address.
pub open spec fn address_text(a: IpAddress) -> String {
    match a {
        IpAddress::V4(s) => s,
        IpAddress::V6(s) => s,
    }
}

/// The record type that holds an address of the family of `a`.
pub open spec fn family_type(a: IpAddress) -> RecordType {
    match a {
        IpAddress::V4(_) => RecordType::A,
        IpAddress::V6(_) => RecordType::AAAA,
    }
}

impl RecordType {
    pub fn from_text(s: &String) -> (r: RecordType)
        ensures
            r == record_type_of(*s),
    {
        if same_text(s.as_str(), "A") {
            RecordType::A
        } else if same_text(s.as_str(), "AAAA") {
            RecordType::AAAA
        } else {
            RecordType::Other(s.clone())
        }
    }

    /// The type of the record that holds `a`.
    pub fn from_address(a: &IpAddress) -> (r: RecordType)
        ensures
            r == family_type(*a),
    {
        match a {
            IpAddress::V4(_) => RecordType::A,
            IpAddress::V6(_) => RecordType::AAAA,
        }
    }

    pub fn text(&self) -> (r: String)
        ensures
            r@ == record_type_text(*self),
    {
        match self {
            RecordType::A => "A".to_string(),
            RecordType::AAAA => "AAAA".to_string(),
            RecordType::Other(s) => s.clone(),
        }
    }

    /// Whether records of this type are managed here.
    pub fn is_managed(&self) -> (r: bool)
        ensures
            r == !(*self is Other),
    {
        match self {
            RecordType::Other(_) => false,
            _ => true,
        }
    }
}

/// A DNS record of a zone. A record that the provider has not created yet
/// has no identifier.
pub struct DnsRecord {
    pub id: Option<String>,
    pub host_name: String,
    pub record_type: RecordType,
    pub priority: Option<String>,
    pub destination: String,
    pub delete_record: Option<bool>,
    pub state: Option<String>,
}

/// The record that a document describes, where it has the expected shape.
pub open spec fn record_of(j: Json) -> Option<DnsRecord> {
    let id = optional_text(member(j, "id"@));
    let host = required_text(member(j, "hostname"@));
    let kind = required_text(member(j, "type"@));
    let priority = optional_text(member(j, "priority"@));
    let destination = required_text(member(j, "destination"@));
    let delete = optional_bool(member(j, "deleterecord"@));
    let state = optional_text(member(j, "state"@));
    if id is Ok && host is Ok && kind is Ok && priority is Ok && destination is Ok && delete is Ok
        && state is Ok {
        Some(
            DnsRecord {
                id: id->Ok_0,
                host_name: host->Ok_0,
                record_type: record_type_of(kind->Ok_0),
                priority: priority->Ok_0,
                destination: destination->Ok_0,
                delete_record: delete->Ok_0,
                state: state->Ok_0,
            },
        )
    } else {
        None
    }
}

/// The document of a record: all seven members in the provider's order,
/// `null` for a field that has no value.
pub open spec fn is_record_json(j: Json, r: DnsRecord) -> bool {
    let m = members(j);
    &&& j is Object
    &&& m.len() == 7
    &&& entry(m, 0, "id"@, text_or_null(r.id))
    &&& entry(m, 1, "hostname"@, Json::Text(r.host_name))
    &&& text_entry(m, 2, "type"@, record_type_text(r.record_type))
    &&& entry(m, 3, "priority"@, text_or_null(r.priority))
    &&& entry(m, 4, "destination"@, Json::Text(r.destination))
    &&& entry(
        m,
        5,
        "deleterecord"@,
        match r.delete_record {
            Some(b) => Json::Bool(b),
            None => Json::Null,
        },
    )
    &&& entry(m, 6, "state"@, text_or_null(r.state))
}

impl DnsRecord {
    /// A new record for `host_name` that points at `destination`, of the type
    /// of the address's family.
    pub fn new(host_name: &str, destination: &IpAddress) -> (r: DnsRecord)
        ensures
            r.id is None,
            r.host_name@ == host_name@,
            r.record_type == family_type(*destination),
            r.destination == address_text(*destination),
            r.priority is None,
            r.delete_record is None,
            r.state is None,
    {
        let text = match destination {
            IpAddress::V4(s) => s.clone(),
            IpAddress::V6(s) => s.clone(),
        };
        DnsRecord {
            id: None,
            host_name: host_name.to_string(),
            record_type: RecordType::from_address(destination),
            priority: None,
            destination: text,
            delete_record: None,
            state: None,
        }
    }

    pub fn host_name(&self) -> (r: &str)
        ensures
            r@ == self.host_name@,
    {
        self.host_name.as_str()
    }

    pub fn record_type(&self) -> (r: &RecordType)
        ensures
            *r == self.record_type,
    {
        &self.record_type
    }

    pub fn destination(&self) -> (r: &str)
        ensures
            r@ == self.destination@,
    {
        self.destination.as_str()
    }

    /// A copy of this record.
    pub fn duplicate(&self) -> (r: DnsRecord)
        ensures
            r == *self,
    {
        let record_type = match &self.record_type {
            RecordType::A => RecordType::A,
            RecordType::AAAA => RecordType::AAAA,
            RecordType::Other(s) => RecordType::Other(s.clone()),
        };
        DnsRecord {
            id: self.id.clone(),
            host_name: self.host_name.clone(),
            record_type,
            priority: self.priority.clone(),
            destination: self.destination.clone(),
            delete_record: self.delete_record,
            state: self.state.clone(),
        }
    }

    pub fn from_json(j: &Json) -> (r: Option<DnsRecord>)
        ensures
            r == record_of(*j),
    {
        let id = read_optional_text(j, "id");
        let host = read_required_text(j, "hostname");
        let kind = read_required_text(j, "type");
        let priority = read_optional_text(j, "priority");
        let destination = read_required_text(j, "destination");
        let delete = read_optional_bool(j, "deleterecord");
        let state = read_optional_text(j, "state");
        match (id, host, kind, priority, destination, delete, state) {
            (Ok(id), Ok(host), Ok(kind), Ok(priority), Ok(destination), Ok(delete), Ok(state)) => {
                Some(
                    DnsRecord {
                        id,
                        host_name: host,
                        record_type: RecordType::from_text(&kind),
                        priority,
                        destination,
                        delete_record: delete,
                        state,
                    },
                )
            },
            _ => None,
        }
    }

    pub fn to_json(&self) -> (r: Json)
        ensures
            is_record_json(r, *self),
    {
        let mut m: Vec<(String, Json)> = Vec::new();
        m.push(("id".to_string(), text_or_null_json(&self.id)));
        m.push(("hostname".to_string(), Json::Text(self.host_name.clone())));
        m.push(("type".to_string(), Json::Text(self.record_type.text())));
        m.push(("priority".to_string(), text_or_null_json(&self.priority)));
        m.push(("destination".to_string(), Json::Text(self.destination.clone())));
        let delete = match self.delete_record {
            Some(b) => Json::Bool(b),
            None => Json::Null,
        };
        m.push(("deleterecord".to_string(), delete));
        m.push(("state".to_string(), text_or_null_json(&self.state)));
        Json::Object(m)
    }
}

/// The settings of a DNS zone. The provider sends the timers as strings.
pub struct DnsZone {
    pub name: String,
    pub ttl: u32,
    pub serial: u32,
    pub refresh: u32,
    pub retry: u32,
    pub expire: u32,
    pub dns_sec_status: bool,
}

/// The zone that a document describes, where it has the expected shape.
pub open spec fn zone_of(j: Json) -> Option<DnsZone> {
    let name = required_text(member(j, "name"@));
    let ttl = number_field(member(j, "ttl"@));
    let serial = number_field(member(j, "serial"@));
    let refresh = number_field(member(j, "refresh"@));
    let retry = number_field(member(j, "retry"@));
    let expire = number_field(member(j, "expire"@));
    let dnssec = bool_field(member(j, "dnssecstatus"@));
    if name is Ok && ttl is Ok && serial is Ok && refresh is Ok && retry is Ok && expire is Ok
        && dnssec is Ok {
        Some(
            DnsZone {
                name: name->Ok_0,
                ttl: ttl->Ok_0,
                serial: serial->Ok_0,
                refresh: refresh->Ok_0,
                retry: retry->Ok_0,
                expire: expire->Ok_0,
                dns_sec_status: dnssec->Ok_0,
            },
        )
    } else {
        None
    }
}

/// The document of a zone: its seven members in the provider's order.
pub open spec fn is_zone_json(j: Json, z: DnsZone) -> bool {
    let m = members(j);
    &&& j is Object
    &&& m.len() == 7
    &&& entry(m, 0, "name"@, Json::Text(z.name))
    &&& number_entry(m, 1, "ttl"@, z.ttl)
    &&& number_entry(m, 2, "serial"@, z.serial)
    &&& number_entry(m, 3, "refresh"@, z.refresh)
    &&& number_entry(m, 4, "retry"@, z.retry)
    &&& number_entry(m, 5, "expire"@, z.expire)
    &&& entry(m, 6, "dnssecstatus"@, Json::Bool(z.dns_sec_status))
}

impl DnsZone {
    pub fn ttl(&self) -> (r: u32)
        ensures
            r == self.ttl,
    {
        self.ttl
    }

    /// Sets the zone's TTL and leaves the rest as it was.
    pub fn ttl_mut(&mut self, ttl: u32)
        ensures
            *final(self) == (DnsZone { ttl, ..*old(self) }),
    {
        self.ttl = ttl;
    }

    pub fn to_json(&self) -> (r: Json)
        ensures
            is_zone_json(r, *self),
    {
        let mut m: Vec<(String, Json)> = Vec::new();
        m.push(("name".to_string(), Json::Text(self.name.clone())));
        m.push(number_member("ttl", self.ttl));
        m.push(number_member("serial", self.serial));
        m.push(number_member("refresh", self.refresh));
        m.push(number_member("retry", self.retry));
        m.push(number_member("expire", self.expire));
        m.push(("dnssecstatus".to_string(), Json::Bool(self.dns_sec_status)));
        Json::Object(m)
    }
}

impl Payload for DnsZone {
    type Model = DnsZone;

    open spec fn model(&self) -> DnsZone {
        *self
    }

    open spec fn carries_data() -> bool {
        true
    }

    open spec fn model_of(j: Json) -> Option<DnsZone> {
        zone_of(j)
    }

    fn has_data() -> (r: bool) {
        true
    }

    fn from_json(j: &Json) -> (r: Option<DnsZone>) {
        let name = read_required_text(j, "name");
        let ttl = read_number(j, "ttl");
        let serial = read_number(j, "serial");
        let refresh = read_number(j, "refresh");
        let retry = read_number(j, "retry");
        let expire = read_number(j, "expire");
        let dnssec = read_bool(j, "dnssecstatus");
        match (name, ttl, serial, refresh, retry, expire, dnssec) {
            (Ok(name), Ok(ttl), Ok(serial), Ok(refresh), Ok(retry), Ok(expire), Ok(dnssec)) => {
                Some(
                    DnsZone {
                        name,
                        ttl,
                        serial,
                        refresh,
                        retry,
                        expire,
                        dns_sec_status: dnssec,
                    },
                )
            },
            _ => None,
        }
    }
}

/// The answer to a login: the id of the new session.
pub struct SessionData {
    pub api_session_id: String,
}

impl SessionData {
    pub fn api_session_id(&self) -> (r: &str)
        ensures
            r@ == self.api_session_id@,
    {
        self.api_session_id.as_str()
    }
}

impl Payload for SessionData {
    type Model = String;

    open spec fn model(&self) -> String {
        self.api_session_id
    }

    open spec fn carries_data() -> bool {
        true
    }

    open spec fn model_of(j: Json) -> Option<String> {
        match required_text(member(j, "apisessionid"@)) {
            Ok(s) => Some(s),
            Err(_) => None,
        }
    }

    fn has_data() -> (r: bool) {
        true
    }

    fn from_json(j: &Json) -> (r: Option<SessionData>) {
        match read_required_text(j, "apisessionid") {
            Ok(s) => Some(SessionData { api_session_id: s }),
            Err(_) => None,
        }
    }
}

/// The records of a zone, as the provider lists them.
pub struct DnsRecords {
    pub dns_records: Vec<DnsRecord>,
}

/// The records that a list of documents describes, where each has the
/// expected shape.
pub open spec fn records_of(items: Seq<Json>) -> Option<Seq<DnsRecord>> {
    if forall|i: int| 0 <= i < items.len() ==> (#[trigger] record_of(items[i])) is Some {
        Some(Seq::new(items.len(), |i: int| record_of(items[i])->Some_0))
    } else {
        None
    }
}

impl DnsRecords {
    pub fn dns_records(&self) -> (r: &Vec<DnsRecord>)
        ensures
            r@ == self.dns_records@,
    {
        &self.dns_records
    }
}

impl Payload for DnsRecords {
    type Model = Seq<DnsRecord>;

    open spec fn model(&self) -> Seq<DnsRecord> {
        self.dns_records@
    }

    open spec fn carries_data() -> bool {
        true
    }

    open spec fn model_of(j: Json) -> Option<Seq<DnsRecord>> {
        match member(j, "dnsrecords"@) {
            Some(Json::Array(items)) => records_of(items@),
            _ => None,
        }
    }

    fn has_data() -> (r: bool) {
        true
    }

    fn from_json(j: &Json) -> (r: Option<DnsRecords>) {
        match j.get("dnsrecords") {
            Some(Json::Array(items)) => {
                let mut out: Vec<DnsRecord> = Vec::new();
                let mut i: usize = 0;
                while i < items.len()
                    invariant
                        i <= items@.len(),
                        out@.len() == i,
                        member(*j, "dnsrecords"@) == Some(Json::Array(*items)),
                        forall|k: int| 0 <= k < i ==> record_of(items@[k]) == Some(#[trigger] out@[k]),
                    decreases items@.len() - i,
                {
                    match DnsRecord::from_json(&items[i]) {
                        Some(rec) => out.push(rec),
                        None => {
                            assert(record_of(items@[i as int]) is None);
                            return None;
                        },
                    }
                    i = i + 1;
                }
                assert forall|k: int| 0 <= k < items@.len() implies (#[trigger] record_of(items@[k])) is Some by {
                    assert(record_of(items@[k]) == Some(out@[k]));
                };
                assert(out@ =~= Seq::new(items@.len(), |k: int| record_of(items@[k])->Some_0));
                Some(DnsRecords { dns_records: out })
            },
            _ => None,
        }
    }
}

/// The answer of an action that defines no data.
pub struct NoData;

impl Payload for NoData {
    type Model = ();

    open spec fn model(&self) -> () {
        ()
    }

    open spec fn carries_data() -> bool {
        false
    }

    open spec fn model_of(j: Json) -> Option<()> {
        Some(())
    }

    fn has_data() -> (r: bool) {
        false
    }

    fn from_json(j: &Json) -> (r: Option<NoData>) {
        Some(NoData)
    }
}

} // verus!
