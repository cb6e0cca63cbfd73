//! The session protocol: credentials that can only be used for zone and record
//! calls once a login has produced a session id, the requests of each action
//! and the reading of their answers.
//!
//! The state of a session is its type: `SessionCredentials<NoApiSessionId>`
//! offers only the login, and the login is the only way to obtain a
//! `SessionCredentials<ApiSessionId>`, which offers the zone, record and
//! logout calls. The logout consumes the session.

use vstd::prelude::*;
use core::marker::PhantomData;
use crate::envelope::{
    Action, Payload, Response, StatusCode, decode_response, envelope_decodes, status_code_field,
    payload_field, optional_text, required_text,
};
use crate::errors::Errors;
use crate::json::{Json, member, members, entry, text_entry, number_entry, text_member, number_member};
use crate::models::{DnsZone, DnsRecord, DnsRecords, NoData, SessionData, is_zone_json, is_record_json};

verus! {

/// Marks credentials without a session.
pub struct NoApiSessionId;

/// Marks credentials of a session that a login opened.
pub struct ApiSessionId;

/// A request: the action and its parameters.
pub struct Request {
    pub action: Action,
    pub param: Json,
}

/// The document of a request: `{"action": <tag>, "param": <parameters>}`.
pub open spec fn is_request_json(j: Json, r: Request) -> bool {
    let m = members(j);
    &&& j is Object
    &&& m.len() == 2
    &&& text_entry(m, 0, "action"@, crate::envelope::action_tag(r.action))
    &&& entry(m, 1, "param"@, r.param)
}

impl Request {
    pub fn new(action: Action, param: Json) -> (r: Request)
        ensures
            r.action == action,
            r.param == param,
    {
        Request { action, param }
    }

    pub fn action(&self) -> (r: &Action)
        ensures
            *r == self.action,
    {
        &self.action
    }

    pub fn into_json(self) -> (r: Json)
        ensures
            is_request_json(r, self),
    {
        let mut m: Vec<(String, Json)> = Vec::new();
        m.push(text_member("action", self.action.tag()));
        m.push(("param".to_string(), self.param));
        Json::Object(m)
    }
}

/// What a login sends: the customer number, the API key and the API password.
pub struct LoginCredentials {
    pub customer_number: u32,
    pub api_key: String,
    pub api_password: String,
}

impl LoginCredentials {
    pub fn to_json(&self) -> (r: Json)
        ensures
            r is Object,
            members(r).len() == 3,
            number_entry(members(r), 0, "customernumber"@, self.customer_number),
            text_entry(members(r), 1, "apikey"@, self.api_key@),
            text_entry(members(r), 2, "apipassword"@, self.api_password@),
    {
        let mut m: Vec<(String, Json)> = Vec::new();
        m.push(number_member("customernumber", self.customer_number));
        m.push(text_member("apikey", self.api_key.as_str()));
        m.push(text_member("apipassword", self.api_password.as_str()));
        Json::Object(m)
    }
}

/// The credentials of an account, and the session id once a login opened a
/// session.
pub struct SessionCredentials<T> {
    customer_number: u32,
    api_key: String,
    api_password: String,
    api_session_id: String,
    state: PhantomData<T>,
}

impl<T> SessionCredentials<T> {
    pub closed spec fn spec_customer_number(&self) -> u32 {
        self.customer_number
    }

    pub closed spec fn spec_api_key(&self) -> Seq<char> {
        self.api_key@
    }

    pub closed spec fn spec_api_password(&self) -> Seq<char> {
        self.api_password@
    }

    /// The session id; empty before a login.
    pub closed spec fn spec_session_id(&self) -> Seq<char> {
        self.api_session_id@
    }

    pub fn customer_number(&self) -> (r: u32)
        ensures
            r == self.spec_customer_number(),
    {
        self.customer_number
    }

    pub fn api_key(&self) -> (r: &str)
        ensures
            r@ == self.spec_api_key(),
    {
        self.api_key.as_str()
    }

    pub fn api_password(&self) -> (r: &str)
        ensures
            r@ == self.spec_api_password(),
    {
        self.api_password.as_str()
    }
}

/// The same account.
pub open spec fn same_account<S, T>(a: SessionCredentials<S>, b: SessionCredentials<T>) -> bool {
    &&& a.spec_customer_number() == b.spec_customer_number()
    &&& a.spec_api_key() == b.spec_api_key()
    &&& a.spec_api_password() == b.spec_api_password()
}

/// The long message of a decodable response, or its short one where it has none.
pub open spec fn diagnostic(doc: Json) -> String {
    match optional_text(member(doc, "longmessage"@)) {
        Ok(Some(m)) => m,
        _ => required_text(member(doc, "shortmessage"@))->Ok_0,
    }
}

/// The status code of a decodable response.
pub open spec fn response_code(doc: Json) -> StatusCode {
    status_code_field(member(doc, "statuscode"@))->Ok_0
}

/// The payload of a decodable response.
pub open spec fn response_payload<T: Payload>(doc: Json) -> Option<T::Model> {
    payload_field::<T>(response_code(doc), member(doc, "responsedata"@))->Ok_0
}

/// What a login answer `doc` leads to, for the credentials `creds`.
pub open spec fn login_result(
    creds: SessionCredentials<NoApiSessionId>,
    doc: Json,
    r: Result<SessionCredentials<ApiSessionId>, Errors>,
) -> bool {
    if !envelope_decodes::<SessionData>(doc) {
        r == Err::<SessionCredentials<ApiSessionId>, Errors>(Errors::SerializeResponse)
    } else {
        match r {
            Ok(s) => {
                &&& response_code(doc) == StatusCode::Success
                &&& response_payload::<SessionData>(doc) matches Some(t) && t@.len() > 0
                    && s.spec_session_id() == t@
                &&& same_account(creds, s)
            },
            Err(Errors::RetrieveAPISesionId) => {
                &&& response_code(doc) == StatusCode::Success
                &&& !(response_payload::<SessionData>(doc) matches Some(t) && t@.len() > 0)
            },
            Err(Errors::Login(m)) => response_code(doc) == StatusCode::Error && m == diagnostic(doc),
            Err(Errors::ValidationError(m)) => response_code(doc) == StatusCode::ValidationError
                && m == diagnostic(doc),
            Err(_) => false,
        }
    }
}

/// The failure that a non-success answer to a call on `domain` stands for.
pub open spec fn domain_failure(doc: Json, domain: Seq<char>, e: Errors) -> bool {
    match e {
        Errors::DNSZoneNotFound(d) => response_code(doc) == StatusCode::Error && d@ == domain,
        Errors::DNSZoneRejected(d) => response_code(doc) == StatusCode::ValidationError && d@
            == domain,
        _ => false,
    }
}

/// What the answer `doc` to a zone or record call on `domain`, whose action
/// answers with data of type `T`, leads to.
pub open spec fn data_call_result<T: Payload>(doc: Json, domain: Seq<char>, r: Result<T, Errors>) -> bool {
    if !envelope_decodes::<T>(doc) {
        r == Err::<T, Errors>(Errors::SerializeResponse)
    } else {
        match r {
            Ok(v) => response_code(doc) == StatusCode::Success && response_payload::<T>(doc)
                == Some(v.model()),
            Err(Errors::SerializeResponse) => response_code(doc) == StatusCode::Success
                && response_payload::<T>(doc) is None,
            Err(e) => domain_failure(doc, domain, e),
        }
    }
}

/// What the answer `doc` to a record update on `domain`, which answers with no
/// data, leads to.
pub open spec fn plain_call_result(doc: Json, domain: Seq<char>, r: Result<(), Errors>) -> bool {
    if !envelope_decodes::<NoData>(doc) {
        r == Err::<(), Errors>(Errors::SerializeResponse)
    } else {
        match r {
            Ok(_) => response_code(doc) == StatusCode::Success,
            Err(e) => domain_failure(doc, domain, e),
        }
    }
}

/// The long message of a response, or its short one where it has none.
fn diagnostic_of<T>(resp: &Response<T>) -> (r: String)
    ensures
        r == match resp.long_message {
            Some(m) => m,
            None => resp.short_message,
        },
{
    match &resp.long_message {
        Some(m) => m.clone(),
        None => resp.short_message.clone(),
    }
}

/// The outcome of a zone or record call on `domain` whose answer is `resp`:
/// its payload where it succeeded, the failure for `domain` otherwise.
fn domain_outcome<T>(resp: Response<T>, domain: &str) -> (r: Result<Option<T>, Errors>)
    ensures
        match r {
            Ok(p) => resp.status_code == StatusCode::Success && p == resp.response_data,
            Err(Errors::DNSZoneNotFound(d)) => resp.status_code == StatusCode::Error && d@
                == domain@,
            Err(Errors::DNSZoneRejected(d)) => resp.status_code == StatusCode::ValidationError
                && d@ == domain@,
            Err(_) => false,
        },
{
    match resp.status_code {
        StatusCode::Success => Ok(resp.response_data),
        StatusCode::Error => Err(Errors::DNSZoneNotFound(domain.to_string())),
        StatusCode::ValidationError => Err(Errors::DNSZoneRejected(domain.to_string())),
    }
}

/// The data of a zone or record call on `domain` that answers with data.
fn data_call<T: Payload>(doc: &Json, domain: &str) -> (r: Result<T, Errors>)
    ensures
        data_call_result::<T>(*doc, domain@, r),
{
    let resp = match decode_response::<T>(doc) {
        Ok(resp) => resp,
        Err(e) => return Err(e),
    };
    match domain_outcome(resp, domain) {
        Ok(Some(v)) => Ok(v),
        Ok(None) => Err(Errors::SerializeResponse),
        Err(e) => Err(e),
    }
}

/// The parameters that every zone and record call starts with.
pub open spec fn domain_params(m: Seq<(String, Json)>, creds: SessionCredentials<ApiSessionId>, domain: Seq<char>) -> bool {
    &&& text_entry(m, 0, "domainname"@, domain)
    &&& number_entry(m, 1, "customernumber"@, creds.spec_customer_number())
    &&& text_entry(m, 2, "apikey"@, creds.spec_api_key())
    &&& text_entry(m, 3, "apisessionid"@, creds.spec_session_id())
}

impl SessionCredentials<NoApiSessionId> {
    pub fn new(customer_number: u32, api_key: &str, api_password: &str) -> (r: Self)
        ensures
            r.spec_customer_number() == customer_number,
            r.spec_api_key() == api_key@,
            r.spec_api_password() == api_password@,
            r.spec_session_id().len() == 0,
    {
        SessionCredentials {
            customer_number,
            api_key: api_key.to_string(),
            api_password: api_password.to_string(),
            api_session_id: String::new(),
            state: PhantomData,
        }
    }

    /// The credentials of the session with the id `api_session_id`; only a
    /// successful login calls it.
    fn with_session_id(self, api_session_id: &str) -> (r: SessionCredentials<ApiSessionId>)
        ensures
            same_account(self, r),
            r.spec_session_id() == api_session_id@,
    {
        SessionCredentials {
            customer_number: self.customer_number,
            api_key: self.api_key,
            api_password: self.api_password,
            api_session_id: api_session_id.to_string(),
            state: PhantomData,
        }
    }

    pub fn login_credentials(&self) -> (r: LoginCredentials)
        ensures
            r.customer_number == self.spec_customer_number(),
            r.api_key@ == self.spec_api_key(),
            r.api_password@ == self.spec_api_password(),
    {
        LoginCredentials {
            customer_number: self.customer_number,
            api_key: self.api_key.clone(),
            api_password: self.api_password.clone(),
        }
    }

    /// The login request: the customer number, the API key and the API password.
    pub fn login_request(&self) -> (r: Request)
        ensures
            r.action == Action::Login,
            r.param is Object,
            members(r.param).len() == 3,
            number_entry(members(r.param), 0, "customernumber"@, self.spec_customer_number()),
            text_entry(members(r.param), 1, "apikey"@, self.spec_api_key()),
            text_entry(members(r.param), 2, "apipassword"@, self.spec_api_password()),
    {
        Request { action: Action::Login, param: self.login_credentials().to_json() }
    }

    /// Opens the session that the login answer `doc` reports: a success with a
    /// non-empty session id. A success without one is a protocol violation; a
    /// generic error means that the credentials were refused, a validation
    /// error that the provider limits the rate of calls.
    pub fn login(self, doc: &Json) -> (r: Result<SessionCredentials<ApiSessionId>, Errors>)
        ensures
            login_result(self, *doc, r),
    {
        let resp = match decode_response::<SessionData>(doc) {
            Ok(resp) => resp,
            Err(e) => return Err(e),
        };
        match resp.status_code {
            StatusCode::Success => match &resp.response_data {
                Some(data) => {
                    if data.api_session_id.unicode_len() == 0 {
                        Err(Errors::RetrieveAPISesionId)
                    } else {
                        Ok(self.with_session_id(data.api_session_id.as_str()))
                    }
                },
                None => Err(Errors::RetrieveAPISesionId),
            },
            StatusCode::Error => Err(Errors::Login(diagnostic_of(&resp))),
            StatusCode::ValidationError => Err(Errors::ValidationError(diagnostic_of(&resp))),
        }
    }
}

impl SessionCredentials<ApiSessionId> {
    pub fn api_session_id(&self) -> (r: &str)
        ensures
            r@ == self.spec_session_id(),
    {
        self.api_session_id.as_str()
    }

    fn domain_members(&self, domain: &str) -> (m: Vec<(String, Json)>)
        ensures
            m@.len() == 4,
            domain_params(m@, *self, domain@),
    {
        let mut m: Vec<(String, Json)> = Vec::new();
        m.push(text_member("domainname", domain));
        m.push(number_member("customernumber", self.customer_number));
        m.push(text_member("apikey", self.api_key.as_str()));
        m.push(text_member("apisessionid", self.api_session_id.as_str()));
        m
    }

    pub fn info_dns_zone_request(&self, domain: &str) -> (r: Request)
        ensures
            r.action == Action::InfoDnsZone,
            r.param is Object,
            members(r.param).len() == 4,
            domain_params(members(r.param), *self, domain@),
    {
        Request { action: Action::InfoDnsZone, param: Json::Object(self.domain_members(domain)) }
    }

    /// Reads the zone from the answer `doc` to an `infoDnsZone` call on `domain`.
    pub fn info_dns_zone(&self, domain: &str, doc: &Json) -> (r: Result<DnsZone, Errors>)
        ensures
            data_call_result::<DnsZone>(*doc, domain@, r),
    {
        data_call::<DnsZone>(doc, domain)
    }

    pub fn update_dns_zone_request(&self, domain: &str, zone: &DnsZone) -> (r: Request)
        ensures
            r.action == Action::UpdateDnsZone,
            r.param is Object,
            members(r.param).len() == 5,
            domain_params(members(r.param), *self, domain@),
            members(r.param)[4].0@ == "dnszone"@,
            is_zone_json(members(r.param)[4].1, *zone),
    {
        let mut m = self.domain_members(domain);
        m.push(("dnszone".to_string(), zone.to_json()));
        Request { action: Action::UpdateDnsZone, param: Json::Object(m) }
    }

    /// Reads the zone as it now stands from the answer `doc` to an
    /// `updateDnsZone` call on `domain`.
    pub fn update_dns_zone(&self, domain: &str, doc: &Json) -> (r: Result<DnsZone, Errors>)
        ensures
            data_call_result::<DnsZone>(*doc, domain@, r),
    {
        data_call::<DnsZone>(doc, domain)
    }

    pub fn info_dns_records_request(&self, domain: &str) -> (r: Request)
        ensures
            r.action == Action::InfoDnsRecords,
            r.param is Object,
            members(r.param).len() == 4,
            domain_params(members(r.param), *self, domain@),
    {
        Request { action: Action::InfoDnsRecords, param: Json::Object(self.domain_members(domain)) }
    }

    /// Reads the records from the answer `doc` to an `infoDnsRecords` call on
    /// `domain`.
    pub fn info_dns_records(&self, domain: &str, doc: &Json) -> (r: Result<DnsRecords, Errors>)
        ensures
            data_call_result::<DnsRecords>(*doc, domain@, r),
    {
        data_call::<DnsRecords>(doc, domain)
    }

    /// The request that writes `records` to the zone of `domain`:
    /// `"dnsrecordset": {"dnsrecords": [...]}` after the session parameters.
    pub fn update_dns_records_request(&self, domain: &str, records: &Vec<DnsRecord>) -> (r: Request)
        ensures
            r.action == Action::UpdateDnsRecords,
            r.param is Object,
            members(r.param).len() == 5,
            domain_params(members(r.param), *self, domain@),
            members(r.param)[4].0@ == "dnsrecordset"@,
            members(members(r.param)[4].1).len() == 1,
            members(members(r.param)[4].1)[0].0@ == "dnsrecords"@,
            members(members(r.param)[4].1)[0].1 matches Json::Array(items) && items@.len()
                == records@.len() && forall|k: int|
                0 <= k < records@.len() ==> is_record_json(#[trigger] items@[k], records@[k]),
    {
        let mut items: Vec<Json> = Vec::new();
        let mut i: usize = 0;
        while i < records.len()
            invariant
                i <= records@.len(),
                items@.len() == i,
                forall|k: int| 0 <= k < i ==> is_record_json(#[trigger] items@[k], records@[k]),
            decreases records@.len() - i,
        {
            items.push(records[i].to_json());
            i = i + 1;
        }
        let mut set: Vec<(String, Json)> = Vec::new();
        set.push(("dnsrecords".to_string(), Json::Array(items)));
        let mut m = self.domain_members(domain);
        m.push(("dnsrecordset".to_string(), Json::Object(set)));
        Request { action: Action::UpdateDnsRecords, param: Json::Object(m) }
    }

    /// Reads the answer `doc` to an `updateDnsRecords` call on `domain`.
    pub fn update_dns_records(&self, domain: &str, doc: &Json) -> (r: Result<(), Errors>)
        ensures
            plain_call_result(*doc, domain@, r),
    {
        let resp = match decode_response::<NoData>(doc) {
            Ok(resp) => resp,
            Err(e) => return Err(e),
        };
        match domain_outcome(resp, domain) {
            Ok(_) => Ok(()),
            Err(e) => Err(e),
        }
    }

    /// The logout request: the customer number, the API key and the session id.
    pub fn logout_request(&self) -> (r: Request)
        ensures
            r.action == Action::Logout,
            r.param is Object,
            members(r.param).len() == 3,
            number_entry(members(r.param), 0, "customernumber"@, self.spec_customer_number()),
            text_entry(members(r.param), 1, "apikey"@, self.spec_api_key()),
            text_entry(members(r.param), 2, "apisessionid"@, self.spec_session_id()),
    {
        let mut m: Vec<(String, Json)> = Vec::new();
        m.push(number_member("customernumber", self.customer_number));
        m.push(text_member("apikey", self.api_key.as_str()));
        m.push(text_member("apisessionid", self.api_session_id.as_str()));
        Request { action: Action::Logout, param: Json::Object(m) }
    }

    /// Ends the session with the logout answer `doc`: any status code but
    /// success is a logout failure.
    pub fn logout(self, doc: &Json) -> (r: Result<(), Errors>)
        ensures
            !envelope_decodes::<NoData>(*doc) ==> r == Err::<(), Errors>(Errors::SerializeResponse),
            envelope_decodes::<NoData>(*doc) ==> (r is Ok <==> response_code(*doc)
                == StatusCode::Success),
            envelope_decodes::<NoData>(*doc) && r is Err ==> r == Err::<(), Errors>(Errors::Logout),
    {
        let resp = match decode_response::<NoData>(doc) {
            Ok(resp) => resp,
            Err(e) => return Err(e),
        };
        match resp.status_code {
            StatusCode::Success => Ok(()),
            _ => Err(Errors::Logout),
        }
    }
}

} // verus!
