//! The request and response envelope that every action of the protocol
//! shares, and the rules that turn a response document into typed values.

use vstd::prelude::*;
use crate::errors::Errors;
use crate::json::{Json, member, same_text};
use crate::number::{decimal_u32, number_from_string};

verus! {

/// The actions of the protocol.
#[derive(Debug, Clone, Copy, PartialEq, Eq)]
pub enum Action {
    Login,
    Logout,
    InfoDnsZone,
    UpdateDnsZone,
    InfoDnsRecords,
    UpdateDnsRecords,
}

/// The wire tag of each action.
pub open spec fn action_tag(a: Action) -> Seq<char> {
    match a {
        Action::Login => "login"@,
        Action::Logout => "logout"@,
        Action::InfoDnsZone => "infoDnsZone"@,
        Action::UpdateDnsZone => "updateDnsZone"@,
        Action::InfoDnsRecords => "infoDnsRecords"@,
        Action::UpdateDnsRecords => "updateDnsRecords"@,
    }
}

/// The action whose wire tag is `t`.
pub open spec fn action_of_tag(t: Seq<char>) -> Option<Action> {
    if t == "login"@ {
        Some(Action::Login)
    } else if t == "logout"@ {
        Some(Action::Logout)
    } else if t == "infoDnsZone"@ {
        Some(Action::InfoDnsZone)
    } else if t == "updateDnsZone"@ {
        Some(Action::UpdateDnsZone)
    } else if t == "infoDnsRecords"@ {
        Some(Action::InfoDnsRecords)
    } else if t == "updateDnsRecords"@ {
        Some(Action::UpdateDnsRecords)
    } else {
        None
    }
}

impl Action {
    pub fn tag(&self) -> (r: &'static str)
        ensures
            r@ == action_tag(*self),
    {
        match self {
            Action::Login => "login",
            Action::Logout => "logout",
            Action::InfoDnsZone => "infoDnsZone",
            Action::UpdateDnsZone => "updateDnsZone",
            Action::InfoDnsRecords => "infoDnsRecords",
            Action::UpdateDnsRecords => "updateDnsRecords",
        }
    }

    pub fn from_tag(t: &str) -> (r: Option<Action>)
        ensures
            r == action_of_tag(t@),
    {
        if same_text(t, "login") {
            Some(Action::Login)
        } else if same_text(t, "logout") {
            Some(Action::Logout)
        } else if same_text(t, "infoDnsZone") {
            Some(Action::InfoDnsZone)
        } else if same_text(t, "updateDnsZone") {
            Some(Action::UpdateDnsZone)
        } else if same_text(t, "infoDnsRecords") {
            Some(Action::InfoDnsRecords)
        } else if same_text(t, "updateDnsRecords") {
            Some(Action::UpdateDnsRecords)
        } else {
            None
        }
    }
}

/// The progress that a response reports.
#[derive(Debug, Clone, Copy, PartialEq, Eq)]
pub enum Status {
    Error,
    Started,
    Pending,
    Warning,
    Success,
}

/// The status whose wire tag is `t`.
pub open spec fn status_of_tag(t: Seq<char>) -> Option<Status> {
    if t == "error"@ {
        Some(Status::Error)
    } else if t == "started"@ {
        Some(Status::Started)
    } else if t == "pending"@ {
        Some(Status::Pending)
    } else if t == "warning"@ {
        Some(Status::Warning)
    } else if t == "success"@ {
        Some(Status::Success)
    } else {
        None
    }
}

impl Status {
    pub fn from_tag(t: &str) -> (r: Option<Status>)
        ensures
            r == status_of_tag(t@),
    {
        if same_text(t, "error") {
            Some(Status::Error)
        } else if same_text(t, "started") {
            Some(Status::Started)
        } else if same_text(t, "pending") {
            Some(Status::Pending)
        } else if same_text(t, "warning") {
            Some(Status::Warning)
        } else if same_text(t, "success") {
            Some(Status::Success)
        } else {
            None
        }
    }
}

/// The outcome class of a response: the closed set of numeric codes.
#[derive(Debug, Clone, Copy, PartialEq, Eq)]
pub enum StatusCode {
    /// 2000
    Success,
    /// 4001
    Error,
    /// 4013
    ValidationError,
}

pub open spec fn status_code_of(n: u32) -> Option<StatusCode> {
    if n == 2000 {
        Some(StatusCode::Success)
    } else if n == 4001 {
        Some(StatusCode::Error)
    } else if n == 4013 {
        Some(StatusCode::ValidationError)
    } else {
        None
    }
}

impl StatusCode {
    pub fn from_code(n: u32) -> (r: Option<StatusCode>)
        ensures
            r == status_code_of(n),
    {
        if n == 2000 {
            Some(StatusCode::Success)
        } else if n == 4001 {
            Some(StatusCode::Error)
        } else if n == 4013 {
            Some(StatusCode::ValidationError)
        } else {
            None
        }
    }

    pub fn code(&self) -> (r: u32)
        ensures
            status_code_of(r) == Some(*self),
    {
        match self {
            StatusCode::Success => 2000,
            StatusCode::Error => 4001,
            StatusCode::ValidationError => 4013,
        }
    }
}


/// A member that must hold text.
pub open spec fn required_text(raw: Option<Json>) -> Result<String, Errors> {
    match raw {
        Some(Json::Text(s)) => Ok(s),
        _ => Err(Errors::SerializeResponse),
    }
}

/// A member that may hold text; absent and `null` are no value.
pub open spec fn optional_text(raw: Option<Json>) -> Result<Option<String>, Errors> {
    match raw {
        None => Ok(None),
        Some(Json::Null) => Ok(None),
        Some(Json::Text(s)) => Ok(Some(s)),
        _ => Err(Errors::SerializeResponse),
    }
}

/// A member where the empty string, like absence and `null`, means no value.
pub open spec fn text_or_empty(raw: Option<Json>) -> Result<Option<String>, Errors> {
    match raw {
        Some(Json::Text(s)) => if s@.len() == 0 {
            Ok(None)
        } else {
            Ok(Some(s))
        },
        _ => optional_text(raw),
    }
}

/// The echoed action: no value, the empty string, or a known tag.
pub open spec fn optional_action(raw: Option<Json>) -> Result<Option<Action>, Errors> {
    match text_or_empty(raw) {
        Ok(Some(s)) => match action_of_tag(s@) {
            Some(a) => Ok(Some(a)),
            None => Err(Errors::SerializeResponse),
        },
        Ok(None) => Ok(None),
        Err(e) => Err(e),
    }
}

pub open spec fn status_field(raw: Option<Json>) -> Result<Status, Errors> {
    match raw {
        Some(Json::Text(s)) => match status_of_tag(s@) {
            Some(st) => Ok(st),
            None => Err(Errors::SerializeResponse),
        },
        _ => Err(Errors::SerializeResponse),
    }
}

/// The numeric status code; any number outside the closed set fails.
pub open spec fn status_code_field(raw: Option<Json>) -> Result<StatusCode, Errors> {
    match raw {
        Some(Json::Number(t)) => match decimal_u32(t@) {
            Some(n) => match status_code_of(n) {
                Some(c) => Ok(c),
                None => Err(Errors::SerializeResponse),
            },
            None => Err(Errors::SerializeResponse),
        },
        _ => Err(Errors::SerializeResponse),
    }
}

/// An unsigned field that the provider may send as a number or as a string.
pub open spec fn number_field(raw: Option<Json>) -> Result<u32, Errors> {
    match raw {
        Some(Json::Number(t)) => match decimal_u32(t@) {
            Some(n) => Ok(n),
            None => Err(Errors::SerializeResponse),
        },
        Some(Json::Text(t)) => match decimal_u32(t@) {
            Some(n) => Ok(n),
            None => Err(Errors::SerializeResponse),
        },
        _ => Err(Errors::SerializeResponse),
    }
}

pub open spec fn bool_field(raw: Option<Json>) -> Result<bool, Errors> {
    match raw {
        Some(Json::Bool(b)) => Ok(b),
        _ => Err(Errors::SerializeResponse),
    }
}

pub open spec fn optional_bool(raw: Option<Json>) -> Result<Option<bool>, Errors> {
    match raw {
        None => Ok(None),
        Some(Json::Null) => Ok(None),
        Some(Json::Bool(b)) => Ok(Some(b)),
        _ => Err(Errors::SerializeResponse),
    }
}

pub fn read_required_text(j: &Json, key: &str) -> (r: Result<String, Errors>)
    ensures
        r == required_text(member(*j, key@)),
{
    match j.get(key) {
        Some(Json::Text(s)) => Ok(s.clone()),
        _ => Err(Errors::SerializeResponse),
    }
}

pub fn read_optional_text(j: &Json, key: &str) -> (r: Result<Option<String>, Errors>)
    ensures
        r == optional_text(member(*j, key@)),
{
    match j.get(key) {
        None => Ok(None),
        Some(Json::Null) => Ok(None),
        Some(Json::Text(s)) => Ok(Some(s.clone())),
        _ => Err(Errors::SerializeResponse),
    }
}

/// Reads a member where the empty string stands for no value.
pub fn read_text_or_empty(j: &Json, key: &str) -> (r: Result<Option<String>, Errors>)
    ensures
        r == text_or_empty(member(*j, key@)),
{
    match j.get(key) {
        Some(Json::Text(s)) => if s.unicode_len() == 0 {
            Ok(None)
        } else {
            Ok(Some(s.clone()))
        },
        _ => read_optional_text(j, key),
    }
}

pub fn read_optional_action(j: &Json, key: &str) -> (r: Result<Option<Action>, Errors>)
    ensures
        r == optional_action(member(*j, key@)),
{
    match read_text_or_empty(j, key) {
        Ok(Some(s)) => match Action::from_tag(s.as_str()) {
            Some(a) => Ok(Some(a)),
            None => Err(Errors::SerializeResponse),
        },
        Ok(None) => Ok(None),
        Err(e) => Err(e),
    }
}

pub fn read_status(j: &Json, key: &str) -> (r: Result<Status, Errors>)
    ensures
        r == status_field(member(*j, key@)),
{
    match j.get(key) {
        Some(Json::Text(s)) => match Status::from_tag(s.as_str()) {
            Some(st) => Ok(st),
            None => Err(Errors::SerializeResponse),
        },
        _ => Err(Errors::SerializeResponse),
    }
}

pub fn read_status_code(j: &Json, key: &str) -> (r: Result<StatusCode, Errors>)
    ensures
        r == status_code_field(member(*j, key@)),
{
    match j.get(key) {
        Some(Json::Number(t)) => match number_from_string(t) {
            Some(n) => match StatusCode::from_code(n) {
                Some(c) => Ok(c),
                None => Err(Errors::SerializeResponse),
            },
            None => Err(Errors::SerializeResponse),
        },
        _ => Err(Errors::SerializeResponse),
    }
}

/// Reads an unsigned field given either as a number or as a numeric string.
pub fn read_number(j: &Json, key: &str) -> (r: Result<u32, Errors>)
    ensures
        r == number_field(member(*j, key@)),
{
    match j.get(key) {
        Some(Json::Number(t)) => match number_from_string(t) {
            Some(n) => Ok(n),
            None => Err(Errors::SerializeResponse),
        },
        Some(Json::Text(t)) => match number_from_string(t) {
            Some(n) => Ok(n),
            None => Err(Errors::SerializeResponse),
        },
        _ => Err(Errors::SerializeResponse),
    }
}

pub fn read_bool(j: &Json, key: &str) -> (r: Result<bool, Errors>)
    ensures
        r == bool_field(member(*j, key@)),
{
    match j.get(key) {
        Some(Json::Bool(b)) => Ok(*b),
        _ => Err(Errors::SerializeResponse),
    }
}

pub fn read_optional_bool(j: &Json, key: &str) -> (r: Result<Option<bool>, Errors>)
    ensures
        r == optional_bool(member(*j, key@)),
{
    match j.get(key) {
        None => Ok(None),
        Some(Json::Null) => Ok(None),
        Some(Json::Bool(b)) => Ok(Some(*b)),
        _ => Err(Errors::SerializeResponse),
    }
}

/// What an action's `responsedata` decodes to.
pub trait Payload: Sized {
    /// The mathematical value of a payload.
    type Model;

    spec fn model(&self) -> Self::Model;

    /// Whether the action defines any data in its answer.
    spec fn carries_data() -> bool;

    /// The payload that a document stands for, or `None` where its shape
    /// does not fit.
    spec fn model_of(j: Json) -> Option<Self::Model>;

    fn has_data() -> (r: bool)
        ensures
            r == Self::carries_data(),
    ;

    fn from_json(j: &Json) -> (r: Option<Self>)
        ensures
            match r {
                Some(v) => Self::model_of(*j) == Some(v.model()),
                None => Self::model_of(*j) is None,
            },
    ;
}

pub open spec fn model_opt<T: Payload>(p: Option<T>) -> Option<T::Model> {
    match p {
        Some(v) => Some(v.model()),
        None => None,
    }
}

/// Whether a raw payload is the empty-string sentinel that stands for no data.
pub open spec fn is_empty_sentinel(raw: Option<Json>) -> bool {
    raw matches Some(Json::Text(s)) && s@.len() == 0
}

/// The payload of a response with status code `code`: nothing unless the
/// call succeeded and the action defines data; then nothing for the
/// empty-string sentinel, and otherwise a strict decoding.
pub open spec fn payload_field<T: Payload>(code: StatusCode, raw: Option<Json>) -> Result<
    Option<T::Model>,
    Errors,
> {
    if code != StatusCode::Success || !T::carries_data() {
        Ok(None)
    } else if is_empty_sentinel(raw) {
        Ok(None)
    } else {
        match raw {
            Some(Json::Text(_)) => Err(Errors::SerializeResponse),
            Some(j) => match T::model_of(j) {
                Some(m) => Ok(Some(m)),
                None => Err(Errors::SerializeResponse),
            },
            None => Err(Errors::SerializeResponse),
        }
    }
}

/// Decodes the payload member `responsedata` of a response with status code `code`.
pub fn decode_payload<T: Payload>(code: StatusCode, j: &Json) -> (r: Result<Option<T>, Errors>)
    ensures
        match r {
            Ok(p) => payload_field::<T>(code, member(*j, "responsedata"@)) == Ok::<_, Errors>(model_opt(p)),
            Err(e) => payload_field::<T>(code, member(*j, "responsedata"@)) == Err::<Option<T::Model>, _>(e),
        },
{
    let is_success = match code {
        StatusCode::Success => true,
        _ => false,
    };
    if !is_success || !T::has_data() {
        return Ok(None);
    }
    match j.get("responsedata") {
        Some(Json::Text(s)) => if s.unicode_len() == 0 {
            Ok(None)
        } else {
            Err(Errors::SerializeResponse)
        },
        Some(raw) => match T::from_json(raw) {
            Some(v) => Ok(Some(v)),
            None => Err(Errors::SerializeResponse),
        },
        None => Err(Errors::SerializeResponse),
    }
}

/// A response of the provider, with the payload of its action.
pub struct Response<T> {
    pub server_request_id: String,
    pub client_request_id: Option<String>,
    pub action: Option<Action>,
    pub status: Status,
    pub status_code: StatusCode,
    pub short_message: String,
    pub long_message: Option<String>,
    pub response_data: Option<T>,
}

/// Whether `j` is a well-formed response envelope whose payload fits `T`.
pub open spec fn envelope_decodes<T: Payload>(j: Json) -> bool {
    &&& required_text(member(j, "serverrequestid"@)) is Ok
    &&& text_or_empty(member(j, "clientrequestid"@)) is Ok
    &&& optional_action(member(j, "action"@)) is Ok
    &&& status_field(member(j, "status"@)) is Ok
    &&& status_code_field(member(j, "statuscode"@)) is Ok
    &&& required_text(member(j, "shortmessage"@)) is Ok
    &&& optional_text(member(j, "longmessage"@)) is Ok
    &&& payload_field::<T>(
        status_code_field(member(j, "statuscode"@))->Ok_0,
        member(j, "responsedata"@),
    ) is Ok
}

/// The response that a well-formed envelope `j` decodes to.
pub open spec fn decoded_as<T: Payload>(j: Json, resp: Response<T>) -> bool {
    &&& required_text(member(j, "serverrequestid"@)) == Ok::<_, Errors>(resp.server_request_id)
    &&& text_or_empty(member(j, "clientrequestid"@)) == Ok::<_, Errors>(resp.client_request_id)
    &&& optional_action(member(j, "action"@)) == Ok::<_, Errors>(resp.action)
    &&& status_field(member(j, "status"@)) == Ok::<_, Errors>(resp.status)
    &&& status_code_field(member(j, "statuscode"@)) == Ok::<_, Errors>(resp.status_code)
    &&& required_text(member(j, "shortmessage"@)) == Ok::<_, Errors>(resp.short_message)
    &&& optional_text(member(j, "longmessage"@)) == Ok::<_, Errors>(resp.long_message)
    &&& payload_field::<T>(resp.status_code, member(j, "responsedata"@)) == Ok::<_, Errors>(
        model_opt(resp.response_data),
    )
}

/// Decodes a response document. Every shape failure, an unknown status code
/// among them, is a decoding failure.
pub fn decode_response<T: Payload>(j: &Json) -> (r: Result<Response<T>, Errors>)
    ensures
        match r {
            Ok(resp) => envelope_decodes::<T>(*j) && decoded_as(*j, resp),
            Err(e) => !envelope_decodes::<T>(*j) && e == Errors::SerializeResponse,
        },
{
    let server_request_id = match read_required_text(j, "serverrequestid") {
        Ok(s) => s,
        Err(e) => return Err(e),
    };
    let client_request_id = match read_text_or_empty(j, "clientrequestid") {
        Ok(s) => s,
        Err(e) => return Err(e),
    };
    let action = match read_optional_action(j, "action") {
        Ok(a) => a,
        Err(e) => return Err(e),
    };
    let status = match read_status(j, "status") {
        Ok(s) => s,
        Err(e) => return Err(e),
    };
    let status_code = match read_status_code(j, "statuscode") {
        Ok(c) => c,
        Err(e) => return Err(e),
    };
    let short_message = match read_required_text(j, "shortmessage") {
        Ok(s) => s,
        Err(e) => return Err(e),
    };
    let long_message = match read_optional_text(j, "longmessage") {
        Ok(s) => s,
        Err(e) => return Err(e),
    };
    let response_data = match decode_payload::<T>(status_code, j) {
        Ok(p) => p,
        Err(e) => return Err(e),
    };
    Ok(Response {
        server_request_id,
        client_request_id,
        action,
        status,
        status_code,
        short_message,
        long_message,
        response_data,
    })
}

impl<T> Response<T> {
    pub fn status_code(&self) -> (r: StatusCode)
        ensures
            r == self.status_code,
    {
        self.status_code
    }

    pub fn status(&self) -> (r: Status)
        ensures
            r == self.status,
    {
        self.status
    }

    pub fn response_data(&self) -> (r: Option<&T>)
        ensures
            match r {
                Some(v) => self.response_data == Some(*v),
                None => self.response_data is None,
            },
    {
        self.response_data.as_ref()
    }
}

/// For a successful response, the decoded payload is present exactly when the
/// action defines data and the wire payload is not the empty-string sentinel.
pub proof fn success_payload_presence<T: Payload>(j: Json, resp: Response<T>)
    requires
        decoded_as(j, resp),
        resp.status_code == StatusCode::Success,
    ensures
        resp.response_data is Some <==> (T::carries_data() && !is_empty_sentinel(
            member(j, "responsedata"@),
        )),
{
}

/// A response whose status code is not `Success` carries no payload, whatever
/// stands on the wire.
pub proof fn failure_payload_absent<T: Payload>(j: Json, resp: Response<T>)
    requires
        decoded_as(j, resp),
        resp.status_code != StatusCode::Success,
    ensures
        resp.response_data is None,
{
}

} // verus!
