use netcup_ddns::envelope::{decode_response, Action, Response, Status, StatusCode};
use netcup_ddns::errors::Errors;
use netcup_ddns::json::Json;
use netcup_ddns::models::{DnsRecords, DnsZone, NoData, RecordType, SessionData};
use netcup_ddns::session::SessionCredentials;
use serde_json::Value;

fn document(text: &str) -> Json {
    fn convert(v: &Value) -> Json {
        match v {
            Value::Null => Json::Null,
            Value::Bool(b) => Json::Bool(*b),
            Value::Number(n) => Json::Number(n.to_string()),
            Value::String(s) => Json::Text(s.clone()),
            Value::Array(items) => Json::Array(items.iter().map(convert).collect()),
            Value::Object(m) => Json::Object(m.iter().map(|(k, v)| (k.clone(), convert(v))).collect()),
        }
    }
    convert(&serde_json::from_str::<Value>(text).unwrap())
}

const FAILED_LOGIN: &str = r#"{
    "serverrequestid": "SUPERSECRETSERVERREQUESTID",
    "clientrequestid": "",
    "action": "",
    "status": "error",
    "statuscode": 4013,
    "shortmessage": "Validation Error.",
    "longmessage": "More than 180 requests per minute. Please wait and retry later. Please contact our customer service to find out if the limitation of requests can be increased.",
    "responsedata": ""
  }"#;

const SUCCESSFUL_LOGIN: &str = r#"{
      "serverrequestid": "SUPERSECRETSERVERREQUESTID",
      "clientrequestid": "",
      "action": "login",
      "status": "success",
      "statuscode": 2000,
      "shortmessage": "Login successful",
      "longmessage": "Session has been created successful.",
      "responsedata": {
        "apisessionid": "SUPERSECRETAPISESSIONID"
      }
    }"#;

const SUCCESSFUL_REQUEST: &str = r#"{
  "serverrequestid": "SUPERSECRETSERVERREQUESTID",
  "clientrequestid": "",
  "action": "infoDnsZone",
  "status": "success",
  "statuscode": 2000,
  "shortmessage": "DNS zone found",
  "longmessage": "DNS zone was found.",
  "responsedata": {
    "name": "example.domain",
    "ttl": "86400",
    "serial": "2022071101",
    "refresh": "28800",
    "retry": "7200",
    "expire": "1209600",
    "dnssecstatus": false
  }
}"#;

const INVALID_API_KEY: &str = r#"{
  "serverrequestid": "SUPERSECRETSERVERREQUESTID",
  "clientrequestid": "",
  "action": "infoDnsZone",
  "status": "error",
  "statuscode": 4001,
  "shortmessage": "Api session id in invalid format",
  "longmessage": "The session id is not in a valid format.",
  "responsedata": ""
}"#;

const INVALID_DNS_ZONE: &str = r#"{
  "serverrequestid": "SUPERSECRETSERVERREQUESTID",
  "clientrequestid": "",
  "action": "",
  "status": "error",
  "statuscode": 4013,
  "shortmessage": "Validation Error.",
  "longmessage": "Value in field domainname does not match requirements of type: domainname. ",
  "responsedata": ""
}"#;

const SUCCESSFUL_LOGOUT_RESPONSE: &str = r#"{
    "serverrequestid": "SUPERSECRETSERVERREQUESTID",
    "clientrequestid": "",
    "action": "logout",
    "status": "success",
    "statuscode": 2000,
    "shortmessage": "Logout successful",
    "longmessage": "Session has been terminated successful.",
    "responsedata": ""
  }"#;

const RECORDS: &str = r#"{
  "serverrequestid": "ID",
  "clientrequestid": "",
  "action": "infoDnsRecords",
  "status": "success",
  "statuscode": 2000,
  "shortmessage": "DNS records found",
  "longmessage": "DNS Records for this zone were found.",
  "responsedata": {
    "dnsrecords": [
      {"id": "1", "hostname": "www", "type": "A", "priority": "0", "destination": "5.6.7.8", "deleterecord": false, "state": "yes"},
      {"id": "2", "hostname": "@", "type": "MX", "priority": "10", "destination": "mail.example.domain", "deleterecord": false, "state": "yes"}
    ]
  }
}"#;

fn login_answer(code: u32, data: &str) -> String {
    format!(
        r#"{{"serverrequestid": "S", "clientrequestid": "", "action": "login", "status": "error",
            "statuscode": {code}, "shortmessage": "short", "longmessage": "long", "responsedata": {data}}}"#
    )
}

fn zone_answer(ttl: &str) -> String {
    format!(
        r#"{{"serverrequestid": "S", "clientrequestid": "", "action": "infoDnsZone", "status": "success",
            "statuscode": 2000, "shortmessage": "found", "longmessage": "found",
            "responsedata": {{"name": "example.domain", "ttl": {ttl}, "serial": "1", "refresh": "2",
            "retry": "3", "expire": "4", "dnssecstatus": true}}}}"#
    )
}

fn session() -> SessionCredentials<netcup_ddns::session::ApiSessionId> {
    let answer = SUCCESSFUL_LOGIN.replace("SUPERSECRETAPISESSIONID", "SESSION");
    SessionCredentials::new(12345, "key", "password").login(&document(&answer)).unwrap()
}

#[test]
fn login_serialize_successful_login_response() {
    let ser: Response<SessionData> = decode_response(&document(SUCCESSFUL_LOGIN)).unwrap();

    assert_eq!("SUPERSECRETSERVERREQUESTID", ser.server_request_id);
    assert_eq!(None, ser.client_request_id);
    assert_eq!(Some(Action::Login), ser.action);
    assert_eq!(Status::Success, ser.status);
    assert_eq!(StatusCode::Success, ser.status_code);
    assert_eq!("Login successful", ser.short_message);
    assert_eq!(Some("Session has been created successful.".to_string()), ser.long_message);
    assert_eq!(
        Some("SUPERSECRETAPISESSIONID".to_string()),
        ser.response_data.map(|d| d.api_session_id)
    );
}

#[test]
fn login_serialize_failed_login_response() {
    let ser: Response<SessionData> = decode_response(&document(FAILED_LOGIN)).unwrap();

    assert_eq!("SUPERSECRETSERVERREQUESTID", ser.server_request_id);
    assert_eq!(None, ser.client_request_id);
    assert_eq!(None, ser.action);
    assert_eq!(Status::Error, ser.status);
    assert_eq!(StatusCode::ValidationError, ser.status_code);
    assert_eq!("Validation Error.", ser.short_message);
    assert_eq!(
      Some("More than 180 requests per minute. Please wait and retry later. Please contact our customer service to find out if the limitation of requests can be increased.".to_string()),
      ser.long_message
    );
    assert!(ser.response_data.is_none());
}

#[test]
fn serialize_successful_request() {
    let ser: Response<DnsZone> = decode_response(&document(SUCCESSFUL_REQUEST)).unwrap();

    assert_eq!("SUPERSECRETSERVERREQUESTID", ser.server_request_id);
    assert_eq!(None, ser.client_request_id);
    assert_eq!(Some(Action::InfoDnsZone), ser.action);
    assert_eq!(Status::Success, ser.status);
    assert_eq!(StatusCode::Success, ser.status_code);
    assert_eq!("DNS zone found", ser.short_message);
    assert_eq!(Some("DNS zone was found.".to_string()), ser.long_message);
    let zone = ser.response_data.unwrap();
    assert_eq!("example.domain", zone.name);
    assert_eq!(86400, zone.ttl);
    assert_eq!(2022071101, zone.serial);
    assert_eq!(28800, zone.refresh);
    assert_eq!(7200, zone.retry);
    assert_eq!(1209600, zone.expire);
    assert_eq!(false, zone.dns_sec_status);
}

#[test]
fn serialize_invalid_api_key() {
    let ser: Response<DnsZone> = decode_response(&document(INVALID_API_KEY)).unwrap();

    assert_eq!("SUPERSECRETSERVERREQUESTID", ser.server_request_id);
    assert_eq!(None, ser.client_request_id);
    assert_eq!(Some(Action::InfoDnsZone), ser.action);
    assert_eq!(Status::Error, ser.status);
    assert_eq!(StatusCode::Error, ser.status_code);
    assert_eq!("Api session id in invalid format", ser.short_message);
    assert_eq!(Some("The session id is not in a valid format.".to_string()), ser.long_message);
    assert!(ser.response_data.is_none());
}

#[test]
fn serialize_invalid_dns_zone() {
    let ser: Response<DnsZone> = decode_response(&document(INVALID_DNS_ZONE)).unwrap();

    assert_eq!("SUPERSECRETSERVERREQUESTID", ser.server_request_id);
    assert_eq!(None, ser.client_request_id);
    assert_eq!(None, ser.action);
    assert_eq!(Status::Error, ser.status);
    assert_eq!(StatusCode::ValidationError, ser.status_code);
    assert_eq!("Validation Error.", ser.short_message);
    assert_eq!(
        Some("Value in field domainname does not match requirements of type: domainname. ".to_string()),
        ser.long_message
    );
    assert!(ser.response_data.is_none());
}

#[test]
fn serialize_successful_logout_response() {
    let ser: Response<NoData> = decode_response(&document(SUCCESSFUL_LOGOUT_RESPONSE)).unwrap();

    assert_eq!("SUPERSECRETSERVERREQUESTID", ser.server_request_id);
    assert_eq!(None, ser.client_request_id);
    assert_eq!(Some(Action::Logout), ser.action);
    assert_eq!(Status::Success, ser.status);
    assert_eq!(StatusCode::Success, ser.status_code);
    assert_eq!("Logout successful", ser.short_message);
    assert_eq!(Some("Session has been terminated successful.".to_string()), ser.long_message);
    assert!(ser.response_data.is_none());
}

#[test]
fn success_payload_sentinel_is_none() {
    // Success with the empty-string sentinel: no payload, not a failure.
    let text = SUCCESSFUL_REQUEST.replace(
        &SUCCESSFUL_REQUEST[SUCCESSFUL_REQUEST.find("{\n    \"name\"").unwrap()..SUCCESSFUL_REQUEST.rfind('}').unwrap()],
        "\"\"\n",
    );
    let ser: Response<DnsZone> = decode_response(&document(&text)).unwrap();
    assert!(ser.response_data.is_none());
}

#[test]
fn success_payload_without_data_type_is_none() {
    let text = SUCCESSFUL_LOGOUT_RESPONSE.replace("\"responsedata\": \"\"", "\"responsedata\": {\"x\": 1}");
    let ser: Response<NoData> = decode_response(&document(&text)).unwrap();
    assert!(ser.response_data.is_none());
}

#[test]
fn failure_payload_ignored() {
    let text = INVALID_API_KEY.replace("\"responsedata\": \"\"", "\"responsedata\": [1, 2]");
    let ser: Response<DnsZone> = decode_response(&document(&text)).unwrap();
    assert_eq!(StatusCode::Error, ser.status_code);
    assert!(ser.response_data.is_none());
}

#[test]
fn success_payload_shape_mismatch_fails() {
    let text = SUCCESSFUL_LOGIN.replace("\"apisessionid\"", "\"other\"");
    let r = decode_response::<SessionData>(&document(&text));
    assert!(matches!(r, Err(Errors::SerializeResponse)));
}

#[test]
fn unknown_status_code_fails() {
    let text = SUCCESSFUL_LOGIN.replace("2000", "2001");
    assert!(matches!(decode_response::<SessionData>(&document(&text)), Err(Errors::SerializeResponse)));
    let text = SUCCESSFUL_LOGIN.replace("2000", "\"2000\"");
    assert!(matches!(decode_response::<SessionData>(&document(&text)), Err(Errors::SerializeResponse)));
}

#[test]
fn unknown_action_and_status_fail() {
    let text = SUCCESSFUL_LOGIN.replace("\"login\"", "\"signin\"");
    assert!(matches!(decode_response::<SessionData>(&document(&text)), Err(Errors::SerializeResponse)));
    let text = SUCCESSFUL_LOGIN.replace("\"success\"", "\"done\"");
    assert!(matches!(decode_response::<SessionData>(&document(&text)), Err(Errors::SerializeResponse)));
    assert!(matches!(decode_response::<SessionData>(&Json::Null), Err(Errors::SerializeResponse)));
}

#[test]
fn zone_number_as_string_decodes() {
    let z = session().info_dns_zone("example.domain", &document(&zone_answer("\"86400\""))).unwrap();
    assert_eq!(86400, z.ttl);
    assert_eq!(1, z.serial);
    assert_eq!(4, z.expire);
    assert!(z.dns_sec_status);
    let z = session().info_dns_zone("example.domain", &document(&zone_answer("600"))).unwrap();
    assert_eq!(600, z.ttl);
    let z = session().info_dns_zone("example.domain", &document(&zone_answer("\"+42\""))).unwrap();
    assert_eq!(42, z.ttl);
}

#[test]
fn zone_non_numeric_string_fails() {
    for ttl in ["\"abc\"", "\"\"", "\"-1\"", "\"4294967296\"", "\" 1\"", "1.5", "true"] {
        let r = session().info_dns_zone("example.domain", &document(&zone_answer(ttl)));
        assert!(matches!(r, Err(Errors::SerializeResponse)), "{ttl}");
    }
}

#[test]
fn login_success_opens_session() {
    let creds = SessionCredentials::new(12345, "key", "password");
    let s = creds.login(&document(SUCCESSFUL_LOGIN)).unwrap();
    assert_eq!("SUPERSECRETAPISESSIONID", s.api_session_id());
    assert_eq!(12345, s.customer_number());
    assert_eq!("key", s.api_key());
    assert_eq!("password", s.api_password());
}

#[test]
fn login_failures() {
    let creds = || SessionCredentials::new(1, "k", "p");
    let r = creds().login(&document(&login_answer(4001, "\"\"")));
    assert!(matches!(r, Err(Errors::Login(ref m)) if m == "long"));
    let r = creds().login(&document(FAILED_LOGIN));
    assert!(matches!(r, Err(Errors::ValidationError(ref m)) if m.starts_with("More than 180")));
    let r = creds().login(&document(&login_answer(2000, "\"\"")));
    assert!(matches!(r, Err(Errors::RetrieveAPISesionId)));
    let r = creds().login(&document(&login_answer(2000, "{\"apisessionid\": \"\"}")));
    assert!(matches!(r, Err(Errors::RetrieveAPISesionId)));
    let r = creds().login(&document(&login_answer(2000, "{\"apisessionid\": 7}")));
    assert!(matches!(r, Err(Errors::SerializeResponse)));
    let r = creds().login(&document("{}"));
    assert!(matches!(r, Err(Errors::SerializeResponse)));
}

#[test]
fn zone_call_failures_name_domain() {
    let r = session().info_dns_zone("example.domain", &document(INVALID_API_KEY));
    assert!(matches!(r, Err(Errors::DNSZoneNotFound(ref d)) if d == "example.domain"));
    let r = session().info_dns_zone("example.domain", &document(INVALID_DNS_ZONE));
    assert!(matches!(r, Err(Errors::DNSZoneRejected(ref d)) if d == "example.domain"));
    let text = SUCCESSFUL_LOGOUT_RESPONSE.replace("logout", "infoDnsZone");
    let r = session().info_dns_zone("example.domain", &document(&text));
    assert!(matches!(r, Err(Errors::SerializeResponse)));
}

#[test]
fn records_decode() {
    let records: DnsRecords = session().info_dns_records("example.domain", &document(RECORDS)).unwrap();
    let list = records.dns_records();
    assert_eq!(2, list.len());
    assert_eq!(Some("1".to_string()), list[0].id);
    assert_eq!("www", list[0].host_name());
    assert_eq!(&RecordType::A, list[0].record_type());
    assert_eq!("5.6.7.8", list[0].destination());
    assert_eq!(Some("0".to_string()), list[0].priority);
    assert_eq!(Some(false), list[0].delete_record);
    assert_eq!(Some("yes".to_string()), list[0].state);
    assert_eq!(&RecordType::Other("MX".to_string()), list[1].record_type());
}

#[test]
fn records_update_and_logout_answers() {
    let ok = SUCCESSFUL_LOGOUT_RESPONSE.replace("logout", "updateDnsRecords");
    assert!(session().update_dns_records("example.domain", &document(&ok)).is_ok());
    let r = session().update_dns_records("example.domain", &document(INVALID_DNS_ZONE));
    assert!(matches!(r, Err(Errors::DNSZoneRejected(ref d)) if d == "example.domain"));
    assert!(session().logout(&document(SUCCESSFUL_LOGOUT_RESPONSE)).is_ok());
    assert!(matches!(session().logout(&document(INVALID_API_KEY)), Err(Errors::Logout)));
    assert!(matches!(session().logout(&Json::Bool(true)), Err(Errors::SerializeResponse)));
}

fn text(s: &str) -> Json {
    Json::Text(s.to_string())
}

fn object(m: Vec<(&str, Json)>) -> Json {
    Json::Object(m.into_iter().map(|(k, v)| (k.to_string(), v)).collect())
}

#[test]
fn login_request_document() {
    let creds = SessionCredentials::new(12345, "key", "password");
    let j = creds.login_request().into_json();
    let expected = object(vec![
        ("action", text("login")),
        (
            "param",
            object(vec![
                ("customernumber", Json::Number("12345".to_string())),
                ("apikey", text("key")),
                ("apipassword", text("password")),
            ]),
        ),
    ]);
    assert_eq!(expected, j);
}

#[test]
fn zone_update_request_document() {
    let zone = DnsZone {
        name: "example.domain".to_string(),
        ttl: 300,
        serial: 2022071101,
        refresh: 28800,
        retry: 7200,
        expire: 1209600,
        dns_sec_status: false,
    };
    let r = session().update_dns_zone_request("example.domain", &zone);
    assert_eq!(Action::UpdateDnsZone, *r.action());
    let expected = object(vec![
        ("domainname", text("example.domain")),
        ("customernumber", Json::Number("12345".to_string())),
        ("apikey", text("key")),
        ("apisessionid", text("SESSION")),
        (
            "dnszone",
            object(vec![
                ("name", text("example.domain")),
                ("ttl", Json::Number("300".to_string())),
                ("serial", Json::Number("2022071101".to_string())),
                ("refresh", Json::Number("28800".to_string())),
                ("retry", Json::Number("7200".to_string())),
                ("expire", Json::Number("1209600".to_string())),
                ("dnssecstatus", Json::Bool(false)),
            ]),
        ),
    ]);
    assert_eq!(expected, r.param);
    let tagged = r.into_json();
    assert_eq!(Some(&text("updateDnsZone")), tagged.get("action"));
}

#[test]
fn records_update_request_document() {
    let new = netcup_ddns::models::DnsRecord::new("www", &netcup_ddns::models::IpAddress::V6("2001:db8::1".to_string()));
    let r = session().update_dns_records_request("example.domain", &vec![new]);
    assert_eq!(Action::UpdateDnsRecords, r.action);
    let record = object(vec![
        ("id", Json::Null),
        ("hostname", text("www")),
        ("type", text("AAAA")),
        ("priority", Json::Null),
        ("destination", text("2001:db8::1")),
        ("deleterecord", Json::Null),
        ("state", Json::Null),
    ]);
    assert_eq!(
        Some(&object(vec![("dnsrecords", Json::Array(vec![record]))])),
        r.param.get("dnsrecordset")
    );
    assert_eq!(Some(&text("SESSION")), r.param.get("apisessionid"));
}

#[test]
fn info_and_logout_request_documents() {
    let s = session();
    let r = s.info_dns_records_request("example.domain");
    assert_eq!(Action::InfoDnsRecords, r.action);
    assert_eq!(Some(&text("example.domain")), r.param.get("domainname"));
    let r = s.info_dns_zone_request("example.domain");
    assert_eq!(Action::InfoDnsZone, r.action);
    assert_eq!(Some(&Json::Number("12345".to_string())), r.param.get("customernumber"));
    let r = s.logout_request();
    assert_eq!(Action::Logout, r.action);
    assert_eq!(None, r.param.get("domainname"));
    assert_eq!(Some(&text("SESSION")), r.param.get("apisessionid"));
}

#[test]
fn wire_tags() {
    let actions = [
        (Action::Login, "login"),
        (Action::Logout, "logout"),
        (Action::InfoDnsZone, "infoDnsZone"),
        (Action::UpdateDnsZone, "updateDnsZone"),
        (Action::InfoDnsRecords, "infoDnsRecords"),
        (Action::UpdateDnsRecords, "updateDnsRecords"),
    ];
    for (a, tag) in actions {
        assert_eq!(tag, a.tag());
        assert_eq!(Some(a), Action::from_tag(tag));
    }
    assert_eq!(None, Action::from_tag("Login"));
    assert_eq!(Some(Status::Pending), Status::from_tag("pending"));
    assert_eq!(Some(Status::Warning), Status::from_tag("warning"));
    assert_eq!(Some(Status::Started), Status::from_tag("started"));
    assert_eq!(None, Status::from_tag("Success"));
    assert_eq!(Some(StatusCode::Error), StatusCode::from_code(4001));
    assert_eq!(None, StatusCode::from_code(4000));
    assert_eq!(4013, StatusCode::ValidationError.code());
    assert_eq!(2000, StatusCode::Success.code());
}
