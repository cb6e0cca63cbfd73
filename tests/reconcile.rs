use netcup_ddns::models::{DnsRecord, IpAddress, RecordType};
use netcup_ddns::reconcile::{plan_subdomain, zone_decision, Mutation, SubdomainPlan, ZoneDecision};

fn existing(id: &str, host: &str, kind: RecordType, destination: &str) -> DnsRecord {
    DnsRecord {
        id: Some(id.to_string()),
        host_name: host.to_string(),
        record_type: kind,
        priority: Some("0".to_string()),
        destination: destination.to_string(),
        delete_record: Some(false),
        state: Some("yes".to_string()),
    }
}

fn v4(s: &str) -> IpAddress {
    IpAddress::V4(s.to_string())
}

fn v6(s: &str) -> IpAddress {
    IpAddress::V6(s.to_string())
}

fn changes(plan: SubdomainPlan) -> Vec<Mutation> {
    match plan {
        SubdomainPlan::Apply(ms) => ms,
        SubdomainPlan::Conflict => panic!("unexpected conflict"),
    }
}

#[test]
fn no_record_creates_one() {
    let ms = changes(plan_subdomain("www", &vec![], &vec![v4("1.2.3.4")]));
    assert_eq!(1, ms.len());
    match &ms[0] {
        Mutation::Create(r) => {
            assert_eq!(None, r.id);
            assert_eq!("www", r.host_name);
            assert_eq!(RecordType::A, r.record_type);
            assert_eq!("1.2.3.4", r.destination);
        }
        Mutation::Update(_) => panic!("expected a creation"),
    }
}

#[test]
fn one_record_is_updated() {
    let records = vec![existing("17", "www", RecordType::A, "5.6.7.8")];
    let ms = changes(plan_subdomain("www", &records, &vec![v4("1.2.3.4")]));
    assert_eq!(1, ms.len());
    match &ms[0] {
        Mutation::Update(r) => {
            assert_eq!(Some("17".to_string()), r.id);
            assert_eq!("www", r.host_name);
            assert_eq!(RecordType::A, r.record_type);
            assert_eq!("1.2.3.4", r.destination);
            assert_eq!(Some("yes".to_string()), r.state);
        }
        Mutation::Create(_) => panic!("expected an update"),
    }
}

#[test]
fn two_records_conflict() {
    let records = vec![
        existing("1", "www", RecordType::A, "5.6.7.8"),
        existing("2", "www", RecordType::A, "9.9.9.9"),
    ];
    let plan = plan_subdomain("www", &records, &vec![v4("1.2.3.4")]);
    assert!(plan.is_conflict());
    assert!(plan.records().is_empty());
}

#[test]
fn other_types_never_touched() {
    let records = vec![
        existing("1", "www", RecordType::Other("TXT".to_string()), "hello"),
        existing("2", "www", RecordType::Other("MX".to_string()), "mail"),
        existing("3", "api", RecordType::A, "5.6.7.8"),
    ];
    let addrs = vec![v4("1.2.3.4"), v6("2001:db8::1")];
    let ms = changes(plan_subdomain("www", &records, &addrs));
    assert_eq!(2, ms.len());
    for m in &ms {
        assert!(matches!(m, Mutation::Create(_)));
        assert!(m.record().record_type.is_managed());
    }
    assert_eq!(RecordType::AAAA, ms[1].record().record_type);
    assert_eq!("2001:db8::1", ms[1].record().destination);
}

#[test]
fn single_record_other_family_is_created() {
    let records = vec![existing("9", "home", RecordType::AAAA, "2001:db8::5")];
    let addrs = vec![v4("1.2.3.4"), v6("2001:db8::1")];
    let plan = plan_subdomain("home", &records, &addrs);
    let written = plan.records();
    assert_eq!(2, written.len());
    assert_eq!(Some("9".to_string()), written[0].id);
    assert_eq!("2001:db8::1", written[0].destination);
    assert_eq!(None, written[1].id);
    assert_eq!(RecordType::A, written[1].record_type);
    assert_eq!("1.2.3.4", written[1].destination);
}

#[test]
fn single_record_without_matching_address() {
    let records = vec![existing("9", "home", RecordType::AAAA, "2001:db8::5")];
    let ms = changes(plan_subdomain("home", &records, &vec![]));
    assert!(ms.is_empty());
    let ms = changes(plan_subdomain("home", &vec![], &vec![]));
    assert!(ms.is_empty());
}

#[test]
fn zone_ttl_decisions() {
    assert_eq!(ZoneDecision::Warn(600), zone_decision(600, None));
    assert_eq!(ZoneDecision::Update(300), zone_decision(600, Some(300)));
    assert_eq!(ZoneDecision::Keep, zone_decision(200, None));
    assert_eq!(ZoneDecision::Keep, zone_decision(200, Some(60)));
    assert_eq!(ZoneDecision::Keep, zone_decision(300, Some(60)));
    assert_eq!(ZoneDecision::Update(60), zone_decision(301, Some(60)));
}
