use cloudflare_ddns::model::{DnsRecord, Error, ErrorMessage, TransportKind};
use cloudflare_ddns::provider::AddressFamily;
use cloudflare_ddns::reconcile::{Action, Event, Outcome, Reconciler};

fn record(id: &str, record_type: &str, content: &str) -> DnsRecord {
    DnsRecord {
        content: content.to_string(),
        record_type: record_type.to_string(),
        id: id.to_string(),
        zone_id: "Z".to_string(),
    }
}

fn ids(list: &[&str]) -> Vec<String> {
    list.iter().map(|s| s.to_string()).collect()
}

fn connection_failed() -> Error {
    Error::Request(TransportKind::ConnectionFailed, "no route to host".to_string())
}

fn expect_fetch(a: &Action, record_id: &str) {
    match a {
        Action::Fetch { zone_id, record_id: r } => {
            assert_eq!(zone_id, "Z");
            assert_eq!(r, record_id);
        }
        other => panic!("expected a fetch, got {:?}", other),
    }
}

#[test]
fn current_and_unavailable_records_complete_the_pass() {
    let mut r = Reconciler::new("Z".to_string(), ids(&["R1", "R2"]));
    expect_fetch(&r.first_action(), "R1");
    let (o, a) = r.step(Event::Fetched(Ok(record("R1", "A", "1.1.1.1"))));
    assert!(o.is_none());
    assert!(matches!(a, Action::Detect { family: AddressFamily::Ipv4 }));
    let (o, a) = r.step(Event::Detected(Ok("1.1.1.1".to_string())));
    match o {
        Some(Outcome::AlreadyCurrent { id, address }) => {
            assert_eq!(id, "R1");
            assert_eq!(address, "1.1.1.1");
        }
        other => panic!("expected a no-op, got {:?}", other),
    }
    expect_fetch(&a, "R2");
    let (o, a) = r.step(Event::Fetched(Ok(record("R2", "AAAA", "::1"))));
    assert!(o.is_none());
    assert!(matches!(a, Action::Detect { family: AddressFamily::Ipv6 }));
    let (o, a) = r.step(Event::Detected(Err(connection_failed())));
    match o {
        Some(Outcome::Unavailable { id, family }) => {
            assert_eq!(id, "R2");
            assert_eq!(family, AddressFamily::Ipv6);
        }
        other => panic!("expected a skip, got {:?}", other),
    }
    assert!(matches!(a, Action::Finish));
    assert!(r.is_done());
}

#[test]
fn changed_address_is_updated() {
    let mut r = Reconciler::new("Z".to_string(), ids(&["R1", "R2"]));
    expect_fetch(&r.first_action(), "R1");
    let (_, a) = r.step(Event::Fetched(Ok(record("R1", "A", "1.1.1.1"))));
    assert!(matches!(a, Action::Detect { family: AddressFamily::Ipv4 }));
    let (o, a) = r.step(Event::Detected(Ok("2.2.2.2".to_string())));
    assert!(o.is_none());
    match &a {
        Action::Update { zone_id, record_id, update } => {
            assert_eq!(zone_id, "Z");
            assert_eq!(record_id, "R1");
            assert_eq!(update.content, "2.2.2.2");
        }
        other => panic!("expected an update, got {:?}", other),
    }
    let (o, a) = r.step(Event::Updated(Ok(record("R1", "A", "2.2.2.2"))));
    match o {
        Some(Outcome::Updated { id, old, new }) => {
            assert_eq!(id, "R1");
            assert_eq!(old, "1.1.1.1");
            assert_eq!(new, "2.2.2.2");
        }
        other => panic!("expected an update outcome, got {:?}", other),
    }
    expect_fetch(&a, "R2");
    assert!(!r.is_done());
}

#[test]
fn rejected_fetch_aborts_before_second_record() {
    let mut r = Reconciler::new("Z".to_string(), ids(&["R1", "R2"]));
    expect_fetch(&r.first_action(), "R1");
    let rejected = Error::Cloudflare(ErrorMessage { code: 1003, message: "invalid zone".to_string() });
    let (o, a) = r.step(Event::Fetched(Err(rejected)));
    assert!(o.is_none());
    match a {
        Action::Abort { record_id, error: Error::Cloudflare(m) } => {
            assert_eq!(record_id, "R1");
            assert_eq!(m.code, 1003);
            assert_eq!(m.message, "invalid zone");
        }
        other => panic!("expected an abort, got {:?}", other),
    }
    assert!(r.is_done());
    assert!(!r.accepts(&Event::Fetched(Ok(record("R2", "A", "1.1.1.1")))));
}

#[test]
fn unsupported_record_type_aborts_before_lookup() {
    let mut r = Reconciler::new("Z".to_string(), ids(&["R1", "R2"]));
    let (o, a) = r.step(Event::Fetched(Ok(record("R1", "CNAME", "example.com"))));
    assert!(o.is_none());
    match a {
        Action::Abort { record_id, error: Error::UnsupportedRecordType(t) } => {
            assert_eq!(record_id, "R1");
            assert_eq!(t, "CNAME");
        }
        other => panic!("expected an abort, got {:?}", other),
    }
    assert!(r.is_done());
    assert!(!r.accepts(&Event::Detected(Ok("1.1.1.1".to_string()))));
}

#[test]
fn other_lookup_failure_aborts_the_pass() {
    let mut r = Reconciler::new("Z".to_string(), ids(&["R1", "R2"]));
    let _ = r.step(Event::Fetched(Ok(record("R1", "A", "1.1.1.1"))));
    let timeout = Error::Request(TransportKind::Other, "timed out".to_string());
    let (o, a) = r.step(Event::Detected(Err(timeout)));
    assert!(o.is_none());
    match a {
        Action::Abort { record_id, error: Error::Request(kind, _) } => {
            assert_eq!(record_id, "R1");
            assert_eq!(kind, TransportKind::Other);
        }
        other => panic!("expected an abort, got {:?}", other),
    }
    assert!(r.is_done());
    assert!(!r.accepts(&Event::Fetched(Ok(record("R2", "A", "1.1.1.1")))));
}

#[test]
fn unavailable_family_continues_with_next_record() {
    let mut r = Reconciler::new("Z".to_string(), ids(&["R2", "R1"]));
    let _ = r.step(Event::Fetched(Ok(record("R2", "AAAA", "::1"))));
    let (o, a) = r.step(Event::Detected(Err(connection_failed())));
    assert!(matches!(o, Some(Outcome::Unavailable { family: AddressFamily::Ipv6, .. })));
    expect_fetch(&a, "R1");
    assert!(r.accepts(&Event::Fetched(Ok(record("R1", "A", "1.1.1.1")))));
}

#[test]
fn failed_update_aborts_the_pass() {
    let mut r = Reconciler::new("Z".to_string(), ids(&["R1", "R2"]));
    let _ = r.step(Event::Fetched(Ok(record("R1", "A", "1.1.1.1"))));
    let _ = r.step(Event::Detected(Ok("2.2.2.2".to_string())));
    let (o, a) = r.step(Event::Updated(Err(Error::JsonParse("eof".to_string()))));
    assert!(o.is_none());
    assert!(matches!(a, Action::Abort { error: Error::JsonParse(_), .. }));
    assert!(r.is_done());
}

#[test]
fn update_uses_the_record_zone() {
    let mut r = Reconciler::new("Z".to_string(), ids(&["R1"]));
    let mut rec = record("R1", "AAAA", "::1");
    rec.zone_id = "OTHER".to_string();
    let _ = r.step(Event::Fetched(Ok(rec)));
    let (_, a) = r.step(Event::Detected(Ok("::2".to_string())));
    match a {
        Action::Update { zone_id, .. } => assert_eq!(zone_id, "OTHER"),
        other => panic!("expected an update, got {:?}", other),
    }
    let (_, a) = r.step(Event::Updated(Ok(record("R1", "AAAA", "::2"))));
    assert!(matches!(a, Action::Finish));
}

#[test]
fn empty_list_finishes_at_once() {
    let r = Reconciler::new("Z".to_string(), Vec::new());
    assert!(r.is_done());
    assert!(matches!(r.first_action(), Action::Finish));
}

#[test]
fn event_of_wrong_kind_is_not_accepted() {
    let r = Reconciler::new("Z".to_string(), ids(&["R1"]));
    assert!(r.accepts(&Event::Fetched(Ok(record("R1", "A", "1.1.1.1")))));
    assert!(!r.accepts(&Event::Detected(Ok("1.1.1.1".to_string()))));
    assert!(!r.accepts(&Event::Updated(Ok(record("R1", "A", "1.1.1.1")))));
}
