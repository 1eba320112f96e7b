use ddns::errors::DdnsError;
use ddns::ip::Ipv4;
use ddns::record::{plan_reconcile, DesiredState, DnsRecord, RecordAction, TTL_AUTOMATIC};

fn desired(domain: &str, content: Ipv4) -> DesiredState {
    DesiredState { domain: String::from(domain), content, proxied: true }
}

fn listed(id: &str, name: &str, content: Ipv4) -> DnsRecord {
    DnsRecord {
        id: Some(String::from(id)),
        name: String::from(name),
        content,
        proxied: true,
        ttl: TTL_AUTOMATIC,
    }
}

/// What the provider stores once it has applied `action`, choosing `new_id`
/// for a created record.
fn provider_applies(records: &mut Vec<DnsRecord>, action: RecordAction, new_id: &str) {
    match action {
        RecordAction::Create { mut record } => {
            record.id = Some(String::from(new_id));
            records.push(record);
        },
        RecordAction::Update { id, record } => {
            for stored in records.iter_mut() {
                if stored.id.as_deref() == Some(id.as_str()) {
                    stored.name = record.name.clone();
                    stored.content = record.content;
                    stored.proxied = record.proxied;
                    stored.ttl = record.ttl;
                }
            }
        },
    }
}

const IP_A: Ipv4 = Ipv4 { a: 192, b: 0, c: 2, d: 10 };
const IP_B: Ipv4 = Ipv4 { a: 192, b: 0, c: 2, d: 20 };

#[test]
fn no_existing_record_plans_a_create() {
    let existing = vec![listed("r9", "other.example.com", IP_A)];
    let d = desired("home.example.com", IP_A);
    let action = plan_reconcile(&existing, &d).unwrap();
    assert_eq!(
        action,
        RecordAction::Create {
            record: DnsRecord {
                id: None,
                name: String::from("home.example.com"),
                content: IP_A,
                proxied: true,
                ttl: TTL_AUTOMATIC,
            }
        }
    );
}

#[test]
fn one_existing_record_plans_an_update_to_its_id() {
    let existing = vec![
        listed("r1", "other.example.com", IP_A),
        listed("r2", "home.example.com", IP_A),
    ];
    let d = desired("home.example.com", IP_B);
    let action = plan_reconcile(&existing, &d).unwrap();
    match action {
        RecordAction::Update { id, record } => {
            assert_eq!(id, "r2");
            assert_eq!(record.content, IP_B);
            assert_eq!(record.ttl, TTL_AUTOMATIC);
        },
        other => panic!("expected an update, got {:?}", other),
    }
}

#[test]
fn an_unchanged_record_is_still_updated_not_diffed() {
    // The update is planned even when nothing differs: the provider call is
    // idempotent, and diffing is only an optional optimisation.
    let existing = vec![listed("r1", "home.example.com", IP_A)];
    let d = desired("home.example.com", IP_A);
    match plan_reconcile(&existing, &d).unwrap() {
        RecordAction::Update { id, .. } => assert_eq!(id, "r1"),
        other => panic!("expected an update, got {:?}", other),
    }
}

#[test]
fn two_matching_records_are_ambiguous() {
    let existing = vec![
        listed("r1", "home.example.com", IP_A),
        listed("r2", "home.example.com", IP_B),
    ];
    let d = desired("home.example.com", IP_B);
    assert_eq!(plan_reconcile(&existing, &d), Err(DdnsError::AmbiguousStateError));
}

#[test]
fn create_then_update_keeps_the_record_id() {
    let mut records: Vec<DnsRecord> = Vec::new();

    // First cycle: nothing exists, so a create is planned and applied.
    let d1 = desired("home.example.com", IP_A);
    let a1 = plan_reconcile(&records, &d1).unwrap();
    assert!(matches!(a1, RecordAction::Create { .. }));
    provider_applies(&mut records, a1, "fresh-id");

    // Second cycle: the address changed; the same record is updated in
    // place, addressed by the id the provider chose at create time.
    let d2 = desired("home.example.com", IP_B);
    match plan_reconcile(&records, &d2).unwrap() {
        RecordAction::Update { id, record } => {
            assert_eq!(id, "fresh-id");
            assert_eq!(record.content, IP_B);
        },
        other => panic!("expected an update, got {:?}", other),
    }
}

#[test]
fn reconciling_twice_with_the_same_state_settles() {
    let mut records = vec![listed("r7", "home.example.com", IP_A)];
    let d = desired("home.example.com", IP_B);

    let a1 = plan_reconcile(&records, &d).unwrap();
    provider_applies(&mut records, a1, "unused");
    let after_first = records.clone();

    // The second cycle plans an update (not a create) to the same id, and
    // applying it leaves the provider's state exactly as it was.
    let a2 = plan_reconcile(&records, &d).unwrap();
    match &a2 {
        RecordAction::Update { id, record } => {
            assert_eq!(id, "r7");
            assert_eq!(record.content, IP_B);
        },
        other => panic!("expected an update, got {:?}", other),
    }
    provider_applies(&mut records, a2, "unused");
    assert_eq!(records, after_first);
}
