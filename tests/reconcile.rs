use dns_reconcile::{
    flag_is_set, is_wanted_name, listing_request, load_config, parse_command, plan_deletions, split_domains,
    start_reconciliation, AddressSetting, Command, ConfigError, CreateAction, CreateRequest, CreateSession,
    DeleteAction, DeleteRequest, DeleteSession, ExistingRecord, Ipv6Address, RawConfig, Reconciliation,
    RecordContent, Startup, LISTING_PAGE_SIZE,
};

fn names(list: &[&str]) -> Vec<String> {
    list.iter().map(|s| s.to_string()).collect()
}

fn address() -> Ipv6Address {
    // 2001:db8::1
    Ipv6Address { bits: 0x2001_0db8_0000_0000_0000_0000_0000_0001 }
}

fn full_config() -> RawConfig {
    RawConfig {
        skip_dns: None,
        fqdns: Some("a.example.com,b.example.com".to_string()),
        ipv6_addr: AddressSetting::Parsed(address()),
        zone_id: Some("zone".to_string()),
        api_email: Some("me@example.com".to_string()),
        api_token: Some("SECRET-REDACTED".to_string()),
        command: None,
    }
}

/// Runs a creation session against a provider whose n-th call (from 1)
/// succeeds when `outcome(n)` holds; returns the calls made and whether the
/// run aborted.
fn drive_creation(session: &mut CreateSession, outcome: impl Fn(usize) -> bool) -> (Vec<CreateRequest>, bool) {
    let mut calls = Vec::new();
    loop {
        match session.next_action() {
            CreateAction::Create(req) => {
                calls.push(req);
                session.record_creation(outcome(calls.len()));
            }
            CreateAction::Finished => return (calls, false),
            CreateAction::Abort => return (calls, true),
        }
    }
}

/// Runs a deletion session; returns the number of listing calls, the delete
/// calls made and whether the run aborted.
fn drive_deletion(
    session: &mut DeleteSession,
    listing: Option<Vec<ExistingRecord>>,
    outcome: impl Fn(usize) -> bool,
) -> (usize, Vec<DeleteRequest>, bool) {
    let mut lists = 0;
    let mut listing = Some(listing);
    let mut calls = Vec::new();
    loop {
        match session.next_action() {
            DeleteAction::List(req) => {
                assert_eq!(req.per_page, LISTING_PAGE_SIZE);
                lists += 1;
                session.record_listing(listing.take().expect("listed twice"));
            }
            DeleteAction::Delete(req) => {
                calls.push(req);
                session.record_deletion(outcome(calls.len()));
            }
            DeleteAction::Finished => return (lists, calls, false),
            DeleteAction::Abort => return (lists, calls, true),
        }
    }
}

fn record(id: &str, name: &str) -> ExistingRecord {
    ExistingRecord::new(id.to_string(), name.to_string())
}

#[test]
fn empty_domain_list_means_no_calls() {
    let mut raw = full_config();
    raw.fqdns = Some(String::new());
    assert!(matches!(load_config(raw), Ok(Startup::NoDomains)));
    let mut raw = full_config();
    raw.fqdns = None;
    raw.ipv6_addr = AddressSetting::Missing;
    assert!(matches!(load_config(raw), Ok(Startup::NoDomains)));
    let mut raw = full_config();
    raw.fqdns = Some(",,".to_string());
    assert!(matches!(load_config(raw), Ok(Startup::NoDomains)));

    let mut create = CreateSession::new("zone".to_string(), address(), Vec::new());
    let (calls, aborted) = drive_creation(&mut create, |_| true);
    assert!(calls.is_empty());
    assert!(!aborted);

    let mut delete = DeleteSession::new("zone".to_string(), Vec::new());
    let (lists, calls, aborted) = drive_deletion(&mut delete, Some(vec![record("1", "a")]), |_| true);
    assert_eq!(lists, 0);
    assert!(calls.is_empty());
    assert!(!aborted);
}

#[test]
fn create_calls_follow_domain_order() {
    let domains = names(&["c.example.com", "a.example.com", "b.example.com"]);
    let mut session = CreateSession::new("zone".to_string(), address(), domains.clone());
    let (calls, aborted) = drive_creation(&mut session, |_| true);
    assert!(!aborted);
    assert_eq!(calls.len(), 3);
    for (call, name) in calls.iter().zip(domains.iter()) {
        assert_eq!(&call.name, name);
        assert_eq!(call.zone_id, "zone");
        assert_eq!(call.content, RecordContent::Aaaa { address: address() });
    }
    assert_eq!(session.calls_made(), 3);
}

#[test]
fn create_aborts_after_second_of_five_fails() {
    let domains = names(&["d1", "d2", "d3", "d4", "d5"]);
    let mut session = CreateSession::new("zone".to_string(), address(), domains);
    let (calls, aborted) = drive_creation(&mut session, |n| n != 2);
    assert!(aborted);
    assert_eq!(calls.len(), 2);
    assert_eq!(calls[0].name, "d1");
    assert_eq!(calls[1].name, "d2");
    assert!(!session.awaits_creation());
    assert!(matches!(session.next_action(), CreateAction::Abort));
}

#[test]
fn create_aborts_when_first_call_fails() {
    let mut session = CreateSession::new("zone".to_string(), address(), names(&["x", "y"]));
    let (calls, aborted) = drive_creation(&mut session, |_| false);
    assert!(aborted);
    assert_eq!(calls.len(), 1);
}

#[test]
fn skip_flag_overrides_everything() {
    for flag in ["true", "TRUE", "True", "tRuE"] {
        let raw = RawConfig {
            skip_dns: Some(flag.to_string()),
            fqdns: Some("a.example.com".to_string()),
            ipv6_addr: AddressSetting::Unparsable,
            zone_id: None,
            api_email: None,
            api_token: None,
            command: Some("frobnicate".to_string()),
        };
        assert!(matches!(load_config(raw), Ok(Startup::SkipDns)));
    }
    for flag in ["false", "yes", "", "true "] {
        let mut raw = full_config();
        raw.skip_dns = Some(flag.to_string());
        assert!(matches!(load_config(raw), Ok(Startup::Run(_))));
    }
}

#[test]
fn flag_value_is_case_insensitive() {
    assert!(flag_is_set("TrUe"));
    assert!(flag_is_set("TRUE"));
    assert!(flag_is_set("true"));
    assert!(!flag_is_set("truth"));
    assert!(!flag_is_set("1"));
}

#[test]
fn unrecognized_command_does_nothing() {
    let mut raw = full_config();
    raw.command = Some("frobnicate".to_string());
    let config = match load_config(raw) {
        Ok(Startup::Run(c)) => c,
        _ => panic!("expected a run"),
    };
    assert_eq!(config.command, Command::Unrecognized);
    assert!(matches!(start_reconciliation(config), Reconciliation::Idle));
}

#[test]
fn command_tokens() {
    assert_eq!(parse_command(None), Command::Create);
    assert_eq!(parse_command(Some("create")), Command::Create);
    assert_eq!(parse_command(Some("CREATE")), Command::Create);
    assert_eq!(parse_command(Some("Delete")), Command::Delete);
    assert_eq!(parse_command(Some("delete")), Command::Delete);
    assert_eq!(parse_command(Some("remove")), Command::Unrecognized);
    assert_eq!(parse_command(Some("")), Command::Unrecognized);
    assert_eq!(parse_command(Some(" create")), Command::Unrecognized);
}

#[test]
fn commands_start_matching_sessions() {
    let mut raw = full_config();
    raw.command = Some("DELETE".to_string());
    let config = match load_config(raw) {
        Ok(Startup::Run(c)) => c,
        _ => panic!("expected a run"),
    };
    match start_reconciliation(config) {
        Reconciliation::Delete(s) => {
            assert!(s.awaits_listing());
            match s.next_action() {
                DeleteAction::List(req) => {
                    assert_eq!(req.zone_id, "zone");
                    assert_eq!(req.per_page, 1000);
                }
                _ => panic!("expected a listing"),
            }
        }
        _ => panic!("expected a deletion"),
    }
    let config = match load_config(full_config()) {
        Ok(Startup::Run(c)) => c,
        _ => panic!("expected a run"),
    };
    match start_reconciliation(config) {
        Reconciliation::Create(s) => match s.next_action() {
            CreateAction::Create(req) => assert_eq!(req.name, "a.example.com"),
            _ => panic!("expected a create call"),
        },
        _ => panic!("expected a creation"),
    }
}

#[test]
fn delete_targets_only_the_matching_record() {
    let listing = vec![record("id-a", "a.example.com"), record("id-b", "b.example.com"), record("id-c", "c.example.com")];
    let mut session = DeleteSession::new("zone".to_string(), names(&["b.example.com"]));
    let (lists, calls, aborted) = drive_deletion(&mut session, Some(listing), |_| true);
    assert_eq!(lists, 1);
    assert!(!aborted);
    assert_eq!(calls.len(), 1);
    assert_eq!(calls[0].record_id, "id-b");
    assert_eq!(calls[0].zone_id, "zone");
}

#[test]
fn delete_matches_names_exactly() {
    let listing = vec![
        record("1", "B.example.com"),
        record("2", "x.b.example.com"),
        record("3", "b.example.com."),
        record("4", "b.example.com"),
        record("5", "a.example.com"),
        record("6", "b.example.com"),
    ];
    let planned = plan_deletions(&"zone".to_string(), &listing, &names(&["b.example.com", "a.example.com"]));
    let ids: Vec<&str> = planned.iter().map(|d| d.record_id.as_str()).collect();
    assert_eq!(ids, vec!["4", "5", "6"]);
    assert!(is_wanted_name(&names(&["a", "b"]), &"b".to_string()));
    assert!(!is_wanted_name(&names(&["a", "b"]), &"B".to_string()));
    assert!(!is_wanted_name(&Vec::new(), &"".to_string()));
}

#[test]
fn delete_aborts_when_listing_fails() {
    let mut session = DeleteSession::new("zone".to_string(), names(&["a"]));
    let (lists, calls, aborted) = drive_deletion(&mut session, None, |_| true);
    assert_eq!(lists, 1);
    assert!(calls.is_empty());
    assert!(aborted);
}

#[test]
fn delete_goes_on_after_a_failed_call() {
    let listing = vec![record("1", "a"), record("2", "b"), record("3", "a")];
    let mut session = DeleteSession::new("zone".to_string(), names(&["a", "b"]));
    let (_, calls, aborted) = drive_deletion(&mut session, Some(listing), |n| n != 1);
    assert!(!aborted);
    assert_eq!(calls.len(), 3);
    assert_eq!(session.failed_deletions(), 1);
    assert!(!session.awaits_deletion());
}

#[test]
fn listing_request_asks_one_full_page() {
    let req = listing_request(&"zone-7".to_string());
    assert_eq!(req.zone_id, "zone-7");
    assert_eq!(req.per_page, 1000);
}

#[test]
fn split_domain_lists() {
    assert_eq!(split_domains("a.example.com,b.example.com"), names(&["a.example.com", "b.example.com"]));
    assert_eq!(split_domains(""), Vec::<String>::new());
    assert_eq!(split_domains(",a,,b,"), names(&["a", "b"]));
    assert_eq!(split_domains("only"), names(&["only"]));
    assert_eq!(split_domains(" a , b"), names(&[" a ", " b"]));
    assert_eq!(split_domains("bücher.de,ß"), names(&["bücher.de", "ß"]));
}

#[test]
fn config_errors_in_order() {
    let mut raw = full_config();
    raw.ipv6_addr = AddressSetting::Missing;
    raw.zone_id = None;
    assert!(matches!(load_config(raw), Err(ConfigError::MissingAddress)));
    let mut raw = full_config();
    raw.ipv6_addr = AddressSetting::Unparsable;
    assert!(matches!(load_config(raw), Err(ConfigError::InvalidAddress)));
    let mut raw = full_config();
    raw.zone_id = None;
    raw.api_email = None;
    assert!(matches!(load_config(raw), Err(ConfigError::MissingZoneId)));
    let mut raw = full_config();
    raw.api_email = None;
    raw.api_token = None;
    assert!(matches!(load_config(raw), Err(ConfigError::MissingApiEmail)));
    let mut raw = full_config();
    raw.api_token = None;
    assert!(matches!(load_config(raw), Err(ConfigError::MissingApiToken)));
}

#[test]
fn full_config_is_carried_over() {
    match load_config(full_config()) {
        Ok(Startup::Run(c)) => {
            assert_eq!(c.zone_id, "zone");
            assert_eq!(c.address, address());
            assert_eq!(c.domains, names(&["a.example.com", "b.example.com"]));
            assert_eq!(c.api_email, "me@example.com");
            assert_eq!(c.api_token, "SECRET-REDACTED");
            assert_eq!(c.command, Command::Create);
        }
        _ => panic!("expected a run"),
    }
}
