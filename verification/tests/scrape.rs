use ldap_exporter::entry::{Attribute, DirectoryEntry};
use ldap_exporter::plan::{query_plan, QueryDescriptor, SearchScope};
use ldap_exporter::scrape::{
    decide_auth, Action, AuthDecision, Config, Event, FailureReason, ScrapeState, Scraper,
};

fn config(uri: Option<&str>, bind_dn: Option<&str>, bind_password: Option<&str>) -> Config {
    Config {
        uri: uri.map(String::from),
        bind_dn: bind_dn.map(String::from),
        bind_password: bind_password.map(String::from),
    }
}

fn simple_config() -> Config {
    config(Some("ldap://directory.test"), Some("cn=admin"), Some("opensesame"))
}

fn entry(dn: &str, attributes: &[(&str, &[&str])]) -> DirectoryEntry {
    DirectoryEntry {
        dn: dn.to_string(),
        attributes: attributes
            .iter()
            .map(|(key, values)| Attribute {
                key: key.to_string(),
                values: values.iter().map(|v| v.to_string()).collect(),
            })
            .collect(),
    }
}

/// What the directory of the tests holds under each base of the plan.
fn directory(base_dn: &str) -> Vec<DirectoryEntry> {
    match base_dn {
        "cn=statistics,cn=monitor" => vec![
            entry("cn=Bytes,cn=Statistics,cn=Monitor", &[("monitorCounter", &["1024"])]),
            entry("cn=Entries,cn=Statistics,cn=Monitor", &[("monitorCounter", &["7"])]),
        ],
        "cn=connections,cn=monitor" => vec![
            entry("cn=Max File Descriptors,cn=Connections,cn=Monitor", &[("monitorCounter", &["4096"])]),
            entry("cn=Total,cn=Connections,cn=Monitor", &[("monitorCounter", &["1000", "1001"])]),
            entry("cn=Current,cn=Connections,cn=Monitor", &[("monitorCounter", &["3"])]),
        ],
        "cn=time,cn=monitor" => {
            vec![entry("cn=Uptime,cn=Time,cn=Monitor", &[("monitoredInfo", &["86400"])])]
        }
        "cn=waiters,cn=monitor" => vec![
            entry("cn=Read,cn=Waiters,cn=Monitor", &[("monitorCounter", &["1"])]),
            entry("cn=Write,cn=Waiters,cn=Monitor", &[("monitorCounter", &["0"])]),
        ],
        "cn=threads,cn=monitor" => vec![
            entry("cn=Max,cn=Threads,cn=Monitor", &[("monitoredInfo", &["16"])]),
            entry("cn=Max Pending,cn=Threads,cn=Monitor", &[("monitoredInfo", &["0"])]),
        ],
        "cn=operations,cn=monitor" => vec![
            entry("cn=Operations,cn=Monitor", &[("monitorOpInitiated", &["17"]), ("monitorOpCompleted", &["16"])]),
            entry("cn=Bind,cn=Operations,cn=Monitor", &[("monitorOpInitiated", &["5"]), ("monitorOpCompleted", &["5"])]),
        ],
        _ => Vec::new(),
    }
}

const STATISTICS: &str = "ldap_monitor_statistics_bytes 1024\nldap_monitor_statistics_entries 7\n";
const CONNECTIONS: &str = "ldap_monitor_connections_max_file_descriptors 4096\nldap_monitor_connections_total 1001\nldap_monitor_connections_current 3\n";
const TIME: &str = "ldap_monitor_time_uptime 86400\n";
const WAITERS: &str = "ldap_monitor_waiters_read 1\nldap_monitor_waiters_write 0\n";
const THREADS: &str = "ldap_monitor_threads_max 16\nldap_monitor_threads_max_pending 0\n";
const OPERATIONS: &str = "ldap_monitor_operations{stage=\"initiated\"} 17\nldap_monitor_operations{stage=\"completed\"} 16\nldap_monitor_operations_bind{stage=\"initiated\"} 5\nldap_monitor_operations_bind{stage=\"completed\"} 5\n";

/// Runs a scrape against the directory of the tests. The queries whose place
/// in the plan is in `failing` fail; the clock reads 1000 at the start and
/// 1250 at the end.
fn run_scrape(config: Config, failing: &[usize]) -> Result<String, FailureReason> {
    let mut scraper = Scraper::new(query_plan(), config);
    let mut event = Event::Start { now_ms: 1000 };
    loop {
        let (next, action) = scraper.step(event);
        scraper = next;
        event = match action {
            Action::Connect { .. } => Event::Connected,
            Action::BindSimple { .. } | Action::BindExternal => Event::BindSucceeded,
            Action::Search { index } => {
                if failing.contains(&index) {
                    Event::QueryFailed
                } else {
                    Event::QueryAnswered(directory(&scraper.plan()[index].base_dn))
                }
            }
            Action::Close => Event::Closed { now_ms: 1250 },
            Action::Finish { body } => return Ok(body),
            Action::Fail { reason } => return Err(reason),
        }
    }
}

#[test]
fn whole_scrape_gives_every_line_and_the_duration() {
    let expected = format!(
        "{}{}{}{}{}{}ldap_scrape_duration_seconds 0.25000\n",
        STATISTICS, CONNECTIONS, TIME, WAITERS, THREADS, OPERATIONS
    );
    assert_eq!(run_scrape(simple_config(), &[]), Ok(expected));
}

#[test]
fn duration_line_has_digits_a_point_and_five_digits() {
    let body = run_scrape(simple_config(), &[]).unwrap();
    let last = body.lines().last().unwrap();
    let number = last.strip_prefix("ldap_scrape_duration_seconds ").unwrap();
    let (whole, fraction) = number.split_once('.').unwrap();
    assert!(!whole.is_empty() && whole.chars().all(|c| c.is_ascii_digit()));
    assert!(fraction.len() == 5 && fraction.chars().all(|c| c.is_ascii_digit()));
    assert!(body.ends_with('\n'));
}

#[test]
fn failed_query_leaves_the_other_five() {
    let expected = format!(
        "{}{}{}{}{}ldap_scrape_duration_seconds 0.25000\n",
        STATISTICS, CONNECTIONS, WAITERS, THREADS, OPERATIONS
    );
    assert_eq!(run_scrape(simple_config(), &[2]), Ok(expected));
    let expected = format!(
        "{}{}{}{}{}ldap_scrape_duration_seconds 0.25000\n",
        CONNECTIONS, TIME, WAITERS, THREADS, OPERATIONS
    );
    assert_eq!(run_scrape(simple_config(), &[0]), Ok(expected));
    let expected = format!(
        "{}{}{}{}{}ldap_scrape_duration_seconds 0.25000\n",
        STATISTICS, CONNECTIONS, TIME, WAITERS, THREADS
    );
    assert_eq!(run_scrape(simple_config(), &[5]), Ok(expected));
}

#[test]
fn scrape_in_which_every_query_fails_still_succeeds() {
    assert_eq!(
        run_scrape(simple_config(), &[0, 1, 2, 3, 4, 5]),
        Ok("ldap_scrape_duration_seconds 0.25000\n".to_string())
    );
}

#[test]
fn query_without_entries_adds_nothing_and_goes_on() {
    let scraper = Scraper::new(query_plan(), simple_config());
    let (scraper, _) = scraper.step(Event::Start { now_ms: 0 });
    let (scraper, _) = scraper.step(Event::Connected);
    let (scraper, action) = scraper.step(Event::BindSucceeded);
    assert_eq!(action, Action::Search { index: 0 });
    let (scraper, action) = scraper.step(Event::QueryAnswered(Vec::new()));
    assert_eq!(action, Action::Search { index: 1 });
    assert_eq!(scraper.state(), ScrapeState::Querying(1));
    let (scraper, _) = scraper.step(Event::QueryAnswered(Vec::new()));
    let (scraper, _) = scraper.step(Event::QueryAnswered(Vec::new()));
    let (scraper, _) = scraper.step(Event::QueryAnswered(Vec::new()));
    let (scraper, _) = scraper.step(Event::QueryAnswered(Vec::new()));
    let (scraper, action) = scraper.step(Event::QueryAnswered(Vec::new()));
    assert_eq!(action, Action::Close);
    assert_eq!(scraper.state(), ScrapeState::Finalizing);
    let (scraper, action) = scraper.step(Event::Closed { now_ms: 1 });
    assert_eq!(action, Action::Finish { body: "ldap_scrape_duration_seconds 0.00100\n".to_string() });
    assert_eq!(scraper.state(), ScrapeState::Done);
}

#[test]
fn connection_failure_fails_the_scrape() {
    let scraper = Scraper::new(query_plan(), simple_config());
    let (scraper, action) = scraper.step(Event::Start { now_ms: 0 });
    assert_eq!(action, Action::Connect { uri: "ldap://directory.test".to_string() });
    assert_eq!(scraper.state(), ScrapeState::Connecting);
    let (scraper, action) = scraper.step(Event::ConnectFailed);
    assert_eq!(action, Action::Fail { reason: FailureReason::Connect });
    assert_eq!(scraper.state(), ScrapeState::Failed(FailureReason::Connect));
}

#[test]
fn bind_failure_fails_the_scrape() {
    let scraper = Scraper::new(query_plan(), simple_config());
    let (scraper, _) = scraper.step(Event::Start { now_ms: 0 });
    let (scraper, action) = scraper.step(Event::Connected);
    assert_eq!(
        action,
        Action::BindSimple { bind_dn: "cn=admin".to_string(), password: "opensesame".to_string() }
    );
    assert_eq!(scraper.state(), ScrapeState::Authenticating);
    let (scraper, action) = scraper.step(Event::BindFailed);
    assert_eq!(action, Action::Fail { reason: FailureReason::Bind });
    assert_eq!(scraper.state(), ScrapeState::Failed(FailureReason::Bind));
}

#[test]
fn failure_differs_from_a_scrape_without_lines() {
    let empty = run_scrape(simple_config(), &[0, 1, 2, 3, 4, 5]);
    assert!(empty.is_ok());
    let scraper = Scraper::new(query_plan(), simple_config());
    let (scraper, _) = scraper.step(Event::Start { now_ms: 0 });
    let (scraper, failed) = scraper.step(Event::ConnectFailed);
    assert!(matches!(failed, Action::Fail { .. }));
    let (_, again) = scraper.step(Event::Closed { now_ms: 9 });
    assert_eq!(again, Action::Fail { reason: FailureReason::Connect });
}

#[test]
fn close_failure_fails_the_scrape() {
    let scraper = Scraper::new(Vec::new(), simple_config());
    let (scraper, _) = scraper.step(Event::Start { now_ms: 0 });
    let (scraper, _) = scraper.step(Event::Connected);
    let (scraper, action) = scraper.step(Event::BindSucceeded);
    assert_eq!(action, Action::Close);
    let (scraper, action) = scraper.step(Event::CloseFailed);
    assert_eq!(action, Action::Fail { reason: FailureReason::Close });
    assert_eq!(scraper.state(), ScrapeState::Failed(FailureReason::Close));
}

#[test]
fn bind_is_external_without_a_name() {
    let scraper = Scraper::new(query_plan(), config(Some("ldapi:///"), None, Some("unused")));
    let (scraper, _) = scraper.step(Event::Start { now_ms: 0 });
    let (scraper, action) = scraper.step(Event::Connected);
    assert_eq!(action, Action::BindExternal);
    assert_eq!(scraper.state(), ScrapeState::Authenticating);
}

#[test]
fn bind_is_skipped_with_a_name_without_password() {
    let scraper = Scraper::new(query_plan(), config(Some("ldap://directory.test"), Some("cn=admin"), None));
    assert_eq!(scraper.auth(), AuthDecision::Skipped);
    let (scraper, _) = scraper.step(Event::Start { now_ms: 0 });
    let (scraper, action) = scraper.step(Event::Connected);
    assert_eq!(action, Action::Search { index: 0 });
    assert_eq!(scraper.state(), ScrapeState::Querying(0));
    let expected = format!(
        "{}{}{}{}{}{}ldap_scrape_duration_seconds 0.25000\n",
        STATISTICS, CONNECTIONS, TIME, WAITERS, THREADS, OPERATIONS
    );
    assert_eq!(
        run_scrape(config(Some("ldap://directory.test"), Some("cn=admin"), None), &[]),
        Ok(expected)
    );
}

#[test]
fn auth_follows_what_is_configured() {
    assert_eq!(
        decide_auth(&Some("cn=admin".to_string()), &Some("pw".to_string())),
        AuthDecision::Simple { bind_dn: "cn=admin".to_string(), password: "pw".to_string() }
    );
    assert_eq!(decide_auth(&Some("cn=admin".to_string()), &None), AuthDecision::Skipped);
    assert_eq!(decide_auth(&None, &Some("pw".to_string())), AuthDecision::External);
    assert_eq!(decide_auth(&None, &None), AuthDecision::External);
}

#[test]
fn scrape_without_an_address_gives_the_placeholder() {
    let scraper = Scraper::new(query_plan(), config(None, Some("cn=admin"), Some("pw")));
    let (scraper, action) = scraper.step(Event::Start { now_ms: 0 });
    assert_eq!(action, Action::Finish { body: "Unable to retrieve Metric".to_string() });
    assert_eq!(scraper.state(), ScrapeState::Done);
}

#[test]
fn event_out_of_turn_ends_the_scrape() {
    let scraper = Scraper::new(query_plan(), simple_config());
    let (scraper, action) = scraper.step(Event::Connected);
    assert_eq!(action, Action::Fail { reason: FailureReason::OutOfTurn });
    assert_eq!(scraper.state(), ScrapeState::Failed(FailureReason::OutOfTurn));

    let scraper = Scraper::new(query_plan(), simple_config());
    let (scraper, _) = scraper.step(Event::Start { now_ms: 0 });
    let (scraper, _) = scraper.step(Event::Connected);
    let (scraper, _) = scraper.step(Event::BindSucceeded);
    let (scraper, action) = scraper.step(Event::Closed { now_ms: 4 });
    assert_eq!(action, Action::Fail { reason: FailureReason::OutOfTurn });
    assert_eq!(scraper.state(), ScrapeState::Failed(FailureReason::OutOfTurn));
}

#[test]
fn finished_scrape_gives_its_text_again() {
    let scraper = Scraper::new(Vec::new(), simple_config());
    let (scraper, _) = scraper.step(Event::Start { now_ms: 10 });
    let (scraper, _) = scraper.step(Event::Connected);
    let (scraper, _) = scraper.step(Event::BindSucceeded);
    let (scraper, first) = scraper.step(Event::Closed { now_ms: 20 });
    let (scraper, second) = scraper.step(Event::QueryFailed);
    assert_eq!(first, Action::Finish { body: "ldap_scrape_duration_seconds 0.01000\n".to_string() });
    assert_eq!(first, second);
    assert_eq!(scraper.state(), ScrapeState::Done);
}

#[test]
fn label_mode_of_the_query_decides_the_lines() {
    let plan = vec![QueryDescriptor {
        base_dn: "cn=operations,cn=monitor".to_string(),
        scope: SearchScope::Subtree,
        filter: "objectclass=*".to_string(),
        attributes: vec!["monitorOpInitiated".to_string()],
        label_mode: true,
    }];
    let scraper = Scraper::new(plan, simple_config());
    let (scraper, _) = scraper.step(Event::Start { now_ms: 0 });
    let (scraper, _) = scraper.step(Event::Connected);
    let (scraper, _) = scraper.step(Event::BindSucceeded);
    let (scraper, action) = scraper.step(Event::QueryAnswered(directory("cn=operations,cn=monitor")));
    assert_eq!(action, Action::Close);
    let (_, action) = scraper.step(Event::Closed { now_ms: 0 });
    assert_eq!(action, Action::Finish { body: format!("{}ldap_scrape_duration_seconds 0.00000\n", OPERATIONS) });
}
