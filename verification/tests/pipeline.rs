use jamf_inventory::client::{Auth, Method, Reply};
use jamf_inventory::model::{Credentials, DeviceDetail, DeviceRecord, Report, ReportError};
use jamf_inventory::machine::{Action, Slot, MAX_IN_FLIGHT};
use jamf_inventory::pipeline::{assemble_report, Pipeline};

fn detail(id: u64, os_version: &str) -> DeviceDetail {
    DeviceDetail {
        id,
        name: format!("device {}", id),
        model: String::from("MacBook Pro (14-inch, 2021)"),
        os_name: String::from("macOS"),
        os_version: String::from(os_version),
    }
}

fn record(id: u64, os_version: &str, os_is_latest: bool) -> DeviceRecord {
    DeviceRecord {
        device_id: id,
        name: format!("device {}", id),
        model: String::from("MacBook Pro (14-inch, 2021)"),
        os: format!("macOS {}", os_version),
        os_is_latest,
    }
}

fn found(id: u64, os_version: &str) -> Reply<DeviceDetail> {
    Reply::Answered { status: 200, payload: Some(detail(id, os_version)) }
}

fn gone() -> Reply<DeviceDetail> {
    Reply::Answered { status: 404, payload: None }
}

fn catalog(entries: &[&str]) -> Reply<Vec<String>> {
    Reply::Answered { status: 200, payload: Some(entries.iter().map(|s| String::from(*s)).collect()) }
}

fn ids(list: &[u64]) -> Reply<Vec<u64>> {
    Reply::Answered { status: 200, payload: Some(list.to_vec()) }
}

/// Brings a fresh run to the point where the details are fetched.
fn fetching(versions: &[&str], list: &[u64]) -> Pipeline {
    let mut p = Pipeline::new();
    assert_eq!(p.next_action(), Action::RequestToken);
    assert!(p.token_answered(Reply::Answered { status: 200, payload: Some(String::from("tok")) }));
    assert_eq!(p.next_action(), Action::RequestCatalog { token: String::from("tok") });
    assert!(p.catalog_answered(catalog(versions)));
    assert_eq!(p.next_action(), Action::RequestDeviceIds);
    assert!(p.device_ids_answered(ids(list)));
    p
}

/// Starts every call that the run hands out and returns the positions.
fn start_all(p: &mut Pipeline, list: &[u64]) -> Vec<usize> {
    let mut started = Vec::new();
    loop {
        match p.next_action() {
            Action::RequestDetail { position, id } => {
                assert_eq!(id, list[position]);
                started.push(position);
            }
            _ => return started,
        }
    }
}

#[test]
fn a_run_starts_with_the_token_exchange() {
    let mut p = Pipeline::new();
    assert!(!p.is_finished());
    assert_eq!(p.outcome(), None);
    assert_eq!(p.in_flight(), 0);
    assert_eq!(p.next_action(), Action::RequestToken);
    assert_eq!(p.next_action(), Action::Wait);
    assert_eq!(p.next_action(), Action::Wait);
}

#[test]
fn the_catalog_is_fetched_once_before_the_list() {
    let mut p = Pipeline::new();
    assert_eq!(p.next_action(), Action::RequestToken);
    assert!(p.token_answered(Reply::Answered { status: 200, payload: Some(String::from("tok")) }));
    assert_eq!(p.next_action(), Action::RequestCatalog { token: String::from("tok") });
    assert_eq!(p.next_action(), Action::Wait);
    assert!(p.catalog_answered(catalog(&["12.6.0"])));
    assert!(!p.lacks_baseline());
    assert_eq!(p.next_action(), Action::RequestDeviceIds);
    assert_eq!(p.next_action(), Action::Wait);
    assert!(p.device_ids_answered(ids(&[9])));
    assert_eq!(p.next_action(), Action::RequestDetail { position: 0, id: 9 });
    assert_eq!(p.next_action(), Action::Wait);
}

#[test]
fn answers_that_are_not_due_change_nothing() {
    let mut p = Pipeline::new();
    assert!(!p.token_answered(Reply::Unreachable));
    assert!(!p.catalog_answered(Reply::Unreachable));
    assert!(!p.device_ids_answered(Reply::Unreachable));
    assert!(!p.detail_answered(0, Reply::Unreachable));
    assert_eq!(p.outcome(), None);
    assert_eq!(p.next_action(), Action::RequestToken);
    assert!(!p.catalog_answered(Reply::Unreachable));
    assert!(!p.device_ids_answered(Reply::Unreachable));
    assert_eq!(p.next_action(), Action::Wait);
    assert_eq!(p.outcome(), None);
}

#[test]
fn report_follows_the_list_not_the_arrivals() {
    let list = [30, 10, 20, 40];
    let mut p = fetching(&["12.6.0"], &list);
    assert_eq!(start_all(&mut p, &list), vec![0, 1, 2, 3]);
    assert!(p.detail_answered(2, found(20, "12.6.0")));
    assert!(p.detail_answered(3, found(40, "12.5.0")));
    assert!(!p.is_finished());
    assert!(p.detail_answered(0, found(30, "12.6.0")));
    assert!(p.detail_answered(1, found(10, "11.7")));
    assert_eq!(p.next_action(), Action::Finish);
    let expected = Report {
        devices: vec![
            record(30, "12.6.0", true),
            record(10, "11.7", false),
            record(20, "12.6.0", true),
            record(40, "12.5.0", false),
        ],
    };
    assert_eq!(p.outcome(), Some(Ok(expected)));
}

#[test]
fn every_arrival_order_gives_the_same_report() {
    let list = [5, 6, 7];
    let orders = [[0, 1, 2], [0, 2, 1], [1, 0, 2], [1, 2, 0], [2, 0, 1], [2, 1, 0]];
    let expected = Report {
        devices: vec![record(5, "1", false), record(6, "2", true), record(7, "3", false)],
    };
    for order in orders {
        let mut p = fetching(&["2"], &list);
        start_all(&mut p, &list);
        for position in order {
            let version = format!("{}", position + 1);
            assert!(p.detail_answered(position, found(list[position], &version)));
        }
        assert_eq!(p.outcome(), Some(Ok(expected.clone())));
    }
}

#[test]
fn a_report_has_one_record_per_identifier() {
    let list: Vec<u64> = (100..137).collect();
    let mut p = fetching(&["12.6.0"], &list);
    let mut waiting: Vec<usize> = Vec::new();
    loop {
        waiting.extend(start_all(&mut p, &list));
        if waiting.is_empty() {
            break;
        }
        let position = waiting.remove(waiting.len() / 2);
        assert!(p.detail_answered(position, found(list[position], "12.6.0")));
    }
    match p.outcome() {
        Some(Ok(report)) => {
            let reported: Vec<u64> = report.devices.iter().map(|r| r.device_id).collect();
            assert_eq!(reported, list);
        }
        _ => panic!("the run has no report"),
    }
}

#[test]
fn at_most_five_detail_calls_are_under_way() {
    assert_eq!(MAX_IN_FLIGHT, 5);
    let list: Vec<u64> = (1..=23).collect();
    let mut p = fetching(&["12.6.0"], &list);
    let mut under_way: Vec<usize> = Vec::new();
    let mut most = 0;
    let mut round = 0;
    loop {
        under_way.extend(start_all(&mut p, &list));
        assert!(under_way.len() <= 5);
        assert_eq!(p.in_flight(), under_way.len());
        most = most.max(under_way.len());
        if under_way.is_empty() {
            break;
        }
        assert_eq!(p.next_action(), Action::Wait);
        round += 1;
        let position = under_way.remove((round * 3) % under_way.len());
        assert!(p.detail_answered(position, found(list[position], "12.6.0")));
        assert_eq!(p.in_flight(), under_way.len());
    }
    assert_eq!(most, 5);
    assert!(p.is_finished());
    assert_eq!(p.next_action(), Action::Finish);
}

#[test]
fn the_first_calls_fill_the_five_places() {
    let list: Vec<u64> = (1..=20).collect();
    let mut p = fetching(&["12.6.0"], &list);
    assert_eq!(start_all(&mut p, &list), vec![0, 1, 2, 3, 4]);
    assert_eq!(p.next_action(), Action::Wait);
    assert!(p.detail_answered(3, found(4, "12.6.0")));
    assert_eq!(p.next_action(), Action::RequestDetail { position: 5, id: 6 });
    assert_eq!(p.next_action(), Action::Wait);
}

#[test]
fn a_short_list_leaves_places_free() {
    let list = [8, 9];
    let mut p = fetching(&["12.6.0"], &list);
    assert_eq!(start_all(&mut p, &list), vec![0, 1]);
    assert_eq!(p.in_flight(), 2);
    assert_eq!(p.next_action(), Action::Wait);
}

#[test]
fn an_empty_list_gives_an_empty_report() {
    let mut p = fetching(&["12.6.0"], &[]);
    assert_eq!(p.next_action(), Action::Finish);
    assert!(p.is_finished());
    assert_eq!(p.outcome(), Some(Ok(Report { devices: vec![] })));
}

#[test]
fn end_to_end_with_a_device_that_is_gone() {
    let list = [1, 2, 3];
    let mut p = fetching(&["12.6.0"], &list);
    assert_eq!(start_all(&mut p, &list), vec![0, 1, 2]);
    assert!(p.detail_answered(2, gone()));
    assert!(p.detail_answered(0, found(1, "12.6.0")));
    assert!(p.detail_answered(1, found(2, "12.5.0")));
    assert_eq!(p.next_action(), Action::Finish);
    let expected =
        Report { devices: vec![record(1, "12.6.0", true), record(2, "12.5.0", false)] };
    assert_eq!(p.outcome(), Some(Ok(expected)));
    assert_eq!(p.skipped(), vec![(3, ReportError::NotFound)]);
}

#[test]
fn every_failed_detail_is_skipped_alike() {
    let list = [1, 2, 3, 4, 5];
    let mut p = fetching(&["12.6.0"], &list);
    start_all(&mut p, &list);
    assert!(p.detail_answered(0, Reply::Unreachable));
    assert!(p.detail_answered(1, Reply::Answered { status: 200, payload: None }));
    assert!(p.detail_answered(2, gone()));
    assert!(p.detail_answered(3, found(5, "12.6.0")));
    assert!(p.detail_answered(4, found(5, "12.6.0")));
    assert_eq!(p.outcome(), Some(Ok(Report { devices: vec![record(5, "12.6.0", true)] })));
    assert_eq!(
        p.skipped(),
        vec![
            (1, ReportError::Fetch),
            (2, ReportError::Decode),
            (3, ReportError::NotFound),
            (4, ReportError::Decode),
        ]
    );
}

#[test]
fn an_answer_counts_once() {
    let list = [1, 2];
    let mut p = fetching(&["12.6.0"], &list);
    assert!(!p.detail_answered(0, found(1, "12.6.0")));
    start_all(&mut p, &list);
    assert!(!p.detail_answered(2, found(1, "12.6.0")));
    assert!(p.detail_answered(0, found(1, "12.6.0")));
    assert!(!p.detail_answered(0, found(1, "12.5.0")));
    assert_eq!(p.in_flight(), 1);
    assert!(p.detail_answered(1, found(2, "12.6.0")));
    let expected = Report { devices: vec![record(1, "12.6.0", true), record(2, "12.6.0", true)] };
    assert_eq!(p.outcome(), Some(Ok(expected)));
}

#[test]
fn a_refused_token_exchange_ends_the_run() {
    let mut p = Pipeline::new();
    assert_eq!(p.next_action(), Action::RequestToken);
    assert!(p.token_answered(Reply::Answered { status: 401, payload: None }));
    assert!(p.is_finished());
    assert_eq!(p.outcome(), Some(Err(ReportError::Auth)));
    for _ in 0..10 {
        assert_eq!(p.next_action(), Action::Finish);
    }
    assert!(!p.catalog_answered(catalog(&["12.6.0"])));
    assert!(!p.device_ids_answered(ids(&[1, 2, 3])));
    assert!(!p.detail_answered(0, found(1, "12.6.0")));
    assert_eq!(p.next_action(), Action::Finish);
    assert_eq!(p.outcome(), Some(Err(ReportError::Auth)));
    assert_eq!(p.in_flight(), 0);
}

#[test]
fn a_failed_catalog_call_ends_the_run() {
    for (reply, error) in [
        (Reply::Unreachable, ReportError::Fetch),
        (Reply::Answered { status: 200, payload: None }, ReportError::Decode),
    ] {
        let mut p = Pipeline::new();
        p.next_action();
        assert!(p.token_answered(Reply::Answered { status: 200, payload: Some(String::from("t")) }));
        p.next_action();
        assert!(p.catalog_answered(reply));
        assert_eq!(p.next_action(), Action::Finish);
        assert_eq!(p.outcome(), Some(Err(error)));
        assert!(!p.lacks_baseline());
    }
}

#[test]
fn a_failed_list_call_ends_the_run() {
    for (reply, error) in [
        (Reply::Unreachable, ReportError::Fetch),
        (Reply::Answered { status: 200, payload: None }, ReportError::Decode),
    ] {
        let mut p = Pipeline::new();
        p.next_action();
        assert!(p.token_answered(Reply::Answered { status: 200, payload: Some(String::from("t")) }));
        p.next_action();
        assert!(p.catalog_answered(catalog(&["12.6.0"])));
        p.next_action();
        assert!(p.device_ids_answered(reply));
        assert_eq!(p.next_action(), Action::Finish);
        assert_eq!(p.outcome(), Some(Err(error)));
    }
}

#[test]
fn an_unreachable_token_endpoint_ends_the_run() {
    let mut p = Pipeline::new();
    p.next_action();
    assert!(p.token_answered(Reply::Unreachable));
    assert_eq!(p.outcome(), Some(Err(ReportError::Fetch)));
}

#[test]
fn an_empty_catalog_flags_no_device() {
    let list = [1, 2];
    let mut p = fetching(&[], &list);
    assert!(p.lacks_baseline());
    start_all(&mut p, &list);
    assert!(p.detail_answered(0, found(1, "12.6.0")));
    assert!(p.detail_answered(1, found(2, "")));
    let expected = Report { devices: vec![record(1, "12.6.0", false), record(2, "", false)] };
    assert_eq!(p.outcome(), Some(Ok(expected)));
}

#[test]
fn the_baseline_is_the_first_entry_of_an_unsorted_catalog() {
    let list = [1, 2];
    let mut p = fetching(&["12.6.1", "13.0.1"], &list);
    start_all(&mut p, &list);
    assert!(p.detail_answered(0, found(1, "13.0.1")));
    assert!(p.detail_answered(1, found(2, "12.6.1")));
    let expected =
        Report { devices: vec![record(1, "13.0.1", false), record(2, "12.6.1", true)] };
    assert_eq!(p.outcome(), Some(Ok(expected)));
}

#[test]
fn assembling_leaves_out_what_has_not_arrived() {
    let slots = vec![
        Slot::Fetched(detail(1, "12.6.0")),
        Slot::Skipped(ReportError::NotFound),
        Slot::Waiting,
        Slot::InFlight,
        Slot::Fetched(detail(5, "12.5.0")),
    ];
    let report = assemble_report(&slots, &Some(String::from("12.5.0")));
    assert_eq!(
        report,
        Report { devices: vec![record(1, "12.6.0", false), record(5, "12.5.0", true)] }
    );
    assert_eq!(assemble_report(&vec![], &None), Report { devices: vec![] });
}

#[test]
fn actions_turn_into_requests() {
    let c = Credentials {
        username: String::from("u"),
        secret: String::from("s"),
        base: Some(String::from("http://backend")),
    };
    let basic = Auth::Basic { username: String::from("u"), secret: String::from("s") };
    let r = Action::RequestToken.request(&c).unwrap();
    assert_eq!((r.method, r.url.as_str(), r.auth), (Method::Post, "http://backend/api/v1/auth/token", basic.clone()));
    let r = Action::RequestCatalog { token: String::from("tok") }.request(&c).unwrap();
    assert_eq!(r.method, Method::Get);
    assert_eq!(r.url, "http://backend/api/v1/macos-managed-software-updates/available-updates");
    assert_eq!(r.auth, Auth::Bearer { token: String::from("tok") });
    let r = Action::RequestDeviceIds.request(&c).unwrap();
    assert_eq!((r.method, r.url.as_str(), r.auth), (Method::Get, "http://backend/JSSResource/computers", basic.clone()));
    let r = Action::RequestDetail { position: 3, id: 77 }.request(&c).unwrap();
    assert_eq!((r.method, r.url.as_str(), r.auth), (Method::Get, "http://backend/JSSResource/computers/id/77", basic));
    assert_eq!(Action::Wait.request(&c), None);
    assert_eq!(Action::Finish.request(&c), None);
}
