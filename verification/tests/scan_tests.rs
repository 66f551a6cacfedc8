use mdns_scanner::scan::{poll_step, scan_plan, select_services, PollStep, ScanError};
use mdns_scanner::{Service, ServiceDetect};

fn named(name: &str) -> Service {
    Service::new(
        String::from("10:00"),
        String::from("2024-May-01"),
        String::from(name),
        String::from("192.168.1.9"),
        80,
        String::from("host.local"),
    )
}

#[test]
fn plan_without_choice_scans_everything() {
    let plan = scan_plan(None);
    assert_eq!(plan.len(), ServiceDetect::length());
    assert_eq!(plan, ServiceDetect::to_iter().to_vec());
}

#[test]
fn plan_with_choice_scans_only_it() {
    assert_eq!(scan_plan(Some(ServiceDetect::Http)), vec![ServiceDetect::Http]);
    assert_eq!(scan_plan(Some(ServiceDetect::AirPlay)), vec![ServiceDetect::AirPlay]);
    assert_eq!(scan_plan(Some(ServiceDetect::Ssh)), vec![ServiceDetect::Ssh]);
}

#[test]
fn poll_decisions() {
    assert_eq!(poll_step(false, 0, 0), PollStep::Failed(ScanError::Poll));
    assert_eq!(poll_step(false, 100, 0), PollStep::Failed(ScanError::Poll));
    assert_eq!(poll_step(true, 0, 0), PollStep::Continue);
    assert_eq!(poll_step(true, 1, 0), PollStep::Finished);
    assert_eq!(poll_step(true, 5, 5), PollStep::Continue);
    assert_eq!(poll_step(true, 6, 5), PollStep::Finished);
}

#[test]
fn error_messages() {
    assert_eq!(ScanError::EventLoop.message(), "Unable to create event loop");
    assert_eq!(ScanError::Poll.message(), "Unable to poll");
}

#[test]
fn selection_keeps_poco_names_in_order() {
    let results = vec![
        named("EWS377APv3"),
        named("POCO X3 Pro"),
        named("HP LaserJet Pro MFP 3101-3108 [DA7C54]"),
        named("my pocophone"),
        named("PoCo-F5"),
        named("poc o"),
    ];
    let selected = select_services(&results);
    let names: Vec<String> = selected.iter().map(|s| s.name()).collect();
    assert_eq!(names, vec!["POCO X3 Pro", "my pocophone", "PoCo-F5"]);
    assert_eq!(selected[0].address(), "192.168.1.9");
    assert_eq!(selected[0].port(), 80);
    assert_eq!(selected[0].hostname(), "host.local");
    assert_eq!(selected[0].time(), "10:00");
    assert_eq!(selected[0].date(), "2024-May-01");
}

#[test]
fn selection_of_nothing() {
    assert!(select_services(&Vec::new()).is_empty());
    assert!(select_services(&vec![named("printer")]).is_empty());
}
