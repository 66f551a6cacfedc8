use mdns_scanner::clock::LocalClock;
use mdns_scanner::{Discovery, Service};

fn sample() -> Service {
    Service::new(
        String::new(),
        String::new(),
        String::from("Test Service"),
        String::from("192.168.33.268"),
        8080,
        String::from("Test Hostname"),
    )
}

fn discovery() -> Discovery {
    Discovery {
        name: String::from("HP LaserJet Pro MFP 3101-3108 [DA7C54]"),
        address: String::from("10.20.20.50"),
        port: 631,
        host_name: String::from("NPIDA7C54.local"),
    }
}

fn clock(year: i32, month: u32, day: u32, hour: u32, minute: u32) -> LocalClock {
    LocalClock { year, month, day, hour, minute }
}

#[test]
fn getters_read_back_the_fields() {
    let service = sample();
    assert_eq!(service.name(), "Test Service");
    assert_eq!(service.address(), "192.168.33.268");
    assert_eq!(service.port(), 8080);
    assert_eq!(service.hostname(), "Test Hostname");
    assert_eq!(service.time(), "");
    assert_eq!(service.date(), "");
}

#[test]
fn as_string_describes_the_service() {
    assert_eq!(
        sample().as_string(),
        "Name: Test Service, Address: 192.168.33.268, Port: 8080, Protocol: Test Hostname"
    );
    let empty = Service::default();
    assert_eq!(empty.as_string(), "Name: , Address: , Port: 0, Protocol: ");
}

#[test]
fn default_is_empty() {
    let s = Service::default();
    assert_eq!(s.time(), "");
    assert_eq!(s.date(), "");
    assert_eq!(s.name(), "");
    assert_eq!(s.address(), "");
    assert_eq!(s.port(), 0);
    assert_eq!(s.hostname(), "");
}

#[test]
fn error_record_names_the_placeholder() {
    let err: Box<dyn std::error::Error> = "boom".into();
    let s = Service::error(err);
    assert_eq!(s.name(), "{err:#?}");
    assert_eq!(s.address(), "");
    assert_eq!(s.port(), 0);
    assert_eq!(s.hostname(), "");
    assert_eq!(s.time(), "");
    assert_eq!(s.date(), "");
}

#[test]
fn try_from_discovery_keeps_its_fields() {
    let s = Service::try_from(discovery()).unwrap();
    assert_eq!(s.name(), "HP LaserJet Pro MFP 3101-3108 [DA7C54]");
    assert_eq!(s.address(), "10.20.20.50");
    assert_eq!(s.port(), 631);
    assert_eq!(s.hostname(), "NPIDA7C54.local");
    assert_eq!(s.time(), "");
    assert_eq!(s.date(), "");
}

#[test]
fn discovered_stamps_time_and_date() {
    let s = Service::discovered(discovery(), &clock(2024, 1, 5, 9, 7)).unwrap();
    assert_eq!(s.time(), "09:07");
    assert_eq!(s.date(), "2024-Jan-05");
    assert_eq!(s.name(), "HP LaserJet Pro MFP 3101-3108 [DA7C54]");
    assert_eq!(s.port(), 631);
    let s = Service::discovered(discovery(), &clock(1999, 12, 31, 23, 59)).unwrap();
    assert_eq!(s.time(), "23:59");
    assert_eq!(s.date(), "1999-Dec-31");
}

#[test]
fn discovered_refuses_invalid_clock_readings() {
    assert!(Service::discovered(discovery(), &clock(2024, 1, 5, 24, 0)).is_none());
    assert!(Service::discovered(discovery(), &clock(2024, 1, 5, 0, 60)).is_none());
    assert!(Service::discovered(discovery(), &clock(2023, 2, 29, 12, 0)).is_none());
    assert!(Service::discovered(discovery(), &clock(2024, 13, 1, 12, 0)).is_none());
    assert!(Service::discovered(discovery(), &clock(2024, 4, 31, 12, 0)).is_none());
    assert!(Service::discovered(discovery(), &clock(2024, 0, 1, 12, 0)).is_none());
    assert!(Service::discovered(discovery(), &clock(2024, 1, 0, 12, 0)).is_none());
    assert!(Service::discovered(discovery(), &clock(1900, 2, 29, 12, 0)).is_none());
}

#[test]
fn discovered_date_years_and_leap_days() {
    let s = Service::discovered(discovery(), &clock(2024, 2, 29, 0, 0)).unwrap();
    assert_eq!(s.date(), "2024-Feb-29");
    assert_eq!(s.time(), "00:00");
    let s = Service::discovered(discovery(), &clock(2000, 2, 29, 0, 0)).unwrap();
    assert_eq!(s.date(), "2000-Feb-29");
    let s = Service::discovered(discovery(), &clock(5, 6, 1, 0, 0)).unwrap();
    assert_eq!(s.date(), "0005-Jun-01");
    let s = Service::discovered(discovery(), &clock(12345, 7, 4, 0, 0)).unwrap();
    assert_eq!(s.date(), "+12345-Jul-04");
    let s = Service::discovered(discovery(), &clock(-5, 8, 9, 0, 0)).unwrap();
    assert_eq!(s.date(), "-0005-Aug-09");
}

#[test]
fn db_row_lists_the_columns() {
    let s = Service::discovered(discovery(), &clock(2024, 3, 15, 18, 30)).unwrap();
    assert_eq!(
        s.db_row(),
        vec![
            String::from("18:30"),
            String::from("2024-Mar-15"),
            String::from("HP LaserJet Pro MFP 3101-3108 [DA7C54]"),
            String::from("10.20.20.50"),
            String::from("631"),
            String::from("NPIDA7C54.local"),
        ]
    );
}
