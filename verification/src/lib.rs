//! Scanning the local network for mDNS (DNS-SD) services: the service types
//! browsed for, the records kept of what was found, and the decisions of a scan.
pub mod service_detect;
pub mod text;
pub mod clock;
pub mod service;
pub mod scan;

pub use service_detect::ServiceDetect;
pub use service::{Discovery, Service};
