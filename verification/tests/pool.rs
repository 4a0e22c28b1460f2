use teepod::config::{PortMappingConfig, PortRange, Protocol};
use teepod::error::VmmError;
use teepod::pool::{PortClaim, ResourcePool};

#[test]
fn allocate_lowest_first() {
    let mut pool = ResourcePool::new(100, 2);
    assert_eq!(pool.allocate_cid(), Ok(100));
    assert_eq!(pool.allocate_cid(), Ok(101));
}

#[test]
fn allocate_exhausted() {
    let mut pool = ResourcePool::new(100, 2);
    assert_eq!(pool.allocate_cid(), Ok(100));
    assert_eq!(pool.allocate_cid(), Ok(101));
    assert_eq!(pool.allocate_cid(), Err(VmmError::ResourceExhausted));
}

#[test]
fn empty_pool_is_exhausted_at_once() {
    let mut pool = ResourcePool::new(7, 0);
    assert_eq!(pool.allocate_cid(), Err(VmmError::ResourceExhausted));
}

#[test]
fn released_cid_is_reallocated() {
    let mut pool = ResourcePool::new(100, 2);
    assert_eq!(pool.allocate_cid(), Ok(100));
    assert_eq!(pool.allocate_cid(), Ok(101));
    pool.release_cid(100);
    assert_eq!(pool.allocate_cid(), Ok(100));
}

#[test]
fn allocate_skips_claimed() {
    let mut pool = ResourcePool::new(10, 3);
    assert!(pool.claim_cid(10));
    assert!(pool.claim_cid(11));
    assert_eq!(pool.allocate_cid(), Ok(12));
}

#[test]
fn claim_cid_reports_duplicates() {
    let mut pool = ResourcePool::new(10, 3);
    assert!(pool.claim_cid(11));
    assert!(!pool.claim_cid(11));
}

#[test]
fn port_claim_conflict() {
    let mut pool = ResourcePool::new(0, 1);
    let p = PortClaim { protocol: Protocol::Tcp, port: 8080 };
    assert_eq!(pool.claim_port(p), Ok(()));
    assert_eq!(pool.claim_port(p), Err(VmmError::Conflict));
    let udp = PortClaim { protocol: Protocol::Udp, port: 8080 };
    assert_eq!(pool.claim_port(udp), Ok(()));
}

#[test]
fn released_port_is_claimable_again() {
    let mut pool = ResourcePool::new(0, 1);
    let p = PortClaim { protocol: Protocol::Tcp, port: 443 };
    assert_eq!(pool.claim_port(p), Ok(()));
    pool.release_port(p);
    assert_eq!(pool.claim_port(p), Ok(()));
}

#[test]
fn protocol_names() {
    assert_eq!(Protocol::Tcp.as_str(), "tcp");
    assert_eq!(Protocol::Udp.as_str(), "udp");
    assert_eq!(Protocol::from_str("tcp"), Ok(Protocol::Tcp));
    assert_eq!(Protocol::from_str("udp"), Ok(Protocol::Udp));
    assert_eq!(Protocol::from_str("icmp"), Err(VmmError::Validation));
    assert_eq!(Protocol::from_str(""), Err(VmmError::Validation));
}

#[test]
fn port_range_contains_bounds() {
    let r = PortRange { protocol: Protocol::Tcp, from: 8000, to: 9000 };
    assert!(r.contains("tcp", 8000));
    assert!(r.contains("tcp", 9000));
    assert!(r.contains("tcp", 8500));
    assert!(!r.contains("tcp", 7999));
    assert!(!r.contains("tcp", 9001));
    assert!(!r.contains("udp", 8500));
}

#[test]
fn is_allowed_respects_switch_and_ranges() {
    let ranges = vec![
        PortRange { protocol: Protocol::Tcp, from: 8000, to: 9000 },
        PortRange { protocol: Protocol::Udp, from: 53, to: 53 },
    ];
    let enabled = PortMappingConfig {
        enabled: true,
        address: String::from("127.0.0.1"),
        range: ranges.clone(),
    };
    assert!(enabled.is_allowed("tcp", 8080));
    assert!(enabled.is_allowed("udp", 53));
    assert!(!enabled.is_allowed("udp", 54));
    assert!(!enabled.is_allowed("tcp", 79));

    let disabled = PortMappingConfig {
        enabled: false,
        address: String::from("127.0.0.1"),
        range: ranges,
    };
    assert!(!disabled.is_allowed("tcp", 8080));
}
