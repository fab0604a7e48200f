use bore::msg::TunnelError;
use bore::ports::PortAllocator;

#[test]
fn anonymous_leases_are_distinct_and_in_range() {
    let mut alloc = PortAllocator::new(7000, 7009);
    let mut got: Vec<u16> = Vec::new();
    for _ in 0..10 {
        let p = alloc.lease(0).expect("a free port remains");
        assert!((7000..=7009).contains(&p));
        assert!(!got.contains(&p), "a port was handed out twice");
        got.push(p);
    }
    assert_eq!(alloc.lease(0), Err(TunnelError::NoPortsAvailable));
}

#[test]
fn specific_port_leases_once_until_released() {
    let mut alloc = PortAllocator::new(8000, 8010);
    assert_eq!(alloc.lease(8005), Ok(8005));
    assert_eq!(alloc.lease(8005), Err(TunnelError::PortInUse));
    alloc.release(8005);
    assert_eq!(alloc.lease(8005), Ok(8005));
}

#[test]
fn out_of_range_request_is_rejected() {
    let mut alloc = PortAllocator::new(8000, 8010);
    assert_eq!(alloc.lease(79), Err(TunnelError::PortOutOfRange));
    assert_eq!(alloc.lease(9000), Err(TunnelError::PortOutOfRange));
    assert!(!alloc.is_leased(79));
}

#[test]
fn release_is_idempotent() {
    let mut alloc = PortAllocator::new(8000, 8000);
    assert_eq!(alloc.lease(8000), Ok(8000));
    alloc.release(8000);
    alloc.release(8000);
    assert_eq!(alloc.lease(0), Ok(8000));
}

#[test]
fn anonymous_lease_skips_taken_ports() {
    let mut alloc = PortAllocator::new(7000, 7002);
    assert_eq!(alloc.lease(7000), Ok(7000));
    assert_eq!(alloc.lease(0), Ok(7001));
    assert_eq!(alloc.lease(0), Ok(7002));
    assert_eq!(alloc.lease(0), Err(TunnelError::NoPortsAvailable));
    alloc.release(7001);
    assert_eq!(alloc.lease(0), Ok(7001));
}
