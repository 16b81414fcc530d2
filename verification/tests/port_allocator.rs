use ownserver::port_allocator::{PortAllocator, PortAllocatorError};
use ownserver::protocol::{EndpointClaim, Protocol};
use rand::rngs::StdRng;
use rand::SeedableRng;
use std::collections::{HashMap, HashSet};

fn claim(protocol: Protocol, local_port: u16, remote_port: u16) -> EndpointClaim {
    EndpointClaim { protocol, local_port, remote_port }
}

#[test]
fn port_allocator_allocate_port_at_random() {
    let mut rng = StdRng::from_entropy();
    let mut alloc = PortAllocator::new(1000..2000);
    let port = alloc.allocate_port(&mut rng).unwrap();
    assert!((1000..2000).contains(&port));

    let mut alloc = PortAllocator::new(1000..=2000);
    let port = alloc.allocate_port(&mut rng).unwrap();
    assert!(1000 <= port && port <= 2000);
}

#[test]
fn port_allocator_delete_port_from_table() {
    let mut rng = StdRng::from_entropy();
    let mut alloc = PortAllocator::new(1000..2000);
    assert_eq!(alloc.available_len(), 1000);
    let _ = alloc.allocate_port(&mut rng).unwrap();
    assert_eq!(alloc.available_len(), 999);
}

#[test]
fn port_allocator_return_error_when_no_available_port() {
    let mut rng = StdRng::from_entropy();
    let mut alloc = PortAllocator::new(1000..1010);
    assert_eq!(alloc.available_len(), 10);

    for _ in 0..10 {
        let _ = alloc.allocate_port(&mut rng).unwrap();
    }
    assert_eq!(alloc.available_len(), 0);

    let port = alloc.allocate_port(&mut rng);
    assert_eq!(port.err().unwrap(), PortAllocatorError::AllocationFailed);

    let mut alloc = PortAllocator::new(1000..1001);
    let claims = vec![claim(Protocol::TCP, 1001, 0), claim(Protocol::TCP, 1002, 0)];
    let endpoints = alloc.allocate_ports(&mut rng, claims);
    assert_eq!(endpoints.err().unwrap(), PortAllocatorError::AllocationFailed);
}

#[test]
fn port_allocator_return_error_when_port_out_of_range() {
    let mut alloc = PortAllocator::new(1000..2000);
    let port = alloc.release_port(5000);
    assert_eq!(port.err().unwrap(), PortAllocatorError::PortOutOfRange);

    let mut alloc = PortAllocator::new(1000..=2000);
    let port = alloc.release_port(5000);
    assert_eq!(port.err().unwrap(), PortAllocatorError::PortOutOfRange);
}

#[test]
fn port_allocator_return_error_when_port_not_allocated() {
    let mut alloc = PortAllocator::new(1000..2000);
    let port = alloc.release_port(1010);
    assert_eq!(port.err().unwrap(), PortAllocatorError::PortAlreadyReleased);

    let mut alloc = PortAllocator::new(1000..=2000);
    let port = alloc.release_port(1010);
    assert_eq!(port.err().unwrap(), PortAllocatorError::PortAlreadyReleased);
}

#[test]
fn port_allocator_release_port_to_port_table() {
    let mut rng = StdRng::from_entropy();
    let mut alloc = PortAllocator::new(1000..2000);
    assert_eq!(alloc.available_len(), 1000);

    let port = alloc.allocate_port(&mut rng).unwrap();
    assert_eq!(alloc.available_len(), 999);

    alloc.release_port(port).unwrap();
    assert_eq!(alloc.available_len(), 1000);
}

#[test]
fn returns_hashmap_when_local_port_is_unique() {
    let alloc = PortAllocator::new(1000..2000);
    let claims = vec![
        claim(Protocol::TCP, 1000, 0),
        claim(Protocol::TCP, 1001, 0),
        claim(Protocol::UDP, 1002, 0),
    ];
    let mut expected = HashMap::new();
    expected.insert(1001, vec![claim(Protocol::TCP, 1001, 0)]);
    expected.insert(1002, vec![claim(Protocol::UDP, 1002, 0)]);
    expected.insert(1000, vec![claim(Protocol::TCP, 1000, 0)]);

    let aggregated_claims: HashMap<u16, Vec<EndpointClaim>> =
        alloc.aggregate_claims_by_local_port(claims);

    assert_eq!(aggregated_claims, expected);
}

#[test]
fn returns_aggregated_hashmap_when_local_port_is_overlaped() {
    let alloc = PortAllocator::new(1000..2000);
    let claims = vec![claim(Protocol::TCP, 1000, 0), claim(Protocol::UDP, 1000, 0)];
    let mut expected = HashMap::new();
    expected.insert(1000, vec![claim(Protocol::TCP, 1000, 0), claim(Protocol::UDP, 1000, 0)]);

    let aggregated_claims: HashMap<u16, Vec<EndpointClaim>> =
        alloc.aggregate_claims_by_local_port(claims);

    assert_eq!(aggregated_claims, expected);
}

#[test]
fn keeps_duplicated_claim() {
    let alloc = PortAllocator::new(1000..2000);
    let claims = vec![
        claim(Protocol::TCP, 1000, 0),
        claim(Protocol::TCP, 1000, 0),
        claim(Protocol::TCP, 1000, 0),
    ];
    let mut expected = HashMap::new();
    expected.insert(
        1000,
        vec![
            claim(Protocol::TCP, 1000, 0),
            claim(Protocol::TCP, 1000, 0),
            claim(Protocol::TCP, 1000, 0),
        ],
    );

    let aggregated_claims: HashMap<u16, Vec<EndpointClaim>> =
        alloc.aggregate_claims_by_local_port(claims);

    assert_eq!(aggregated_claims, expected);
}

#[test]
fn return_error_when_local_port_is_not_unique() {
    let alloc = PortAllocator::new(1000..2000);
    let claims = vec![claim(Protocol::TCP, 1000, 0), claim(Protocol::TCP, 1000, 0)];
    let aggregated_claims = alloc.aggregate_claims_by_local_port(claims);

    let result = alloc.validate_endpoint_claims(&aggregated_claims);
    assert_eq!(result.err().unwrap(), PortAllocatorError::AllocationFailed);
}

#[test]
fn return_error_when_remote_port_is_not_zero() {
    let alloc = PortAllocator::new(1000..2000);
    let claims = vec![claim(Protocol::TCP, 1000, 0), claim(Protocol::TCP, 1001, 1)];
    let aggregated_claims = alloc.aggregate_claims_by_local_port(claims);

    let result = alloc.validate_endpoint_claims(&aggregated_claims);
    assert_eq!(result.err().unwrap(), PortAllocatorError::AllocationFailed);
}

#[test]
fn return_error_when_ports_are_out_of_stock() {
    let alloc = PortAllocator::new(1000..1001);
    let claims = vec![claim(Protocol::TCP, 1000, 0), claim(Protocol::TCP, 1001, 0)];
    let aggregated_claims = alloc.aggregate_claims_by_local_port(claims);

    let result = alloc.validate_endpoint_claims(&aggregated_claims);
    assert_eq!(result.err().unwrap(), PortAllocatorError::AllocationFailed);
}

#[test]
fn return_ok_when_valid() {
    let alloc = PortAllocator::new(1000..2000);
    let claims = vec![claim(Protocol::TCP, 1000, 0), claim(Protocol::TCP, 1001, 0)];
    let aggregated_claims = alloc.aggregate_claims_by_local_port(claims);

    let result = alloc.validate_endpoint_claims(&aggregated_claims);
    assert!(result.is_ok());
}

#[test]
fn return_ok_when_local_port_and_protocol_is_unique() {
    let alloc = PortAllocator::new(1000..2000);
    let claims = vec![claim(Protocol::TCP, 1000, 0), claim(Protocol::UDP, 1000, 0)];
    let aggregated_claims = alloc.aggregate_claims_by_local_port(claims);

    let result = alloc.validate_endpoint_claims(&aggregated_claims);
    assert!(result.is_ok());
}

#[test]
fn allocate_ports() -> Result<(), PortAllocatorError> {
    let mut rng = StdRng::from_entropy();
    let mut alloc = PortAllocator::new(1000..1002);

    let claims = vec![claim(Protocol::TCP, 1001, 0), claim(Protocol::TCP, 1002, 0)];

    let mut endpoints = alloc.allocate_ports(&mut rng, claims)?;
    endpoints.sort_by_key(|e| e.local_port);

    assert_eq!(endpoints.len(), 2);
    assert_eq!(endpoints[0].local_port, 1001);
    assert!((1000..2000).contains(&endpoints[0].remote_port));
    assert_eq!(endpoints[1].local_port, 1002);
    assert!((1000..2000).contains(&endpoints[1].remote_port));

    Ok(())
}

#[test]
fn allocate_ports_for_duplicated_local_port() -> Result<(), PortAllocatorError> {
    let mut rng = StdRng::from_entropy();
    let mut alloc = PortAllocator::new(1000..1001);

    let claims = vec![claim(Protocol::TCP, 1001, 0), claim(Protocol::UDP, 1001, 0)];

    let mut endpoints = alloc.allocate_ports(&mut rng, claims)?;
    endpoints.sort_by_key(|e| e.local_port);

    assert_eq!(endpoints.len(), 2);
    assert_eq!(endpoints[0].local_port, 1001);
    assert!((1000..2000).contains(&endpoints[0].remote_port));
    assert_eq!(endpoints[1].local_port, 1001);
    assert!((1000..2000).contains(&endpoints[1].remote_port));

    Ok(())
}

#[test]
fn delete_ports_from_table() -> Result<(), PortAllocatorError> {
    let mut rng = StdRng::from_entropy();
    let mut alloc = PortAllocator::new(1000..2000);

    let claims = vec![claim(Protocol::TCP, 1001, 0), claim(Protocol::TCP, 1002, 0)];

    assert_eq!(alloc.available_len(), 1000);
    let _ = alloc.allocate_ports(&mut rng, claims)?;
    assert_eq!(alloc.available_len(), 998);

    Ok(())
}

#[test]
fn return_error_when_no_available_port_duplicated_local_port() {
    let mut rng = StdRng::from_entropy();
    let mut alloc = PortAllocator::new(1000..1001);

    let claims = vec![
        claim(Protocol::TCP, 1001, 0),
        claim(Protocol::TCP, 1002, 0),
        claim(Protocol::UDP, 1002, 0),
    ];

    let endpoints = alloc.allocate_ports(&mut rng, claims);
    assert_eq!(endpoints.err().unwrap(), PortAllocatorError::AllocationFailed);
}

#[test]
fn default_pool_spans_ten_thousand_ports() {
    let mut rng = StdRng::from_entropy();
    let mut alloc: PortAllocator = PortAllocator::default();
    assert_eq!(alloc.available_len(), 10000);
    let port = alloc.allocate_port(&mut rng).unwrap();
    assert!((10000..20000).contains(&port));
    assert_eq!(alloc.release_port(9999), Err(PortAllocatorError::PortOutOfRange));
    assert_eq!(alloc.release_port(20000), Err(PortAllocatorError::PortOutOfRange));
    assert_eq!(alloc.release_port(port), Ok(()));
}

#[test]
fn inclusive_range_has_its_last_port() {
    let mut alloc = PortAllocator::new(65534..=65535);
    assert_eq!(alloc.available_len(), 2);
    assert_eq!(alloc.take_port(Some(65535)), Ok(65535));
    assert_eq!(alloc.release_port(65535), Ok(()));
    assert_eq!(alloc.available_len(), 2);
}

#[test]
fn empty_range_has_no_port() {
    let mut rng = StdRng::from_entropy();
    let mut alloc = PortAllocator::new(5..5);
    assert_eq!(alloc.available_len(), 0);
    assert_eq!(alloc.allocate_port(&mut rng), Err(PortAllocatorError::AllocationFailed));
    assert_eq!(alloc.take_port(None), Err(PortAllocatorError::AllocationFailed));
    assert_eq!(alloc.allocate_ports(&mut rng, vec![]), Ok(vec![]));
}

#[test]
fn failed_allocation_changes_nothing() {
    let mut rng = StdRng::from_entropy();
    let mut alloc = PortAllocator::new(1000..1003);
    let claims = vec![claim(Protocol::TCP, 1, 0), claim(Protocol::TCP, 1, 0)];
    assert!(alloc.allocate_ports(&mut rng, claims).is_err());
    assert_eq!(alloc.available_len(), 3);
}

#[test]
fn chosen_ports_never_repeat_and_cover_the_range() {
    let mut rng = StdRng::seed_from_u64(7);
    let mut alloc = PortAllocator::new(2000..2050);
    let mut seen = HashSet::new();
    for _ in 0..50 {
        assert!(seen.insert(alloc.allocate_port(&mut rng).unwrap()));
    }
    assert_eq!(seen, (2000..2050).collect::<HashSet<u16>>());
    for p in 2000..2050 {
        assert_eq!(alloc.release_port(p), Ok(()));
        assert_eq!(alloc.release_port(p), Err(PortAllocatorError::PortAlreadyReleased));
    }
    assert_eq!(alloc.available_len(), 50);
}

#[test]
fn endpoints_share_a_remote_port_exactly_when_they_share_a_local_one() {
    let mut rng = StdRng::seed_from_u64(1);
    let mut alloc = PortAllocator::new(3000..3010);
    let claims = vec![
        claim(Protocol::UDP, 80, 0),
        claim(Protocol::TCP, 80, 0),
        claim(Protocol::TCP, 81, 0),
        claim(Protocol::UDP, 82, 0),
    ];
    let endpoints = alloc.allocate_ports(&mut rng, claims).unwrap();
    assert_eq!(endpoints.len(), 4);
    assert_eq!(alloc.available_len(), 7);
    for a in &endpoints {
        for b in &endpoints {
            assert_eq!(a.local_port == b.local_port, a.remote_port == b.remote_port);
        }
    }
    let other = alloc.allocate_ports(&mut rng, vec![claim(Protocol::TCP, 80, 0)]).unwrap();
    assert!(endpoints.iter().all(|e| e.remote_port != other[0].remote_port));
}

#[test]
fn allocator_errors_in_words() {
    assert_eq!(
        PortAllocatorError::AllocationFailed.to_string(),
        "Port allocation failed because there is no available port."
    );
    assert_eq!(
        PortAllocatorError::PortOutOfRange.to_string(),
        "Try to release port that is out of range."
    );
    assert_eq!(
        PortAllocatorError::PortAlreadyReleased.to_string(),
        "Try to release port that is already exist in available port table."
    );
}
