//! Runtime checks for the port pointer cache and collection resolution.

use atomspace::port_collection::{
    AudioPort, ConnectedBuffer, InputPort, PortCollection, PortPointerCache,
};

type StereoInput = (InputPort<AudioPort>, InputPort<AudioPort>);

#[test]
fn cache_starts_unconnected_and_keeps_last_write() {
    let mut cache = PortPointerCache::new(2);
    assert_eq!(cache.port_count(), 2);
    assert_eq!(cache.connection(0), 0);
    assert_eq!(cache.connection(1), 0);
    // Out-of-order arrival, then a rebind: the last write wins.
    cache.connect_port(1, 0x2000);
    cache.connect_port(0, 0x1000);
    cache.connect_port(1, 0x3000);
    assert_eq!(cache.connection(0), 0x1000);
    assert_eq!(cache.connection(1), 0x3000);
}

#[test]
fn cache_ignores_undeclared_port_index() {
    let mut cache = PortPointerCache::new(1);
    cache.connect_port(5, 0x4000);
    assert_eq!(cache.port_count(), 1);
    assert_eq!(cache.connection(0), 0);
    assert_eq!(cache.connection(5), 0);
}

#[test]
fn missing_required_port_blocks_resolution() {
    let mut cache = PortPointerCache::new(2);
    cache.connect_port(0, 0x1000);
    // Port 1 stays null: however many others are populated, resolution of a
    // collection that requires it yields nothing.
    let connections = (cache.connection(0), cache.connection(1));
    let resolved: Option<StereoInput> = PortCollection::from_connections(&connections, 64);
    assert!(resolved.is_none());
}

#[test]
fn fully_connected_collection_resolves() {
    let mut cache = PortPointerCache::new(2);
    cache.connect_port(1, 0x2000);
    cache.connect_port(0, 0x1000);
    let connections = (cache.connection(0), cache.connection(1));
    let resolved: StereoInput = PortCollection::from_connections(&connections, 128).unwrap();
    assert_eq!(
        *resolved.0.port(),
        ConnectedBuffer { address: 0x1000, sample_count: 128 }
    );
    assert_eq!(
        *resolved.1.port(),
        ConnectedBuffer { address: 0x2000, sample_count: 128 }
    );
}

#[test]
fn resolution_is_idempotent_on_the_same_cache() {
    let mut cache = PortPointerCache::new(2);
    cache.connect_port(0, 0xA000);
    cache.connect_port(1, 0xB000);
    let connections = (cache.connection(0), cache.connection(1));
    let first: StereoInput = PortCollection::from_connections(&connections, 32).unwrap();
    let second: StereoInput = PortCollection::from_connections(&connections, 32).unwrap();
    assert_eq!(first.0.port(), second.0.port());
    assert_eq!(first.1.port(), second.1.port());
}

#[test]
fn optional_port_tolerates_null() {
    // A null connection on an optional port is present-but-absent, not a
    // failure.
    let resolved: Option<Option<InputPort<AudioPort>>> =
        PortCollection::from_connections(&0u64, 16);
    let inner = resolved.expect("optional resolution itself never fails");
    assert!(inner.is_none());

    let resolved: Option<Option<InputPort<AudioPort>>> =
        PortCollection::from_connections(&0x5000u64, 16);
    let inner = resolved.unwrap().unwrap();
    assert_eq!(
        *inner.port(),
        ConnectedBuffer { address: 0x5000, sample_count: 16 }
    );
}

#[test]
fn connection_order_does_not_change_resolution() {
    let mut forward = PortPointerCache::new(2);
    forward.connect_port(0, 0x1000);
    forward.connect_port(1, 0x2000);
    let mut backward = PortPointerCache::new(2);
    backward.connect_port(1, 0x2000);
    backward.connect_port(0, 0x1000);
    let a: StereoInput =
        PortCollection::from_connections(&(forward.connection(0), forward.connection(1)), 64)
            .unwrap();
    let b: StereoInput =
        PortCollection::from_connections(&(backward.connection(0), backward.connection(1)), 64)
            .unwrap();
    assert_eq!(a.0.port(), b.0.port());
    assert_eq!(a.1.port(), b.1.port());
}

#[test]
fn empty_collection_resolves_trivially() {
    let resolved: Option<()> = PortCollection::from_connections(&(), 8);
    assert_eq!(resolved, Some(()));
}
