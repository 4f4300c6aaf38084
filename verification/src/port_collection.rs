//! Resolution of the untyped connections a host hands over into a typed,
//! validated collection of ports.

use vstd::prelude::*;

mod input;
mod pointer_cache;

pub use input::{AtomPort, AudioPort, ConnectedBuffer, InputPort, PortType};
pub use pointer_cache::PortPointerCache;

verus! {

/// Ties a cache shape to the collection it resolves into, so plugin code
/// can name the pair once and pass it around as a single type argument.
pub trait PortCollectionHandle {
    /// The cache the collection resolves from.
    type Cache;

    /// The collection that cache resolves into.
    type PortCollection: PortCollection<Cache = Self::Cache>;
}

/// A collection of ports, rebuilt from the host's connections once per
/// processing call.
///
/// The host hands over one untyped connection per port, in no fixed order,
/// possibly rebinding a port between calls; the connections are therefore
/// gathered in a cache first, and the typed collection is resolved from the
/// cache's final state — a pure function of that state, insensitive to the
/// order in which the connections arrived.
///
/// Collections compose: the empty collection resolves trivially, an
/// optional collection resolves to "absent" on a null connection instead of
/// failing, and a pair resolves exactly when both halves do.
pub trait PortCollection: Sized {
    /// The shape of the connection state this collection resolves from.
    type Cache;

    /// What resolution yields, as a pure function of the cache's final
    /// state and the call's sample count.
    spec fn spec_from_connections(cache: Self::Cache, sample_count: u32) -> Option<Self>;

    /// Tries to build the collection from the cache's final state.
    ///
    /// Returns `None` when a required connection is missing — the caller
    /// must then skip the processing call rather than touch any port.
    fn from_connections(cache: &Self::Cache, sample_count: u32) -> (r: Option<Self>)
        ensures
            r == Self::spec_from_connections(*cache, sample_count),
    ;
}

/// The empty collection: needs no connections and always resolves.
impl PortCollection for () {
    type Cache = ();

    open spec fn spec_from_connections(cache: (), sample_count: u32) -> Option<()> {
        Some(())
    }

    fn from_connections(cache: &(), sample_count: u32) -> (r: Option<()>) {
        Some(())
    }
}

/// The handle of the empty collection.
pub struct UnitConnectionHandle;

impl PortCollectionHandle for UnitConnectionHandle {
    type Cache = ();

    type PortCollection = ();
}

/// An optional collection: a null connection yields a present-but-absent
/// value instead of a failure.
impl<T: PortCollection> PortCollection for Option<T> {
    type Cache = <T as PortCollection>::Cache;

    open spec fn spec_from_connections(
        cache: <T as PortCollection>::Cache,
        sample_count: u32,
    ) -> Option<Option<T>> {
        Some(T::spec_from_connections(cache, sample_count))
    }

    fn from_connections(
        cache: &<T as PortCollection>::Cache,
        sample_count: u32,
    ) -> (r: Option<Option<T>>) {
        Some(T::from_connections(cache, sample_count))
    }
}

/// A pair of collections: resolves exactly when both halves resolve.
impl<A: PortCollection, B: PortCollection> PortCollection for (A, B) {
    type Cache = (<A as PortCollection>::Cache, <B as PortCollection>::Cache);

    open spec fn spec_from_connections(
        cache: (<A as PortCollection>::Cache, <B as PortCollection>::Cache),
        sample_count: u32,
    ) -> Option<(A, B)> {
        match (
            A::spec_from_connections(cache.0, sample_count),
            B::spec_from_connections(cache.1, sample_count),
        ) {
            (Some(a), Some(b)) => Some((a, b)),
            _ => None,
        }
    }

    fn from_connections(
        cache: &(<A as PortCollection>::Cache, <B as PortCollection>::Cache),
        sample_count: u32,
    ) -> (r: Option<(A, B)>) {
        let a = match A::from_connections(&cache.0, sample_count) {
            Some(a) => a,
            None => {
                return None;
            },
        };
        let b = match B::from_connections(&cache.1, sample_count) {
            Some(b) => b,
            None => {
                return None;
            },
        };
        Some((a, b))
    }
}

} // verus!
