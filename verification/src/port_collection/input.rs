//! Typed handles for input ports.

use vstd::prelude::*;
use crate::port_collection::PortCollection;

verus! {

/// A port type: how one untyped, non-null host connection becomes the typed
/// view a plugin reads during a processing call.
///
/// The view is built from the connection's address and the call's sample
/// count alone; dereferencing host memory happens at the host boundary,
/// outside this library, so the view carries validated plain values — never
/// a raw address that something here would read through.
pub trait PortType {
    /// The typed read view of a connected input port.
    type InputPortType;

    /// The view as a pure function of the connection and the sample count.
    spec fn spec_input_from_raw(pointer: u64, sample_count: u32) -> Self::InputPortType;

    /// Builds the typed view from a non-null connection.
    fn input_from_raw(pointer: u64, sample_count: u32) -> (r: Self::InputPortType)
        requires
            pointer != 0,
        ensures
            r == Self::spec_input_from_raw(pointer, sample_count),
    ;
}

/// The location and extent of a connected buffer of `sample_count` frames.
#[derive(Clone, Copy, Debug, PartialEq, Eq, Structural)]
pub struct ConnectedBuffer {
    /// The host address the connection named; never null here.
    pub address: u64,
    /// How many frames the buffer holds for this call.
    pub sample_count: u32,
}

/// An audio port: its connection names a buffer of one frame per sample.
pub struct AudioPort;

impl PortType for AudioPort {
    type InputPortType = ConnectedBuffer;

    open spec fn spec_input_from_raw(pointer: u64, sample_count: u32) -> ConnectedBuffer {
        ConnectedBuffer { address: pointer, sample_count }
    }

    fn input_from_raw(pointer: u64, sample_count: u32) -> (r: ConnectedBuffer) {
        ConnectedBuffer { address: pointer, sample_count }
    }
}

/// An atom port: its connection names a self-delimiting atom buffer, so the
/// typed view is the validated address alone.
pub struct AtomPort;

impl PortType for AtomPort {
    type InputPortType = u64;

    open spec fn spec_input_from_raw(pointer: u64, sample_count: u32) -> u64 {
        pointer
    }

    fn input_from_raw(pointer: u64, sample_count: u32) -> (r: u64) {
        pointer
    }
}

/// Handle for one required input port.
///
/// Resolves from a single connection: null means the required port is
/// missing and the whole resolution fails.
pub struct InputPort<T: PortType> {
    /// The typed view of the connected port.
    pub port: <T as PortType>::InputPortType,
}

impl<T: PortType> InputPort<T> {
    /// Read access to the typed view of the connected port.
    pub fn port(&self) -> (p: &<T as PortType>::InputPortType)
        ensures
            *p == self.port,
    {
        &self.port
    }
}

impl<T: PortType> PortCollection for InputPort<T> {
    type Cache = u64;

    open spec fn spec_from_connections(cache: u64, sample_count: u32) -> Option<InputPort<T>> {
        if cache == 0 {
            None
        } else {
            Some(InputPort { port: T::spec_input_from_raw(cache, sample_count) })
        }
    }

    fn from_connections(cache: &u64, sample_count: u32) -> (r: Option<InputPort<T>>) {
        if *cache == 0 {
            None
        } else {
            Some(InputPort { port: T::input_from_raw(*cache, sample_count) })
        }
    }
}

} // verus!
