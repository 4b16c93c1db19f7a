//! The trusted boundary to the OS virtual-device driver.
//!
//! The driver side of the bridge is the `uinput` crate, which owns the
//! virtual device node. Everything the library sends to the device goes
//! through the single event-write call below; the device's creation
//! (capability registration) and teardown happen outside the library,
//! in the boundary layer that owns the process's I/O.

use vstd::prelude::*;
use crate::device::DeviceIoError;

verus! {

/// The OS virtual input device, as the `uinput` crate exposes it. The
/// library carries it opaquely and never reads into it.
#[verifier::external_type_specification]
#[verifier::external_body]
pub struct ExUinputDevice(uinput::Device);

/// Relies on `uinput::Device::write`: writes one input event — an event
/// kind, an event code and a value — to the virtual device node.
/// Whether the write succeeds depends on the machine, so nothing is
/// promised of the outcome; the driver's error is mapped to the
/// library's device I/O error.
#[verifier::external_body]
pub(crate) fn device_write(
    device: &mut uinput::Device,
    kind: i32,
    code: i32,
    value: i32,
) -> (r: Result<(), DeviceIoError>) {
    match device.write(kind, code, value) {
        Ok(()) => Ok(()),
        Err(_) => Err(DeviceIoError),
    }
}

} // verus!
