//! What is decided while a device is made and when it is lost.

use vstd::prelude::*;

verus! {

pub const DXGI_ADAPTER_FLAG_SOFTWARE: u32 = 2;

pub const DXGI_CREATE_FACTORY_DEBUG: u32 = 1;

/// The result code of a device that was taken away.
pub const DXGI_ERROR_DEVICE_REMOVED: i32 = -2005270523;

/// The result code of a device that was reset.
pub const DXGI_ERROR_DEVICE_RESET: i32 = -2005270521;

/// Whether an adapter with these flags renders in software. Such an
/// adapter is passed over when a hardware adapter is looked for.
pub fn is_software_adapter(flags: u32) -> (software: bool)
    ensures
        software == (flags & DXGI_ADAPTER_FLAG_SOFTWARE != 0),
{
    flags & DXGI_ADAPTER_FLAG_SOFTWARE != 0
}

/// The flags to make the DXGI factory with: the debug flag in a debug
/// build, none otherwise.
pub fn dxgi_factory_flags(debug: bool) -> (flags: u32)
    ensures
        flags == if debug {
            DXGI_CREATE_FACTORY_DEBUG
        } else {
            0
        },
{
    if debug {
        DXGI_CREATE_FACTORY_DEBUG
    } else {
        0
    }
}

/// Whether the result code `code` says that the device is gone, so that
/// the renderer has to make its resources anew.
pub fn is_device_removed(code: i32) -> (removed: bool)
    ensures
        removed == (code == DXGI_ERROR_DEVICE_REMOVED || code == DXGI_ERROR_DEVICE_RESET),
{
    code == DXGI_ERROR_DEVICE_REMOVED || code == DXGI_ERROR_DEVICE_RESET
}

} // verus!
