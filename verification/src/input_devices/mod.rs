//! Input devices the router can plug into a port.

pub mod mouse;
pub mod retropad;

use vstd::prelude::*;

pub use mouse::Mouse;
pub use retropad::RetroPad;

verus! {

/// Capability interface of an input device: a declared device class, a
/// readable per-button state, and ways to press and clear buttons.
///
/// `spec_device_type` and `spec_button` give each implementation's abstract
/// state; the executable methods are contracted against them.
pub trait InputDevice: Sized {
    /// The device class this device declares; constant over its lifetime.
    spec fn spec_device_type(&self) -> u32;

    /// How many button/axis ids this device declares.
    spec fn spec_button_count(&self) -> u32;

    /// The state this device reports for a button id, zero for every id
    /// outside its declared range.
    spec fn spec_button(&self, id: u32) -> i16;

    /// The device class, as numbered by the plugin ABI.
    fn device_type(&self) -> (r: u32)
        ensures
            r == self.spec_device_type(),
    ;

    /// The state of one button/axis; zero for ids out of range.
    fn get_button(&self, id: u32) -> (r: i16)
        ensures
            r == self.spec_button(id),
    ;

    /// Clears the state of all buttons/axes; the device class is kept.
    fn reset(&mut self)
        ensures
            final(self).spec_device_type() == old(self).spec_device_type(),
            final(self).spec_button_count() == old(self).spec_button_count(),
            forall|id: u32| final(self).spec_button(id) == 0i16,
    ;

    /// Presses a button/axis: with `Some(p)` the given pressure is stored,
    /// with `None` full pressure (`0x7fff`). Ids out of range are ignored.
    fn press_button(&mut self, id: u32, pressure: Option<i16>)
        ensures
            final(self).spec_device_type() == old(self).spec_device_type(),
            final(self).spec_button_count() == old(self).spec_button_count(),
            forall|other: u32| other != id ==> final(self).spec_button(other)
                == old(self).spec_button(other),
            id < old(self).spec_button_count() ==> final(self).spec_button(id) == (match pressure {
                Some(p) => p,
                None => 0x7fffi16,
            }),
            id >= old(self).spec_button_count() ==> final(self).spec_button(id)
                == old(self).spec_button(id),
    ;
}

/// The device kinds the router can store, closed over the devices this
/// crate ships. Each delegates to its [`InputDevice`] implementation.
pub enum Device {
    Pad(RetroPad),
    Mouse(Mouse),
}

impl InputDevice for Device {
    open spec fn spec_device_type(&self) -> u32 {
        match self {
            Device::Pad(d) => d.spec_device_type(),
            Device::Mouse(d) => d.spec_device_type(),
        }
    }

    open spec fn spec_button_count(&self) -> u32 {
        match self {
            Device::Pad(d) => d.spec_button_count(),
            Device::Mouse(d) => d.spec_button_count(),
        }
    }

    open spec fn spec_button(&self, id: u32) -> i16 {
        match self {
            Device::Pad(d) => d.spec_button(id),
            Device::Mouse(d) => d.spec_button(id),
        }
    }

    fn device_type(&self) -> (r: u32) {
        match self {
            Device::Pad(d) => d.device_type(),
            Device::Mouse(d) => d.device_type(),
        }
    }

    fn get_button(&self, id: u32) -> (r: i16) {
        match self {
            Device::Pad(d) => d.get_button(id),
            Device::Mouse(d) => d.get_button(id),
        }
    }

    fn reset(&mut self) {
        match self {
            Device::Pad(d) => d.reset(),
            Device::Mouse(d) => d.reset(),
        }
    }

    fn press_button(&mut self, id: u32, pressure: Option<i16>) {
        match self {
            Device::Pad(d) => d.press_button(id, pressure),
            Device::Mouse(d) => d.press_button(id, pressure),
        }
    }
}

} // verus!
