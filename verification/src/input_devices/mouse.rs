//! The pointing device.

use vstd::prelude::*;

use super::InputDevice;
use crate::libretro_abi;

verus! {

/// The pointing device of the plugin ABI, with eight button/axis ids.
pub struct Mouse {
    pub buttons: [i16; 8],
}

impl Mouse {
    pub fn new() -> (r: Mouse)
        ensures
            r.spec_device_type() == libretro_abi::DEVICE_MOUSE,
            forall|id: u32| r.spec_button(id) == 0i16,
    {
        Mouse { buttons: [0; 8] }
    }
}

impl InputDevice for Mouse {
    open spec fn spec_device_type(&self) -> u32 {
        libretro_abi::DEVICE_MOUSE
    }

    open spec fn spec_button_count(&self) -> u32 {
        8
    }

    open spec fn spec_button(&self, id: u32) -> i16 {
        if id < 8 {
            self.buttons@[id as int]
        } else {
            0i16
        }
    }

    fn device_type(&self) -> (r: u32) {
        libretro_abi::DEVICE_MOUSE
    }

    fn get_button(&self, id: u32) -> (r: i16) {
        if id >= 8 {
            return 0;
        }
        self.buttons[id as usize]
    }

    fn reset(&mut self) {
        let mut i: usize = 0;
        while i < 8
            invariant
                i <= 8,
                forall|j: int| 0 <= j < i ==> self.buttons@[j] == 0i16,
            decreases 8 - i,
        {
            self.buttons[i] = 0;
            i = i + 1;
        }
    }

    fn press_button(&mut self, id: u32, pressure: Option<i16>) {
        if id >= 8 {
            return;
        }
        match pressure {
            Some(pressure_value) => {
                self.buttons[id as usize] = pressure_value;
            }
            None => {
                self.buttons[id as usize] = 0x7fff;
            }
        }
    }
}

} // verus!
