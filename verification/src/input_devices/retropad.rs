//! The standard gamepad device.

use vstd::prelude::*;

use super::InputDevice;
use crate::libretro_abi;

verus! {

/// The standard gamepad of the plugin ABI: a PS1-style controller with a
/// couple more buttons inherited from later dual-analog pads, sixteen
/// digital button/axis ids in all.
pub struct RetroPad {
    pub buttons: [i16; 16],
}

impl RetroPad {
    pub fn new() -> (r: RetroPad)
        ensures
            r.spec_device_type() == libretro_abi::DEVICE_JOYPAD,
            forall|id: u32| r.spec_button(id) == 0i16,
    {
        RetroPad { buttons: [0; 16] }
    }
}

impl InputDevice for RetroPad {
    open spec fn spec_device_type(&self) -> u32 {
        libretro_abi::DEVICE_JOYPAD
    }

    open spec fn spec_button_count(&self) -> u32 {
        16
    }

    open spec fn spec_button(&self, id: u32) -> i16 {
        if id < 16 {
            self.buttons@[id as int]
        } else {
            0i16
        }
    }

    fn device_type(&self) -> (r: u32) {
        libretro_abi::DEVICE_JOYPAD
    }

    fn get_button(&self, id: u32) -> (r: i16) {
        if id >= 16 {
            return 0;
        }
        self.buttons[id as usize]
    }

    fn reset(&mut self) {
        let mut i: usize = 0;
        while i < 16
            invariant
                i <= 16,
                forall|j: int| 0 <= j < i ==> self.buttons@[j] == 0i16,
            decreases 16 - i,
        {
            self.buttons[i] = 0;
            i = i + 1;
        }
    }

    fn press_button(&mut self, id: u32, pressure: Option<i16>) {
        if id >= 16 {
            return;
        }
        match pressure {
            Some(pressure_value) => {
                self.buttons[id as usize] = pressure_value;
            }
            None => {
                self.buttons[id as usize] = 0x7fff;
            }
        }
    }
}

} // verus!
