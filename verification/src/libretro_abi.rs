//! Plain-value model of the libretro ABI surface the host engine reads.
//!
//! The raw ABI works in C enums, C strings and raw pointers; the engine's
//! logic only ever reads the plain values modelled here. The shell converts
//! between the raw representation and these types at the boundary.

use vstd::prelude::*;

verus! {

/// The plugin ABI version this host implements. A plugin reporting any
/// other version is rejected at load time.
pub const API_VERSION: u32 = 1;

// Input device classes, as numbered by the plugin ABI.
pub const DEVICE_NONE: u32 = 0;
pub const DEVICE_JOYPAD: u32 = 1;
pub const DEVICE_MOUSE: u32 = 2;

// Environment command identifiers: the operation codes a plugin passes to
// the host's environment entry point.
pub const ENVIRONMENT_GET_CAN_DUPE: u32 = 3;
pub const ENVIRONMENT_SET_PERFORMANCE_LEVEL: u32 = 8;
pub const ENVIRONMENT_GET_SYSTEM_DIRECTORY: u32 = 9;
pub const ENVIRONMENT_SET_PIXEL_FORMAT: u32 = 10;
pub const ENVIRONMENT_SET_INPUT_DESCRIPTORS: u32 = 11;
pub const ENVIRONMENT_SET_HW_RENDER: u32 = 14;
pub const ENVIRONMENT_GET_VARIABLE: u32 = 15;
pub const ENVIRONMENT_SET_VARIABLES: u32 = 16;
pub const ENVIRONMENT_GET_VARIABLE_UPDATE: u32 = 17;
pub const ENVIRONMENT_GET_LOG_INTERFACE: u32 = 27;
pub const ENVIRONMENT_GET_SAVE_DIRECTORY: u32 = 31;
pub const ENVIRONMENT_SET_CONTROLLER_INFO: u32 = 35;
pub const ENVIRONMENT_SET_GEOMETRY: u32 = 37;

// Hardware render context classes a plugin may request.
pub const HW_CONTEXT_OPENGL: u32 = 1;
pub const HW_CONTEXT_OPENGL_CORE: u32 = 3;

/// The pixel formats a plugin may select for its video output, with the
/// numbering the ABI uses for them.
#[derive(Clone, Copy, Debug, PartialEq, Eq, Structural)]
pub enum PixelFormat {
    ARGB1555,
    ARGB8888,
    RGB565,
}

/// The ABI numbering of [`PixelFormat`].
pub open spec fn spec_pixel_format_from_uint(value: u32) -> Option<PixelFormat> {
    if value == 0 {
        Some(PixelFormat::ARGB1555)
    } else if value == 1 {
        Some(PixelFormat::ARGB8888)
    } else if value == 2 {
        Some(PixelFormat::RGB565)
    } else {
        None
    }
}

impl PixelFormat {
    /// Decodes the ABI's numbering of the pixel formats; any other value is
    /// an unknown format and is rejected.
    pub fn from_uint(value: u32) -> (r: Option<PixelFormat>)
        ensures
            r == spec_pixel_format_from_uint(value),
    {
        if value == 0 {
            Some(PixelFormat::ARGB1555)
        } else if value == 1 {
            Some(PixelFormat::ARGB8888)
        } else if value == 2 {
            Some(PixelFormat::RGB565)
        } else {
            None
        }
    }
}

/// The base and maximal output geometry a plugin reports.
#[derive(Clone, Copy, Debug, PartialEq, Eq, Structural)]
pub struct GameGeometry {
    pub base_width: u32,
    pub base_height: u32,
    pub max_width: u32,
    pub max_height: u32,
}

/// Plugin-reported audio/video metadata, as far as the engine reads it:
/// the output geometry. (The raw ABI also reports timing rates; those are
/// only used by the shell to pace stepping and never enter the engine.)
#[derive(Clone, Copy, Debug, PartialEq, Eq, Structural)]
pub struct SystemAvInfo {
    pub geometry: GameGeometry,
}

/// Plugin-reported static metadata: its internal name and version, the
/// content extensions it takes, and whether it wants content handed over
/// as a path rather than as a loaded buffer.
#[derive(Clone, Debug)]
pub struct SystemInfo {
    pub library_name: String,
    pub library_version: String,
    pub valid_extensions: String,
    pub need_fullpath: bool,
    pub block_extract: bool,
}

/// The abstract value of a [`SystemInfo`].
#[verifier::ext_equal]
pub struct SystemInfoV {
    pub library_name: Seq<char>,
    pub library_version: Seq<char>,
    pub valid_extensions: Seq<char>,
    pub need_fullpath: bool,
    pub block_extract: bool,
}

impl View for SystemInfo {
    type V = SystemInfoV;

    open spec fn view(&self) -> SystemInfoV {
        SystemInfoV {
            library_name: self.library_name@,
            library_version: self.library_version@,
            valid_extensions: self.valid_extensions@,
            need_fullpath: self.need_fullpath,
            block_extract: self.block_extract,
        }
    }
}

} // verus!
