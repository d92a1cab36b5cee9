//! The video pipeline: pixel-format normalization and frame delivery
//! decisions.
//!
//! Every software frame a plugin delivers is normalized into one
//! canonical 32-bit format before it reaches the video sink: RGB565 is
//! bit-expanded channel by channel, 32-bit frames pass through unchanged.
//! A null pixel pointer means "repeat the previous frame"; the all-bits-set
//! sentinel means the frame was rendered into the hardware render target
//! and must be read back from there. The shell classifies the raw pointer
//! into a [`FrameSource`] and performs the sink calls the returned
//! [`FrameEvent`] decides.

use vstd::prelude::*;

use crate::frontend::Frontend;
use crate::frontend::FrontendV;
use crate::libretro_abi::PixelFormat;
use crate::util::bytes_per_pixel_from_libretro;
use crate::util::spec_bytes_per_pixel;

verus! {

/// The red channel of an RGB565 pixel, 5 bits.
pub open spec fn spec_r5(p: u16) -> u16 {
    (p >> 11) & 0x1f
}

/// The green channel of an RGB565 pixel, 6 bits.
pub open spec fn spec_g6(p: u16) -> u16 {
    (p >> 5) & 0x3f
}

/// The blue channel of an RGB565 pixel, 5 bits.
pub open spec fn spec_b5(p: u16) -> u16 {
    p & 0x1f
}

/// A 5-bit channel expanded to 8 bits: `c * 255 / 31`, so 0 stays 0 and
/// 31 becomes 255.
pub open spec fn spec_expand5(c: u16) -> u8 {
    (c * 255 / 31) as u8
}

/// A 6-bit channel expanded to 8 bits: `c * 255 / 63`, so 0 stays 0 and
/// 63 becomes 255.
pub open spec fn spec_expand6(c: u16) -> u8 {
    (c * 255 / 63) as u8
}

/// An RGB565 pixel in the canonical 32-bit format: the expanded red
/// channel in the low byte, green above it, blue above that.
pub open spec fn spec_canonical_pixel(p: u16) -> u32 {
    ((spec_expand5(spec_b5(p)) as u32) << 16) | ((spec_expand6(spec_g6(p)) as u32) << 8) | (
    spec_expand5(spec_r5(p)) as u32)
}

/// A whole RGB565 frame converted to the canonical format, pixel by
/// pixel.
pub open spec fn spec_converted(px: Seq<u16>) -> Seq<u32> {
    Seq::new(px.len(), |i: int| spec_canonical_pixel(px[i]))
}

/// Relies on the `rgb565` crate's `Rgb565::from_rgb565` and
/// `to_rgb888_components`: the 5/6/5 channels of the packed value,
/// each expanded to 8 bits as `c * 255 / 31` (green: `c * 255 / 63`),
/// returned in red, green, blue order.
#[verifier::external_body]
fn rgb565_to_rgb888(p: u16) -> (r: [u8; 3])
    ensures
        r@ == seq![spec_expand5(spec_r5(p)), spec_expand6(spec_g6(p)), spec_expand5(spec_b5(p))],
{
    rgb565::Rgb565::from_rgb565(p).to_rgb888_components()
}

/// Converts one RGB565 pixel to the canonical 32-bit format.
fn convert_pixel(p: u16) -> (r: u32)
    ensures
        r == spec_canonical_pixel(p),
{
    let comp = rgb565_to_rgb888(p);
    ((comp[2] as u32) << 16) | ((comp[1] as u32) << 8) | (comp[0] as u32)
}

/// How the plugin delivered one frame, as classified by the shell from
/// the raw callback arguments.
pub enum FrameSource {
    /// A null pixel pointer: the previous frame repeats; nothing may be
    /// delivered and nothing may be overwritten.
    Duplicate,
    /// The all-bits-set sentinel pointer: the frame was rendered into the
    /// hardware render target and must be read back from there, never
    /// through the pointer.
    HardwareRendered,
    /// A software frame of 16-bit pixels, row-major with the delivered
    /// pitch.
    Pixels16(Vec<u16>),
    /// A software frame of 32-bit pixels, row-major with the delivered
    /// pitch.
    Pixels32(Vec<u32>),
}

/// What the sink must be told about one delivered frame.
pub enum FrameOutput {
    /// Deliver nothing: the sink keeps its last frame.
    Duplicate,
    /// Read the frame back from the hardware render target.
    HardwareFrame,
    /// Deliver the host's converted buffer, rows `pitch` pixels apart.
    ConvertedFrame { pitch: u32 },
    /// Deliver these pixels unchanged, rows `pitch` pixels apart.
    RawFrame { pixels: Vec<u32>, pitch: u32 },
    /// The delivery did not fit the selected pixel format (wrong payload
    /// width or a size that does not match pitch and height); it is
    /// ignored rather than interpreted.
    Invalid,
}

/// One frame's outcome: whether the sink must first be notified of a
/// geometry change, and what to deliver.
pub struct FrameEvent {
    /// The delivered dimensions differ from the cached geometry; the
    /// shell must notify the sink of the resize before delivering.
    pub resized: bool,
    /// What to deliver.
    pub output: FrameOutput,
}

/// The state after adopting new frame dimensions: unchanged when the
/// dimensions already match, else the new dimensions with the conversion
/// scratch buffer resized to exactly `width * height` elements (keeping
/// the prefix, filling with zeroes).
pub open spec fn spec_resize(v: FrontendV, width: u32, height: u32) -> FrontendV {
    if width == v.fb_width && height == v.fb_height {
        v
    } else {
        FrontendV {
            fb_width: width,
            fb_height: height,
            converted_pixel_buffer: spec_buffer_resize(
                v.converted_pixel_buffer,
                (width * height) as nat,
            ),
            ..v
        }
    }
}

/// A buffer resized to `n` elements: truncated, or extended with zeroes.
pub open spec fn spec_buffer_resize(b: Seq<u32>, n: nat) -> Seq<u32> {
    if n <= b.len() {
        b.take(n as int)
    } else {
        b + Seq::new((n - b.len()) as nat, |i: int| 0u32)
    }
}

/// Resizing to unchanged dimensions changes nothing — in particular it
/// keeps the scratch buffer, so two successive resizes to the same
/// dimensions perform at most one allocation in all: the second leaves
/// the state exactly as the first left it.
pub proof fn lemma_resize_idempotent(v: FrontendV, width: u32, height: u32)
    ensures
        spec_resize(spec_resize(v, width, height), width, height) == spec_resize(v, width, height),
{
}

/// The delivered pitch in pixels: the delivered pitch in bytes, which
/// may exceed the visible width times the pixel size due to row padding,
/// divided by the pixel size of the selected format.
pub open spec fn spec_pitch_px(pf: PixelFormat, pitch_bytes: nat) -> nat {
    pitch_bytes / spec_bytes_per_pixel(pf) as nat
}

/// What a 16-bit software delivery does. With RGB565 selected and a
/// payload of exactly pitch times height pixels, the frame is converted
/// into the canonical format in the host's scratch buffer and delivered
/// from there; anything else is ignored as malformed. The adopted
/// dimensions stay either way.
pub open spec fn spec_sw16_post(
    pre: FrontendV,
    post: FrontendV,
    px: Seq<u16>,
    r: FrameEvent,
    width: u32,
    height: u32,
    pitch_bytes: nat,
) -> bool {
    let after = spec_resize(pre, width, height);
    let pitch = spec_pitch_px(pre.pixel_format, pitch_bytes);
    if pre.pixel_format == PixelFormat::RGB565 && pitch <= u32::MAX && px.len() == pitch * height {
        &&& post == (FrontendV {
            fb_pitch: pitch as u32,
            converted_pixel_buffer: spec_converted(px),
            ..after
        })
        &&& r.output matches FrameOutput::ConvertedFrame { pitch: p } && p == pitch as u32
    } else {
        post == after && r.output is Invalid
    }
}

/// What a 32-bit software delivery does. With a 32-bit format selected
/// and a payload of exactly pitch times height pixels, the pixels pass
/// through to the sink unchanged; anything else is ignored as malformed.
/// (For ARGB1555 a real conversion is an unimplemented stub: such frames
/// take this passthrough path, as 32-bit deliveries.)
pub open spec fn spec_sw32_post(
    pre: FrontendV,
    post: FrontendV,
    px: Seq<u32>,
    r: FrameEvent,
    width: u32,
    height: u32,
    pitch_bytes: nat,
) -> bool {
    let after = spec_resize(pre, width, height);
    let pitch = spec_pitch_px(pre.pixel_format, pitch_bytes);
    if pre.pixel_format != PixelFormat::RGB565 && pitch <= u32::MAX && px.len() == pitch * height {
        &&& post == (FrontendV { fb_pitch: pitch as u32, ..after })
        &&& r.output matches FrameOutput::RawFrame { pixels, pitch: p } && pixels@ == px && p
            == pitch as u32
    } else {
        post == after && r.output is Invalid
    }
}

/// Converts a whole RGB565 frame into `scratch`, resizing it only when
/// its size does not already match.
fn convert_rgb565_into(scratch: &mut Vec<u32>, px: &Vec<u16>)
    ensures
        final(scratch)@ == spec_converted(px@),
{
    if scratch.len() != px.len() {
        scratch.resize(px.len(), 0);
    }
    let n = px.len();
    let mut i: usize = 0;
    while i < n
        invariant
            i <= n,
            n == px@.len(),
            scratch@.len() == n,
            forall|j: int| 0 <= j < i ==> scratch@[j] == spec_canonical_pixel(px@[j]),
        decreases n - i,
    {
        let c = convert_pixel(px[i]);
        scratch[i] = c;
        i = i + 1;
    }
    proof {
        assert(final(scratch)@ =~= spec_converted(px@));
    }
}

impl Frontend {
    /// Adopts new frame dimensions. Fires only when they actually differ
    /// from the cached geometry (returning whether they did): the scratch
    /// buffer is then resized to exactly `width * height` elements before
    /// the next frame is processed, while a call with unchanged
    /// dimensions does not touch — in particular does not reallocate —
    /// anything.
    pub fn on_resize(&mut self, width: u32, height: u32) -> (r: bool)
        requires
            old(self).wf(),
            (width as int) * (height as int) <= usize::MAX as int,
        ensures
            final(self).wf(),
            final(self)@ == spec_resize(old(self)@, width, height),
            r == (width != old(self)@.fb_width || height != old(self)@.fb_height),
            (width == old(self)@.fb_width && height == old(self)@.fb_height) ==> final(self)@
                == old(self)@,
    {
        if width == self.fb_width && height == self.fb_height {
            return false;
        }
        self.fb_width = width;
        self.fb_height = height;
        let len = (width as usize) * (height as usize);
        self.converted_pixel_buffer.resize(len, 0);
        proof {
            assert(final(self)@.converted_pixel_buffer =~= spec_buffer_resize(
                old(self)@.converted_pixel_buffer,
                len as nat,
            ));
            assert(final(self)@ =~= spec_resize(old(self)@, width, height));
        }
        true
    }

    /// Handles one frame delivery from the plugin.
    ///
    /// A duplicate frame changes nothing and delivers nothing, so the
    /// sink's last-delivered content stays. Every other delivery first
    /// adopts the delivered dimensions (notifying the sink before
    /// anything is delivered when they changed), then: a hardware frame
    /// is read back from the render target; a software frame whose
    /// payload fits the selected pixel format is normalized — converted
    /// for RGB565, passed through for the 32-bit formats — and anything
    /// malformed is ignored rather than interpreted.
    pub fn video_refresh(
        &mut self,
        source: FrameSource,
        width: u32,
        height: u32,
        pitch_bytes: usize,
    ) -> (r: FrameEvent)
        requires
            old(self).wf(),
            (width as int) * (height as int) <= usize::MAX as int,
        ensures
            final(self).wf(),
            source is Duplicate ==> final(self)@ == old(self)@ && !r.resized && r.output
                is Duplicate,
            !(source is Duplicate) ==> r.resized == (width != old(self)@.fb_width
                || height != old(self)@.fb_height),
            source is HardwareRendered ==> final(self)@ == spec_resize(old(self)@, width, height)
                && r.output is HardwareFrame,
            source matches FrameSource::Pixels16(px) ==> spec_sw16_post(
                old(self)@,
                final(self)@,
                px@,
                r,
                width,
                height,
                pitch_bytes as nat,
            ),
            source matches FrameSource::Pixels32(px) ==> spec_sw32_post(
                old(self)@,
                final(self)@,
                px@,
                r,
                width,
                height,
                pitch_bytes as nat,
            ),
    {
        match source {
            FrameSource::Duplicate => FrameEvent { resized: false, output: FrameOutput::Duplicate },
            FrameSource::HardwareRendered => {
                let resized = self.on_resize(width, height);
                FrameEvent { resized, output: FrameOutput::HardwareFrame }
            }
            FrameSource::Pixels16(px) => {
                let resized = self.on_resize(width, height);
                let bpp = bytes_per_pixel_from_libretro(self.pixel_format) as usize;
                let pitch = pitch_bytes / bpp;
                let fits = pitch <= u32::MAX as usize && {
                    let p64: u64 = pitch as u64;
                    let h64: u64 = height as u64;
                    proof {
                        assert(p64 * h64 <= 0xffff_ffffu64 * 0xffff_ffffu64) by (nonlinear_arith)
                            requires
                                p64 <= 0xffff_ffffu64,
                                h64 <= 0xffff_ffffu64,
                        ;
                    }
                    px.len() as u64 == p64 * h64
                };
                if self.pixel_format == PixelFormat::RGB565 && fits {
                    convert_rgb565_into(&mut self.converted_pixel_buffer, &px);
                    self.fb_pitch = pitch as u32;
                    proof {
                        assert(final(self)@ =~= (FrontendV {
                            fb_pitch: pitch as u32,
                            converted_pixel_buffer: spec_converted(px@),
                            ..spec_resize(old(self)@, width, height)
                        }));
                    }
                    FrameEvent { resized, output: FrameOutput::ConvertedFrame { pitch: pitch as u32 } }
                } else {
                    FrameEvent { resized, output: FrameOutput::Invalid }
                }
            }
            FrameSource::Pixels32(px) => {
                let resized = self.on_resize(width, height);
                let bpp = bytes_per_pixel_from_libretro(self.pixel_format) as usize;
                let pitch = pitch_bytes / bpp;
                let fits = pitch <= u32::MAX as usize && {
                    let p64: u64 = pitch as u64;
                    let h64: u64 = height as u64;
                    proof {
                        assert(p64 * h64 <= 0xffff_ffffu64 * 0xffff_ffffu64) by (nonlinear_arith)
                            requires
                                p64 <= 0xffff_ffffu64,
                                h64 <= 0xffff_ffffu64,
                        ;
                    }
                    px.len() as u64 == p64 * h64
                };
                if !(self.pixel_format == PixelFormat::RGB565) && fits {
                    self.fb_pitch = pitch as u32;
                    proof {
                        assert(final(self)@ =~= (FrontendV {
                            fb_pitch: pitch as u32,
                            ..spec_resize(old(self)@, width, height)
                        }));
                    }
                    FrameEvent {
                        resized,
                        output: FrameOutput::RawFrame { pixels: px, pitch: pitch as u32 },
                    }
                } else {
                    FrameEvent { resized, output: FrameOutput::Invalid }
                }
            }
        }
    }
}

} // verus!
