//! The framebuffer collaborator's data: the kernel's screen-information
//! records, the device error type, and the thresholding that turns rendered
//! pixels into the device's sink bytes.
//!
//! Opening and mapping the device is I/O and lives with the application;
//! everything here is plain data and computation.
use vstd::prelude::*;

verus! {

/// One color channel's position inside a pixel.
#[derive(Clone, Debug)]
pub struct Bitfield {
    pub offset: u32,
    pub length: u32,
    pub msb_right: u32,
}

/// The device's variable screen information: resolution, depth, timings.
#[derive(Clone, Debug)]
pub struct VarScreenInfo {
    pub xres: u32,
    pub yres: u32,
    pub xres_virtual: u32,
    pub yres_virtual: u32,
    pub xoffset: u32,
    pub yoffset: u32,
    pub bits_per_pixel: u32,
    pub grayscale: u32,
    pub red: Bitfield,
    pub green: Bitfield,
    pub blue: Bitfield,
    pub transp: Bitfield,
    pub nonstd: u32,
    pub activate: u32,
    pub height: u32,
    pub width: u32,
    pub accel_flags: u32,
    pub pixclock: u32,
    pub left_margin: u32,
    pub right_margin: u32,
    pub upper_margin: u32,
    pub lower_margin: u32,
    pub hsync_len: u32,
    pub vsync_len: u32,
    pub sync: u32,
    pub vmode: u32,
    pub rotate: u32,
    pub colorspace: u32,
    pub reserved: [u32; 4],
}

/// The device's fixed screen information: memory layout and capabilities.
#[derive(Clone, Debug)]
pub struct FixScreenInfo {
    pub id: [u8; 16],
    pub smem_start: usize,
    pub smem_len: u32,
    pub fb_type: u32,
    pub type_aux: u32,
    pub visual: u32,
    pub xpanstep: u16,
    pub ypanstep: u16,
    pub ywrapstep: u16,
    pub line_length: u32,
    pub mmio_start: usize,
    pub mmio_len: u32,
    pub accel: u32,
    pub capabilities: u16,
    pub reserved: [u16; 2],
}

/// A zeroed bitfield, matching the record the device driver fills in.
pub open spec fn bitfield_zeroed(b: Bitfield) -> bool {
    b.offset == 0 && b.length == 0 && b.msb_right == 0
}

impl Default for Bitfield {
    fn default() -> (r: Bitfield)
        ensures
            bitfield_zeroed(r),
    {
        Bitfield { offset: 0, length: 0, msb_right: 0 }
    }
}

/// Every field of the variable screen information is zero, matching the
/// record the device driver fills in.
pub open spec fn var_screen_info_zeroed(r: VarScreenInfo) -> bool {
    &&& r.xres == 0 && r.yres == 0 && r.xres_virtual == 0 && r.yres_virtual == 0
    &&& r.xoffset == 0 && r.yoffset == 0 && r.bits_per_pixel == 0 && r.grayscale == 0
    &&& bitfield_zeroed(r.red) && bitfield_zeroed(r.green) && bitfield_zeroed(r.blue)
    &&& bitfield_zeroed(r.transp)
    &&& r.nonstd == 0 && r.activate == 0 && r.height == 0 && r.width == 0
    &&& r.accel_flags == 0 && r.pixclock == 0
    &&& r.left_margin == 0 && r.right_margin == 0 && r.upper_margin == 0 && r.lower_margin == 0
    &&& r.hsync_len == 0 && r.vsync_len == 0 && r.sync == 0 && r.vmode == 0
    &&& r.rotate == 0 && r.colorspace == 0
    &&& forall|i: int| 0 <= i < 4 ==> r.reserved@[i] == 0
}

impl Default for VarScreenInfo {
    fn default() -> (r: VarScreenInfo)
        ensures
            var_screen_info_zeroed(r),
    {
        VarScreenInfo {
            xres: 0,
            yres: 0,
            xres_virtual: 0,
            yres_virtual: 0,
            xoffset: 0,
            yoffset: 0,
            bits_per_pixel: 0,
            grayscale: 0,
            red: Bitfield::default(),
            green: Bitfield::default(),
            blue: Bitfield::default(),
            transp: Bitfield::default(),
            nonstd: 0,
            activate: 0,
            height: 0,
            width: 0,
            accel_flags: 0,
            pixclock: 0,
            left_margin: 0,
            right_margin: 0,
            upper_margin: 0,
            lower_margin: 0,
            hsync_len: 0,
            vsync_len: 0,
            sync: 0,
            vmode: 0,
            rotate: 0,
            colorspace: 0,
            reserved: [0, 0, 0, 0],
        }
    }
}

/// Every field of the fixed screen information is zero, matching the
/// record the device driver fills in.
pub open spec fn fix_screen_info_zeroed(r: FixScreenInfo) -> bool {
    &&& forall|i: int| 0 <= i < 16 ==> r.id@[i] == 0
    &&& r.smem_start == 0 && r.smem_len == 0 && r.fb_type == 0 && r.type_aux == 0
    &&& r.visual == 0 && r.xpanstep == 0 && r.ypanstep == 0 && r.ywrapstep == 0
    &&& r.line_length == 0 && r.mmio_start == 0 && r.mmio_len == 0 && r.accel == 0
    &&& r.capabilities == 0
    &&& forall|i: int| 0 <= i < 2 ==> r.reserved@[i] == 0
}

impl Default for FixScreenInfo {
    fn default() -> (r: FixScreenInfo)
        ensures
            fix_screen_info_zeroed(r),
    {
        FixScreenInfo {
            id: [0;16],
            smem_start: 0,
            smem_len: 0,
            fb_type: 0,
            type_aux: 0,
            visual: 0,
            xpanstep: 0,
            ypanstep: 0,
            ywrapstep: 0,
            line_length: 0,
            mmio_start: 0,
            mmio_len: 0,
            accel: 0,
            capabilities: 0,
            reserved: [0, 0],
        }
    }
}

/// What went wrong while opening or mapping the framebuffer device.
#[derive(Copy, Clone, Debug, PartialEq, Eq, Structural)]
pub enum FramebufferErrorKind {
    IoctlFailed,
    IoError,
}

/// A framebuffer failure: its kind and a human-readable description.
#[derive(Clone, Debug)]
pub struct FramebufferError {
    pub kind: FramebufferErrorKind,
    pub details: String,
}

impl FramebufferError {
    /// Builds an error of the given kind and description.
    pub fn new(kind: FramebufferErrorKind, details: &str) -> (r: FramebufferError)
        ensures
            r.kind == kind,
            r.details@ == details@,
    {
        FramebufferError { kind, details: details.to_owned() }
    }
}

/// The sink byte written for one rendered pixel: 1 for any nonzero source
/// value, 0 otherwise.
pub open spec fn threshold(pixel: u32) -> u8 {
    if pixel != 0 {
        1
    } else {
        0
    }
}

/// The sink byte at offset `j`: each pixel owns a cell of `byte_depth`
/// bytes, whose first byte is the thresholded pixel and whose remaining
/// bytes stay zero.
pub open spec fn sink_byte(pixels: Seq<u32>, byte_depth: int, j: int) -> u8 {
    if j % byte_depth == 0 {
        threshold(pixels[j / byte_depth])
    } else {
        0
    }
}

/// Converts rendered pixels to the device's sink format by thresholding:
/// pixel `index` determines the byte at offset `index * byte_depth`, and
/// the remaining bytes of each cell stay zero.
pub fn frame_sink_bytes(pixels: &[u32], byte_depth: usize) -> (r: Vec<u8>)
    requires
        byte_depth >= 1,
        pixels@.len() * byte_depth <= usize::MAX,
    ensures
        r@.len() == pixels@.len() * byte_depth,
        forall|j: int|
            0 <= j < r@.len() ==> r@[j] == sink_byte(pixels@, byte_depth as int, j),
        forall|i: int|
            0 <= i < pixels@.len() ==> r@[i * byte_depth] == threshold(#[trigger] pixels@[i]),
{
    proof {
        assert(pixels@.len() * byte_depth >= pixels@.len()) by (nonlinear_arith)
            requires
                byte_depth >= 1,
                pixels@.len() >= 0,
        ;
    }
    let total: usize = pixels.len() * byte_depth;
    let mut r: Vec<u8> = Vec::new();
    let mut j: usize = 0;
    while j < total
        invariant
            byte_depth >= 1,
            total == pixels@.len() * byte_depth,
            j <= total,
            r@.len() == j,
            forall|x: int|
                0 <= x < j ==> r@[x] == sink_byte(pixels@, byte_depth as int, x),
        decreases total - j,
    {
        let q = j / byte_depth;
        let m = j % byte_depth;
        proof {
            assert(j / byte_depth < pixels@.len()) by (nonlinear_arith)
                requires
                    byte_depth >= 1,
                    0 <= j < pixels@.len() * byte_depth,
            ;
        }
        if m == 0 {
            if pixels[q] != 0 {
                r.push(1);
            } else {
                r.push(0);
            }
        } else {
            r.push(0);
        }
        j = j + 1;
    }
    proof {
        assert forall|i: int| 0 <= i < pixels@.len() implies r@[i * byte_depth] == threshold(
            #[trigger] pixels@[i],
        ) by {
            let x = i * (byte_depth as int);
            assert(0 <= x && x < pixels@.len() * byte_depth && x % (byte_depth as int) == 0 && x / (
            byte_depth as int) == i) by (nonlinear_arith)
                requires
                    0 <= i < pixels@.len(),
                    byte_depth >= 1,
                    x == i * byte_depth,
            ;
        }
    }
    r
}

} // verus!
