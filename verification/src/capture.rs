//! Capture-side logic: drawing the mouse cursor into a captured frame, and the
//! decisions of the capture backends.

use vstd::prelude::*;
use vstd::string::StringSliceAdditionalSpecFns;
use crate::error::{spec_error_buffer, CError};
use crate::pixel::{PixelLayout, PixelProvider};
use crate::text::{chars_of, decimal, extend_chars, extend_str, hex_lower, is_prefix, spec_decimal, spec_hex_lower, starts_with, string_from_chars};

verus! {

/// The cursor image the X server reports: position of its hotspot on the screen,
/// hotspot offset, size, and premultiplied ARGB pixels row by row.
pub struct CursorImage {
    pub x: i16,
    pub y: i16,
    pub xhot: u16,
    pub yhot: u16,
    pub width: u16,
    pub height: u16,
    pub pixels: Vec<u32>,
}

/// One colour channel of a pixel (0 red, 1 green, 2 blue) and its alpha (3).
pub open spec fn channel(p: u32, shift: u32) -> u32 {
    (p >> shift) & 0xff
}

/// A premultiplied cursor pixel `c` drawn over a frame pixel `d`.
pub open spec fn spec_blend(c: u32, d: u32) -> u32 {
    let a = channel(c, 24);
    let fr = (channel(c, 16) + channel(d, 16) * (255 - a) / 255) as u32;
    let fg = (channel(c, 8) + channel(d, 8) * (255 - a) / 255) as u32;
    let fb = (channel(c, 0) + channel(d, 0) * (255 - a) / 255) as u32;
    (fr << 16) | (fg << 8) | fb
}

/// The left edge of the cursor image relative to the captured area.
pub open spec fn cursor_left(cur: &CursorImage, cap_x: int) -> int {
    cur.x - cur.xhot - cap_x
}

/// The top edge of the cursor image relative to the captured area.
pub open spec fn cursor_top(cur: &CursorImage, cap_y: int) -> int {
    cur.y - cur.yhot - cap_y
}

/// The frame pixel at column `px`, row `py` after the cursor is drawn: cursor
/// pixels with a non-zero alpha that fall on the frame are blended over it, all
/// other frame pixels stay.
pub open spec fn spec_composited_pixel(
    frame: Seq<u32>,
    w: int,
    cur: &CursorImage,
    cap_x: int,
    cap_y: int,
    px: int,
    py: int,
) -> u32 {
    let i = px - cursor_left(cur, cap_x);
    let j = py - cursor_top(cur, cap_y);
    if 0 <= i < cur.width && 0 <= j < cur.height && channel(cur.pixels@[j * cur.width + i], 24) > 0 {
        spec_blend(cur.pixels@[j * cur.width + i], frame[py * w + px])
    } else {
        frame[py * w + px]
    }
}

proof fn lemma_index_in_bounds(px: int, py: int, w: int, h: int)
    requires
        0 <= px < w,
        0 <= py < h,
    ensures
        0 <= py * w + px < w * h,
{
    assert(py * w + px < w * h) by (nonlinear_arith)
        requires 0 <= px < w, 0 <= py < h;
    assert(0 <= py * w) by (nonlinear_arith)
        requires 0 <= py, 0 <= w;
}

proof fn lemma_index_injective(px: int, py: int, qx: int, qy: int, w: int)
    requires
        0 <= px < w,
        0 <= qx < w,
        0 <= py,
        0 <= qy,
        py * w + px == qy * w + qx,
    ensures
        px == qx && py == qy,
{
    if py < qy {
        assert(py * w + px < qy * w + qx) by (nonlinear_arith)
            requires py < qy, 0 <= px < w, 0 <= qx;
    } else if qy < py {
        assert(qy * w + qx < py * w + px) by (nonlinear_arith)
            requires qy < py, 0 <= qx < w, 0 <= px;
    }
}

fn blend(c: u32, d: u32) -> (r: u32)
    ensures
        r == spec_blend(c, d),
{
    let a = (c >> 24u32) & 0xff;
    let cr = (c >> 16u32) & 0xff;
    let cg = (c >> 8u32) & 0xff;
    let cb = (c >> 0u32) & 0xff;
    let dr = (d >> 16u32) & 0xff;
    let dg = (d >> 8u32) & 0xff;
    let db = (d >> 0u32) & 0xff;
    assert(a <= 0xff && cr <= 0xff && cg <= 0xff && cb <= 0xff) by (bit_vector)
        requires a == (c >> 24u32) & 0xff, cr == (c >> 16u32) & 0xff, cg == (c >> 8u32) & 0xff, cb == (c >> 0u32) & 0xff;
    assert(dr <= 0xff && dg <= 0xff && db <= 0xff) by (bit_vector)
        requires dr == (d >> 16u32) & 0xff, dg == (d >> 8u32) & 0xff, db == (d >> 0u32) & 0xff;
    assert(dr * (255 - a) <= 255 * 255) by (nonlinear_arith)
        requires dr <= 255, a <= 255;
    assert(dg * (255 - a) <= 255 * 255) by (nonlinear_arith)
        requires dg <= 255, a <= 255;
    assert(db * (255 - a) <= 255 * 255) by (nonlinear_arith)
        requires db <= 255, a <= 255;
    let fr = cr + dr * (255 - a) / 255;
    let fg = cg + dg * (255 - a) / 255;
    let fb = cb + db * (255 - a) / 255;
    assert(a == channel(c, 24) && cr == channel(c, 16) && cg == channel(c, 8) && cb == channel(c, 0));
    assert(dr == channel(d, 16) && dg == channel(d, 8) && db == channel(d, 0));
    assert(fr == (channel(c, 16) + channel(d, 16) * (255 - a) / 255) as u32);
    assert(fg == (channel(c, 8) + channel(d, 8) * (255 - a) / 255) as u32);
    assert(fb == (channel(c, 0) + channel(d, 0) * (255 - a) / 255) as u32);
    (fr << 16) | (fg << 8) | fb
}

/// The frame pixel while the cursor is being drawn: cursor rows before `rows` and
/// the first `cols` cursor columns of row `rows` are drawn.
pub open spec fn spec_pixel_during(
    old_frame: Seq<u32>,
    w: int,
    cur: &CursorImage,
    cap_x: int,
    cap_y: int,
    rows: int,
    cols: int,
    px: int,
    py: int,
) -> u32 {
    if py - cursor_top(cur, cap_y) < rows || (py - cursor_top(cur, cap_y) == rows && px - cursor_left(cur, cap_x) < cols) {
        spec_composited_pixel(old_frame, w, cur, cap_x, cap_y, px, py)
    } else {
        old_frame[py * w + px]
    }
}

/// Draws the cursor into a captured frame of `cap_width` by `cap_height` pixels
/// whose top-left corner is at (`cap_x`, `cap_y`) on the screen.
pub fn composite_cursor(
    frame: &mut Vec<u32>,
    cap_x: i32,
    cap_y: i32,
    cap_width: u16,
    cap_height: u16,
    cur: &CursorImage,
)
    requires
        old(frame)@.len() == cap_width as int * cap_height as int,
        cur.pixels@.len() >= cur.width as int * cur.height as int,
        i16::MIN <= cap_x <= i16::MAX,
        i16::MIN <= cap_y <= i16::MAX,
        cur.width as int * cur.height as int <= i32::MAX,
        cap_width as int * cap_height as int <= i32::MAX,
    ensures
        final(frame)@.len() == old(frame)@.len(),
        forall|px: int, py: int| 0 <= px < cap_width && 0 <= py < cap_height
            ==> final(frame)@[py * cap_width + px] == #[trigger] spec_composited_pixel(
                old(frame)@, cap_width as int, cur, cap_x as int, cap_y as int, px, py),
{
    let cursor_x: i32 = cur.x as i32 - cur.xhot as i32 - cap_x;
    let cursor_y: i32 = cur.y as i32 - cur.yhot as i32 - cap_y;
    let cw: i32 = cur.width as i32;
    let ch: i32 = cur.height as i32;
    let w: i32 = cap_width as i32;
    let h: i32 = cap_height as i32;

    let lo_i: i32 = if 0 > -cursor_x { 0 } else { -cursor_x };
    let hi_i: i32 = if cw < w - cursor_x { cw } else { w - cursor_x };
    let lo_j: i32 = if 0 > -cursor_y { 0 } else { -cursor_y };
    let hi_j: i32 = if ch < h - cursor_y { ch } else { h - cursor_y };

    let ghost old_frame = frame@;
    let ghost cx = cursor_x as int;
    let ghost cy = cursor_y as int;
    let ghost wi = w as int;
    let ghost cpx = cap_x as int;
    let ghost cpy = cap_y as int;

    if lo_i >= hi_i || lo_j >= hi_j {
        assert forall|px: int, py: int| 0 <= px < cap_width && 0 <= py < cap_height
            implies frame@[py * cap_width + px] == #[trigger] spec_composited_pixel(
                old_frame, cap_width as int, cur, cap_x as int, cap_y as int, px, py) by {
            lemma_index_in_bounds(px, py, w as int, h as int);
        }
        return;
    }

    assert forall|px: int, py: int| 0 <= px < w && 0 <= py < h
        implies frame@[py * w + px] == #[trigger] spec_pixel_during(old_frame, wi, cur, cpx, cpy, lo_j as int, lo_i as int, px, py) by {
        lemma_index_in_bounds(px, py, w as int, h as int);
    }

    let mut j: i32 = lo_j;
    while j < hi_j
        invariant
            lo_i < hi_i,
            lo_j <= j <= hi_j,
            lo_i == if 0 > -cx { 0 } else { -cx },
            hi_i == if cw < w - cx { cw as int } else { w - cx },
            lo_j == if 0 > -cy { 0 } else { -cy },
            hi_j == if ch < h - cy { ch as int } else { h - cy },
            cx == cursor_left(cur, cpx),
            cy == cursor_top(cur, cpy),
            cw == cur.width, ch == cur.height, w == cap_width, h == cap_height, wi == w,
            cursor_x == cx, cursor_y == cy, cpx == cap_x, cpy == cap_y,
            cur.pixels@.len() >= cw * ch,
            cw * ch <= i32::MAX,
            w * h <= i32::MAX,
            frame@.len() == w * h,
            forall|px: int, py: int| 0 <= px < w && 0 <= py < h
                ==> frame@[py * w + px] == #[trigger] spec_pixel_during(old_frame, wi, cur, cpx, cpy, j as int, lo_i as int, px, py),
        decreases hi_j - j,
    {
        let mut i: i32 = lo_i;
        while i < hi_i
            invariant
                lo_i <= i <= hi_i,
                lo_j <= j < hi_j,
                lo_i == if 0 > -cx { 0 } else { -cx },
                hi_i == if cw < w - cx { cw as int } else { w - cx },
                lo_j == if 0 > -cy { 0 } else { -cy },
                hi_j == if ch < h - cy { ch as int } else { h - cy },
                cx == cursor_left(cur, cpx),
                cy == cursor_top(cur, cpy),
                cw == cur.width, ch == cur.height, w == cap_width, h == cap_height, wi == w,
                cursor_x == cx, cursor_y == cy, cpx == cap_x, cpy == cap_y,
                cur.pixels@.len() >= cw * ch,
                cw * ch <= i32::MAX,
                w * h <= i32::MAX,
                frame@.len() == w * h,
                forall|px: int, py: int| 0 <= px < w && 0 <= py < h
                    ==> frame@[py * w + px] == #[trigger] spec_pixel_during(old_frame, wi, cur, cpx, cpy, j as int, i as int, px, py),
            decreases hi_i - i,
        {
            proof {
                assert(0 <= i < cw);
                assert(0 <= j < ch);
                assert(0 <= i + cx < w);
                assert(0 <= j + cy < h);
                assert(0 <= j * cw + i < cw * ch) by (nonlinear_arith)
                    requires 0 <= i < cw, 0 <= j < ch;
                lemma_index_in_bounds(i + cx, j + cy, wi, h as int);
                assert(0 <= (j + cy) * wi <= (j + cy) * wi + (i + cx) < wi * h);
                assert(frame@[(j + cy) * wi + (i + cx)] == spec_pixel_during(old_frame, wi, cur, cpx, cpy, j as int, i as int, i + cx, j + cy));
            }
            let ghost before = frame@;
            let c_pixel = cur.pixels[(j * cw + i) as usize];
            let a = (c_pixel >> 24u32) & 0xff;
            let dst: i32 = (j + cursor_y) * w + (i + cursor_x);
            if a > 0 {
                let d_pixel = frame[dst as usize];
                frame.set(dst as usize, blend(c_pixel, d_pixel));
            }
            proof {
                assert forall|px: int, py: int| 0 <= px < w && 0 <= py < h
                    implies frame@[py * w + px] == #[trigger] spec_pixel_during(old_frame, wi, cur, cpx, cpy, j as int, i + 1, px, py) by {
                    lemma_index_in_bounds(px, py, w as int, h as int);
                    if px == i + cx && py == j + cy {
                        assert(py * w + px == dst);
                        assert(cur.pixels@[j * cw + i] == c_pixel);
                    } else {
                        if py * w + px == dst {
                            lemma_index_injective(px, py, i + cx, j + cy, wi);
                        }
                        assert(frame@[py * w + px] == before[py * w + px]);
                        assert(before[py * w + px] == spec_pixel_during(old_frame, wi, cur, cpx, cpy, j as int, i as int, px, py));
                    }
                }
            }
            i = i + 1;
        }
        proof {
            assert forall|px: int, py: int| 0 <= px < w && 0 <= py < h
                implies frame@[py * w + px] == #[trigger] spec_pixel_during(old_frame, wi, cur, cpx, cpy, j + 1, lo_i as int, px, py) by {
                lemma_index_in_bounds(px, py, w as int, h as int);
                assert(frame@[py * w + px] == spec_pixel_during(old_frame, wi, cur, cpx, cpy, j as int, i as int, px, py));
            }
        }
        j = j + 1;
    }
    proof {
        assert forall|px: int, py: int| 0 <= px < cap_width && 0 <= py < cap_height
            implies frame@[py * cap_width + px] == #[trigger] spec_composited_pixel(
                old_frame, cap_width as int, cur, cap_x as int, cap_y as int, px, py) by {
            lemma_index_in_bounds(px, py, w as int, h as int);
            assert(frame@[py * w + px] == spec_pixel_during(old_frame, wi, cur, cpx, cpy, j as int, lo_i as int, px, py));
        }
    }
}

/// Sets up the X11 backend. Nothing needs setting up: the protocol library reports
/// errors through its results and needs no global initialisation.
pub fn x11_init() {
}

/// A failure of the Windows screen capture, with its message.
#[derive(Clone, Debug, PartialEq, Eq)]
pub struct CaptrsError(pub String);

/// A failure talking to the desktop portal over D-Bus, with its message.
#[derive(Clone, Debug, PartialEq, Eq)]
pub struct DBusError(pub String);

/// A failure of the PipeWire stream, with its message.
#[derive(Clone, Debug, PartialEq, Eq)]
pub struct PipeWireError(pub String);

impl CaptrsError {
    /// The message, as the error displays.
    pub fn to_display_string(&self) -> (r: String)
        ensures
            r@ == self.0@,
    {
        self.0.clone()
    }
}

impl DBusError {
    /// The message, as the error displays.
    pub fn to_display_string(&self) -> (r: String)
        ensures
            r@ == self.0@,
    {
        self.0.clone()
    }
}

impl PipeWireError {
    /// The message, as the error displays.
    pub fn to_display_string(&self) -> (r: String)
        ensures
            r@ == self.0@,
    {
        self.0.clone()
    }
}

/// Bytes per pixel of an X11 image in Z pixmap format at depth 24 or more.
pub const X11_BYTES_PER_PIXEL: u32 = 4;

/// Whether a regular window lies partly outside the screen.
pub open spec fn spec_is_offscreen(is_regular: bool, x: i16, y: i16, width: u16, height: u16, screen_width: u16, screen_height: u16) -> bool {
    is_regular && (x < 0 || y < 0 || x + width > screen_width || y + height > screen_height)
}

/// Whether a window at (`x`, `y`) of the given size lies partly off the screen; only
/// regular windows count.
pub fn is_offscreen(is_regular: bool, x: i16, y: i16, width: u16, height: u16, screen_width: u16, screen_height: u16) -> (r: bool)
    ensures
        r == spec_is_offscreen(is_regular, x, y, width, height, screen_width, screen_height),
{
    is_regular && (x < 0 || y < 0 || x as i32 + width as i32 > screen_width as i32 || y as i32 + height as i32
        > screen_height as i32)
}

/// How a frame is read from the X server.
#[derive(Clone, Copy, Debug, PartialEq, Eq, Structural)]
pub enum CaptureMethod {
    /// The target's area of the root window.
    RootArea,
    /// The window's own image.
    WindowImage,
    /// The window's off-screen pixmap (needs the Composite extension).
    Offscreen,
}

/// The capture method: the root area for a rectangle, and for the active window of
/// an X session when it is on screen; a window partly off screen from its pixmap;
/// else the window's image.
pub open spec fn spec_capture_method(is_window: bool, is_wayland: bool, offscreen: bool, is_active: bool) -> CaptureMethod {
    if !is_window {
        CaptureMethod::RootArea
    } else if !is_wayland && !offscreen && is_active {
        CaptureMethod::RootArea
    } else if offscreen {
        CaptureMethod::Offscreen
    } else {
        CaptureMethod::WindowImage
    }
}

/// Whether the method depends on which window is active (so it must be asked).
pub fn needs_active_window(is_window: bool, is_wayland: bool, offscreen: bool) -> (r: bool)
    ensures
        r == (is_window && !is_wayland && !offscreen),
        !r ==> forall|a: bool, b: bool| spec_capture_method(is_window, is_wayland, offscreen, a)
            == spec_capture_method(is_window, is_wayland, offscreen, b),
{
    is_window && !is_wayland && !offscreen
}

/// Chooses how to read a frame; `is_active` tells whether the target is the active
/// window (only asked when it matters).
pub fn capture_method(is_window: bool, is_wayland: bool, offscreen: bool, is_active: bool) -> (r: CaptureMethod)
    ensures
        r == spec_capture_method(is_window, is_wayland, offscreen, is_active),
{
    if !is_window {
        CaptureMethod::RootArea
    } else if !is_wayland && !offscreen && is_active {
        CaptureMethod::RootArea
    } else if offscreen {
        CaptureMethod::Offscreen
    } else {
        CaptureMethod::WindowImage
    }
}

/// The error of a failed frame read: code 1 for the first failure after a success,
/// code 2 for repeated failures.
pub fn capture_failure(last_ok: bool) -> (r: CError)
    ensures
        r.wf(),
        r.spec_code() == if last_ok { 1i32 } else { 2i32 },
        r.spec_buffer() == spec_error_buffer("XShmGetImage failed!".spec_bytes()),
{
    CError::with_code(if last_ok { 1 } else { 2 }, "XShmGetImage failed!")
}

/// The title of a window: its non-empty `_NET_WM_NAME`, else its non-empty
/// `WM_NAME`, else `UNKNOWN 0x` and its id in lower-case hex.
pub open spec fn spec_window_title(net_wm_name: Option<Seq<char>>, wm_name: Option<Seq<char>>, win: u32) -> Seq<char> {
    if net_wm_name matches Some(t) && t.len() > 0 {
        net_wm_name.unwrap()
    } else if wm_name matches Some(t) && t.len() > 0 {
        wm_name.unwrap()
    } else {
        "UNKNOWN 0x"@ + spec_hex_lower(win as nat)
    }
}

/// Picks a window's title from its name properties.
pub fn window_title(net_wm_name: Option<String>, wm_name: Option<String>, win: u32) -> (r: String)
    ensures
        r@ == spec_window_title(crate::web::string_opt(net_wm_name), crate::web::string_opt(wm_name), win),
{
    if let Some(t) = &net_wm_name {
        if !t.as_str().is_empty() {
            return t.clone();
        }
    }
    if let Some(t) = &wm_name {
        if !t.as_str().is_empty() {
            return t.clone();
        }
    }
    let mut v = chars_of("UNKNOWN 0x");
    let h = hex_lower(win as u64);
    extend_chars(&mut v, h.as_slice());
    string_from_chars(v.as_slice())
}

/// The name of a monitor entry: `Monitor: ` and its name, `Unknown` when the name
/// could not be read.
pub fn monitor_name(name: Option<&str>) -> (r: String)
    ensures
        r@ == "Monitor: "@ + match name {
            Some(n) => n@,
            None => "Unknown"@,
        },
{
    let mut v = chars_of("Monitor: ");
    match name {
        Some(n) => extend_str(&mut v, n),
        None => extend_str(&mut v, "Unknown"),
    }
    string_from_chars(v.as_slice())
}

/// Whether an input device's name is the one sought: for a pen, any name that
/// starts with the device's name and ` Pen`; otherwise the name itself.
pub open spec fn device_matches(name: Seq<char>, device: Seq<char>, pen: bool) -> bool {
    if pen {
        is_prefix(device + " Pen"@, name)
    } else {
        name == device
    }
}

/// Finds the first input device whose name matches; the error names the device.
pub fn find_input_device(names: &Vec<String>, device_name: &str, pen: bool) -> (r: Result<usize, String>)
    ensures
        match r {
            Ok(i) => i < names@.len() && device_matches(names@[i as int]@, device_name@, pen)
                && forall|k: int| 0 <= k < i ==> !device_matches(names@[k]@, device_name@, pen),
            Err(m) => m@ == "Device with name: "@ + device_name@ + " not found!"@
                && forall|k: int| 0 <= k < names@.len() ==> !device_matches(names@[k]@, device_name@, pen),
        },
{
    let mut want = chars_of(device_name);
    if pen {
        extend_str(&mut want, " Pen");
    }
    let mut i: usize = 0;
    while i < names.len()
        invariant
            i <= names@.len(),
            want@ == if pen { device_name@ + " Pen"@ } else { device_name@ },
            forall|k: int| 0 <= k < i ==> !device_matches(names@[k]@, device_name@, pen),
        decreases names@.len() - i,
    {
        let n = chars_of(names[i].as_str());
        let hit = if pen {
            starts_with(n.as_slice(), want.as_slice())
        } else {
            crate::text::chars_eq(n.as_slice(), want.as_slice())
        };
        if hit {
            return Ok(i);
        }
        i = i + 1;
    }
    let mut m = chars_of("Device with name: ");
    extend_str(&mut m, device_name);
    extend_str(&mut m, " not found!");
    Err(string_from_chars(m.as_slice()))
}

/// The name of a PipeWire stream: its kind (1 desktop, 2 window) and node path.
pub open spec fn spec_pipewire_name(source_type: u64, path: u64) -> Seq<char> {
    "Pipewire "@ + (if source_type == 1 {
        "Desktop"@
    } else if source_type == 2 {
        "Window"@
    } else {
        "Unknown"@
    }) + ", path: "@ + spec_decimal(path as nat)
}

/// Names a PipeWire stream.
pub fn pipewire_name(source_type: u64, path: u64) -> (r: String)
    ensures
        r@ == spec_pipewire_name(source_type, path),
{
    let mut v = chars_of("Pipewire ");
    if source_type == 1 {
        extend_str(&mut v, "Desktop");
    } else if source_type == 2 {
        extend_str(&mut v, "Window");
    } else {
        extend_str(&mut v, "Unknown");
    }
    extend_str(&mut v, ", path: ");
    let d = decimal(path);
    extend_chars(&mut v, d.as_slice());
    string_from_chars(v.as_slice())
}

/// The video formats a PipeWire stream may deliver, as far as capture tells them
/// apart.
#[derive(Clone, Copy, Debug, PartialEq, Eq, Structural)]
pub enum PwVideoFormat {
    BGRx,
    BGRA,
    RGBx,
    RGBA,
    Other,
}

/// Bytes per pixel of a format; zero for the unsupported ones.
pub fn pw_bytes_per_pixel(format: PwVideoFormat) -> (r: usize)
    ensures
        r == match format {
            PwVideoFormat::Other => 0usize,
            _ => 4usize,
        },
{
    match format {
        PwVideoFormat::Other => 0,
        _ => 4,
    }
}

/// The layout a PipeWire frame is handed on in: BGR frames tightly packed or
/// strided, RGB frames as RGB0; `None` for an unsupported format.
pub fn pw_frame_layout(format: PwVideoFormat, width: usize, stride: usize) -> (r: Option<PixelLayout>)
    requires
        width * 4 <= usize::MAX,
    ensures
        r == match format {
            PwVideoFormat::BGRx | PwVideoFormat::BGRA => Some(if stride == width * 4 { PixelLayout::BGR0 } else { PixelLayout::BGR0S }),
            PwVideoFormat::RGBx | PwVideoFormat::RGBA => Some(PixelLayout::RGB0),
            PwVideoFormat::Other => None,
        },
{
    match format {
        PwVideoFormat::BGRx | PwVideoFormat::BGRA => {
            if stride == width * 4 { Some(PixelLayout::BGR0) } else { Some(PixelLayout::BGR0S) }
        },
        PwVideoFormat::RGBx | PwVideoFormat::RGBA => Some(PixelLayout::RGB0),
        PwVideoFormat::Other => None,
    }
}

/// The sequence without all its leading `c`.
pub open spec fn strip_leading(s: Seq<char>, c: char) -> Seq<char>
    decreases s.len(),
{
    if s.len() > 0 && s[0] == c {
        strip_leading(s.drop_first(), c)
    } else {
        s
    }
}

/// The sequence with every `a` replaced by `b`.
pub open spec fn replace_char(s: Seq<char>, a: char, b: char) -> Seq<char> {
    s.map_values(|x: char| if x == a { b } else { x })
}

/// The object path of a desktop-portal request: the caller's unique bus name without
/// its leading ':' and with '.' made '_', then the handle token.
pub fn request_path(unique_name: &str, handle_token: &str) -> (r: String)
    ensures
        r@ == "/org/freedesktop/portal/desktop/request/"@ + replace_char(strip_leading(unique_name@, ':'), '.', '_')
            + "/"@ + handle_token@,
{
    let u = chars_of(unique_name);
    let mut a: usize = 0;
    assert(u@.skip(0) =~= u@);
    while a < u.len() && u[a] == ':'
        invariant
            a <= u@.len(),
            strip_leading(u@, ':') == strip_leading(u@.skip(a as int), ':'),
        decreases u@.len() - a,
    {
        assert(u@.skip(a as int).drop_first() =~= u@.skip(a + 1));
        a = a + 1;
    }
    let ghost rest = u@.skip(a as int);
    assert(strip_leading(u@, ':') == rest);
    let mut v = chars_of("/org/freedesktop/portal/desktop/request/");
    let ghost base = v@;
    let mut k: usize = a;
    while k < u.len()
        invariant
            a <= k <= u@.len(),
            rest == u@.skip(a as int),
            v@ == base + replace_char(rest.take(k - a), '.', '_'),
        decreases u@.len() - k,
    {
        let c = u[k];
        v.push(if c == '.' { '_' } else { c });
        assert(rest.take(k + 1 - a) =~= rest.take(k - a).push(c));
        assert(replace_char(rest.take(k + 1 - a), '.', '_') =~= replace_char(rest.take(k - a), '.', '_').push(
            if c == '.' { '_' } else { c },
        ));
        k = k + 1;
    }
    assert(rest.take(k - a) =~= rest);
    extend_str(&mut v, "/");
    extend_str(&mut v, handle_token);
    string_from_chars(v.as_slice())
}

/// Where a PipeWire buffer's frame lies, if it holds a whole one: the byte range of
/// its chunk and the row stride (the chunk's own, or tightly packed rows when it
/// gives none). `None` for an empty chunk, a chunk past the buffer's end, an
/// unsupported format (no bytes per pixel) or a chunk too short for the frame.
pub open spec fn spec_chunk_frame(size: usize, offset: usize, stride: usize, buf_len: usize, w: usize, h: usize, bpp: usize) -> Option<(int, int, int)> {
    let end = offset + size;
    let row = if stride > 0 { stride as int } else { w * bpp };
    if size == 0 || end > buf_len || bpp == 0 || size < row * h {
        None
    } else {
        Some((offset as int, end, row))
    }
}

/// Checks a PipeWire buffer chunk against the negotiated frame.
pub fn pw_chunk_frame(size: usize, offset: usize, stride: usize, buf_len: usize, w: usize, h: usize, bpp: usize) -> (r: Option<(usize, usize, usize)>)
    requires
        offset + size <= usize::MAX,
        w * bpp <= usize::MAX,
        (if stride > 0 { stride as int } else { w * bpp }) * h <= usize::MAX,
    ensures
        match r {
            Some((a, b, s)) => spec_chunk_frame(size, offset, stride, buf_len, w, h, bpp) == Some((a as int, b as int, s as int)),
            None => spec_chunk_frame(size, offset, stride, buf_len, w, h, bpp) is None,
        },
{
    if size == 0 {
        return None;
    }
    let end = offset + size;
    if end > buf_len {
        return None;
    }
    if bpp == 0 {
        return None;
    }
    let row = if stride > 0 { stride } else { w * bpp };
    if size < row * h {
        return None;
    }
    Some((offset, end, row))
}

/// The synthetic sources listed when debugging: each size with each of the BGR0,
/// RGB0 and RGB layouts.
pub open spec fn spec_test_sources() -> Seq<(usize, usize, PixelLayout)> {
    let sizes = seq![(200usize, 200usize), (800, 600), (1080, 720), (1920, 1080), (3840, 2160), (15360, 2160)];
    Seq::new(18, |i: int| (sizes[i / 3].0, sizes[i / 3].1, if i % 3 == 0 {
        PixelLayout::BGR0
    } else if i % 3 == 1 {
        PixelLayout::RGB0
    } else {
        PixelLayout::RGB
    }))
}

/// Lists the synthetic sources offered when debugging.
pub fn test_sources() -> (r: Vec<(usize, usize, PixelLayout)>)
    ensures
        r@ == spec_test_sources(),
{
    let sizes: Vec<(usize, usize)> = vec![(200, 200), (800, 600), (1080, 720), (1920, 1080), (3840, 2160), (15360, 2160)];
    let mut out: Vec<(usize, usize, PixelLayout)> = Vec::new();
    let mut i: usize = 0;
    while i < 6
        invariant
            i <= 6,
            sizes@ == seq![(200usize, 200usize), (800, 600), (1080, 720), (1920, 1080), (3840, 2160), (15360, 2160)],
            out@ == spec_test_sources().take(3 * i as int),
        decreases 6 - i,
    {
        let (w, h) = sizes[i];
        out.push((w, h, PixelLayout::BGR0));
        out.push((w, h, PixelLayout::RGB0));
        out.push((w, h, PixelLayout::RGB));
        assert(out@ =~= spec_test_sources().take(3 * (i + 1)));
        i = i + 1;
    }
    assert(spec_test_sources().take(18) =~= spec_test_sources());
    out
}

/// A running screen capture that hands out frames; each backend implements it.
pub trait Recorder {
    /// Captures the next frame; the error is the backend's message.
    fn capture(&mut self) -> Result<PixelProvider<'_>, String>;
}

proof fn lemma_blend_channels(c: u32, d: u32)
    requires
        ((c >> 16u32) & 0xff) <= ((c >> 24u32) & 0xff),
        ((c >> 8u32) & 0xff) <= ((c >> 24u32) & 0xff),
        (c & 0xff) <= ((c >> 24u32) & 0xff),
    ensures
        ({
            let a = (c >> 24u32) & 0xff;
            let r = spec_blend(c, d);
            &&& ((r >> 16u32) & 0xff) == ((c >> 16u32) & 0xff) + ((d >> 16u32) & 0xff) * (255 - a) / 255
            &&& ((r >> 8u32) & 0xff) == ((c >> 8u32) & 0xff) + ((d >> 8u32) & 0xff) * (255 - a) / 255
            &&& (r & 0xff) == (c & 0xff) + (d & 0xff) * (255 - a) / 255
            &&& (r >> 24u32) == 0
        }),
{
    let a = (c >> 24u32) & 0xff;
    let cr = (c >> 16u32) & 0xff;
    let cg = (c >> 8u32) & 0xff;
    let cb = c & 0xff;
    let dr = (d >> 16u32) & 0xff;
    let dg = (d >> 8u32) & 0xff;
    let db = d & 0xff;
    assert(a <= 255 && dr <= 255 && dg <= 255 && db <= 255) by (bit_vector)
        requires a == (c >> 24u32) & 0xff, dr == (d >> 16u32) & 0xff, dg == (d >> 8u32) & 0xff, db == d & 0xff;
    assert(channel(c, 0) == cb && channel(d, 0) == db) by (bit_vector)
        requires cb == c & 0xff, db == d & 0xff;
    assert(dr * (255 - a) / 255 <= 255 - a) by (nonlinear_arith)
        requires dr <= 255, a <= 255;
    assert(dg * (255 - a) / 255 <= 255 - a) by (nonlinear_arith)
        requires dg <= 255, a <= 255;
    assert(db * (255 - a) / 255 <= 255 - a) by (nonlinear_arith)
        requires db <= 255, a <= 255;
    let fr: u32 = (cr + dr * (255 - a) / 255) as u32;
    let fg: u32 = (cg + dg * (255 - a) / 255) as u32;
    let fb: u32 = (cb + db * (255 - a) / 255) as u32;
    assert(fr <= 255 && fg <= 255 && fb <= 255);
    assert(spec_blend(c, d) == (fr << 16u32) | (fg << 8u32) | fb);
    let r = (fr << 16u32) | (fg << 8u32) | fb;
    assert(((r >> 16u32) & 0xff) == fr && ((r >> 8u32) & 0xff) == fg && (r & 0xff) == fb && (r >> 24u32) == 0)
        by (bit_vector)
        requires fr <= 255, fg <= 255, fb <= 255, r == (fr << 16u32) | (fg << 8u32) | fb;
}

proof fn lemma_blend_opaque(c: u32, d: u32)
    requires
        (c >> 24u32) & 0xff == 255,
    ensures
        spec_blend(c, d) == c & 0x00FF_FFFF,
{
    let cr = (c >> 16u32) & 0xff;
    let cg = (c >> 8u32) & 0xff;
    let cb = c & 0xff;
    assert(channel(c, 0) == cb) by (bit_vector)
        requires cb == c & 0xff;
    assert(cr <= 255 && cg <= 255 && cb <= 255) by (bit_vector)
        requires cr == (c >> 16u32) & 0xff, cg == (c >> 8u32) & 0xff, cb == c & 0xff;
    assert(channel(c, 24) == 255 && channel(c, 16) == cr && channel(c, 8) == cg);
    assert(channel(d, 16) * (255 - channel(c, 24)) / 255 == 0);
    assert(channel(d, 8) * (255 - channel(c, 24)) / 255 == 0);
    assert(channel(d, 0) * (255 - channel(c, 24)) / 255 == 0);
    assert(spec_blend(c, d) == (cr << 16u32) | (cg << 8u32) | cb);
    assert((cr << 16u32) | (cg << 8u32) | cb == c & 0x00FF_FFFF) by (bit_vector)
        requires cr == (c >> 16u32) & 0xff, cg == (c >> 8u32) & 0xff, cb == c & 0xff;
}

/// Law: drawing the cursor keeps every colour channel in place. Where a cursor pixel
/// `c` with alpha `a > 0` (bits 24..31) lands on frame pixel `d`, the drawn pixel
/// holds in bits 16..23, 8..15 and 0..7 the cursor's channel plus the frame's scaled
/// by `(255 - a) / 255` (for premultiplied cursor pixels, whose channels do not
/// exceed their alpha), and nothing above; an opaque cursor pixel replaces the frame
/// pixel by its colour `c & 0x00FF_FFFF`. Every other frame pixel stays.
pub proof fn lemma_cursor_channels(
    frame: Seq<u32>,
    w: int,
    cur: &CursorImage,
    cap_x: int,
    cap_y: int,
    px: int,
    py: int,
)
    ensures
        ({
            let i = px - cursor_left(cur, cap_x);
            let j = py - cursor_top(cur, cap_y);
            let inside = 0 <= i < cur.width && 0 <= j < cur.height;
            let c = cur.pixels@[j * cur.width + i];
            let a = (c >> 24u32) & 0xff;
            let d = frame[py * w + px];
            let r = spec_composited_pixel(frame, w, cur, cap_x, cap_y, px, py);
            &&& (inside && a == 255) ==> r == c & 0x00FF_FFFF
            &&& (inside && a > 0 && ((c >> 16u32) & 0xff) <= a && ((c >> 8u32) & 0xff) <= a && (c & 0xff) <= a) ==> {
                &&& ((r >> 16u32) & 0xff) == ((c >> 16u32) & 0xff) + ((d >> 16u32) & 0xff) * (255 - a) / 255
                &&& ((r >> 8u32) & 0xff) == ((c >> 8u32) & 0xff) + ((d >> 8u32) & 0xff) * (255 - a) / 255
                &&& (r & 0xff) == (c & 0xff) + (d & 0xff) * (255 - a) / 255
                &&& (r >> 24u32) == 0
            }
            &&& !(inside && a > 0) ==> r == d
        }),
{
    let i = px - cursor_left(cur, cap_x);
    let j = py - cursor_top(cur, cap_y);
    let c = cur.pixels@[j * cur.width + i];
    let d = frame[py * w + px];
    let a = (c >> 24u32) & 0xff;
    assert(channel(c, 24) == a);
    if a == 255 {
        lemma_blend_opaque(c, d);
    }
    if ((c >> 16u32) & 0xff) <= a && ((c >> 8u32) & 0xff) <= a && (c & 0xff) <= a {
        lemma_blend_channels(c, d);
    }
}

/// Law: a regular window is off screen exactly when it crosses an edge of the
/// screen: left (x < 0), top (y < 0), right (x + width > screen width) or bottom
/// (y + height > screen height); the desktop and monitor areas never are. An off
/// screen window is read from its pixmap.
pub proof fn lemma_offscreen_edges(x: i16, y: i16, width: u16, height: u16, screen_width: u16, screen_height: u16, is_wayland: bool, is_active: bool)
    ensures
        spec_is_offscreen(true, x, y, width, height, screen_width, screen_height)
            <==> (x < 0 || y < 0 || x as int + width as int > screen_width as int
                || y as int + height as int > screen_height as int),
        !spec_is_offscreen(false, x, y, width, height, screen_width, screen_height),
        y as int + height as int > screen_height as int ==> spec_is_offscreen(true, x, y, width, height, screen_width, screen_height),
        (x < 0 || y < 0 || x as int + width as int > screen_width as int || y as int + height as int > screen_height as int)
            ==> spec_capture_method(true, is_wayland, spec_is_offscreen(true, x, y, width, height, screen_width, screen_height), is_active)
                == CaptureMethod::Offscreen,
{
}

} // verus!

