//! The display side of the firmware: the size of LVGL's draw buffer, the
//! panel window that a refresh is drawn into, and what the firmware does
//! between LVGL runs.
use vstd::prelude::*;
use embedded_graphics::geometry::{Point, Size};
use embedded_graphics::primitives::Rectangle;

verus! {

/// Horizontal resolution of the display LVGL draws for.
pub const HOR_RES: u32 = 720;

/// Vertical resolution of the display LVGL draws for.
pub const VER_RES: u32 = 1280;

/// Number of lines the partial draw buffer holds: a fortieth of the screen.
pub fn line_height(ver_res: u32) -> (lines: u32)
    ensures
        lines == ver_res / 40,
{
    ver_res / 40
}

/// Bytes of a partial draw buffer of `line_height` lines of `hor_res` pixels
/// at `color_depth` bits per pixel.
pub fn draw_buffer_len(hor_res: u32, line_height: u32, color_depth: u32) -> (len: usize)
    requires
        hor_res * line_height <= u32::MAX,
        hor_res * line_height * color_depth <= u32::MAX,
    ensures
        len == hor_res * line_height * color_depth / 8,
{
    let pixels: u32 = hor_res * line_height;
    let bits: u32 = pixels * color_depth;
    (bits / 8) as usize
}

/// The screen area that one LVGL refresh covers: its top-left pixel and its
/// size in pixels.
#[derive(Clone, Copy, Debug, PartialEq, Eq, Structural)]
pub struct FlushArea {
    pub x: i32,
    pub y: i32,
    pub width: u32,
    pub height: u32,
}

/// A window of the panel's frame buffer as the panel driver takes it: start
/// coordinates included, end coordinates excluded.
#[derive(Clone, Copy, Debug, PartialEq, Eq, Structural)]
pub struct BitmapWindow {
    pub x_start: i32,
    pub y_start: i32,
    pub x_end: i32,
    pub y_end: i32,
}

/// `Rectangle::bottom_right` of embedded-graphics on the rectangle with the
/// given top-left corner and size: the last pixel of the rectangle, or `None`
/// when its width or height is zero. The requirement leaves out the sizes on
/// which the corner arithmetic overflows an `i32` (a panic with debug
/// assertions).
#[verifier::external_body]
fn rectangle_bottom_right(x: i32, y: i32, width: u32, height: u32) -> (corner: Option<(i32, i32)>)
    requires
        width > 0 && height > 0 ==> {
            &&& width <= i32::MAX
            &&& height <= i32::MAX
            &&& x + width <= i32::MAX
            &&& y + height <= i32::MAX
        },
    ensures
        corner == (if width > 0 && height > 0 {
            Some(((x + width - 1) as i32, (y + height - 1) as i32))
        } else {
            None
        }),
{
    let rect = Rectangle::new(Point::new(x, y), Size::new(width, height));
    match rect.bottom_right() {
        Some(p) => Some((p.x, p.y)),
        None => None,
    }
}

/// The frame-buffer window that a refresh of `area` is drawn into: it starts
/// at the area's top-left pixel and ends just past its bottom-right pixel,
/// so it spans exactly the area's width and height.
pub fn flush_window(area: &FlushArea) -> (window: BitmapWindow)
    requires
        area.width > 0,
        area.height > 0,
        area.width <= i32::MAX,
        area.height <= i32::MAX,
        area.x + area.width <= i32::MAX,
        area.y + area.height <= i32::MAX,
    ensures
        window.x_start == area.x,
        window.y_start == area.y,
        window.x_end == area.x + area.width,
        window.y_end == area.y + area.height,
        window.x_end - window.x_start == area.width,
        window.y_end - window.y_start == area.height,
{
    let corner = rectangle_bottom_right(area.x, area.y, area.width, area.height);
    let (right, bottom) = corner.unwrap();
    BitmapWindow { x_start: area.x, y_start: area.y, x_end: right + 1, y_end: bottom + 1 }
}

/// What the flush callback does after handing a refresh to the panel, given
/// whether the panel has reported the transfer done.
#[derive(Clone, Copy, Debug, PartialEq, Eq, Structural)]
pub enum FlushWait {
    /// The transfer is still running: yield to other tasks and look again.
    Yield,
    /// The transfer is done: clear the flag and return to LVGL.
    ClearAndReturn,
}

/// One poll of the transfer-done flag.
pub fn flush_wait_step(transfer_done: bool) -> (step: FlushWait)
    ensures
        step == (if transfer_done { FlushWait::ClearAndReturn } else { FlushWait::Yield }),
{
    if transfer_done {
        FlushWait::ClearAndReturn
    } else {
        FlushWait::Yield
    }
}

/// When LVGL next wants its timers run, as its timer handler reports it.
#[derive(Clone, Copy, Debug, PartialEq, Eq, Structural)]
pub enum TimerPeriod {
    /// A timer is due now.
    Ready,
    /// The next timer is due after this many milliseconds.
    AfterMs(u32),
    /// No timer is running.
    Never,
}

/// What the main loop does after a run of LVGL's timers.
#[derive(Clone, Copy, Debug, PartialEq, Eq, Structural)]
pub enum LoopAction {
    /// Run the timers again at once.
    RunAgain,
    /// Sleep until this many ticks after the tick read before the run.
    DelayUntil(u32),
    /// Sleep this many ticks from now.
    Delay(u32),
}

/// The main loop's decision: run again when a timer is due, wake up when the
/// next one is due, and with no timer running sleep for one display refresh
/// period.
pub open spec fn loop_action(period: TimerPeriod, refresh_period: u32) -> LoopAction {
    match period {
        TimerPeriod::Ready => LoopAction::RunAgain,
        TimerPeriod::AfterMs(ms) => LoopAction::DelayUntil(ms),
        TimerPeriod::Never => LoopAction::Delay(refresh_period),
    }
}

/// Whatever the refresh period, a due timer makes the loop run again, a timer
/// due in `ms` milliseconds makes it sleep until `ms` ticks after the tick read
/// before the run, and with no timer running it sleeps one refresh period.
pub proof fn lemma_loop_action_per_period(ms: u32, refresh_period: u32)
    ensures
        loop_action(TimerPeriod::Ready, refresh_period) == LoopAction::RunAgain,
        loop_action(TimerPeriod::AfterMs(ms), refresh_period) == LoopAction::DelayUntil(ms),
        loop_action(TimerPeriod::Never, refresh_period) == LoopAction::Delay(refresh_period),
{
}

/// Decides what the main loop does after a run of LVGL's timers.
pub fn next_loop_action(period: TimerPeriod, refresh_period: u32) -> (action: LoopAction)
    ensures
        action == loop_action(period, refresh_period),
        period == TimerPeriod::Ready ==> action == LoopAction::RunAgain,
        period matches TimerPeriod::AfterMs(ms) ==> action == LoopAction::DelayUntil(ms),
        period == TimerPeriod::Never ==> action == LoopAction::Delay(refresh_period),
{
    match period {
        TimerPeriod::Ready => LoopAction::RunAgain,
        TimerPeriod::AfterMs(ms) => LoopAction::DelayUntil(ms),
        TimerPeriod::Never => LoopAction::Delay(refresh_period),
    }
}

} // verus!
