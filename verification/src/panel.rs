//! Where the shell's window goes: which monitor is the side panel, how the window is sized to cover
//! it, and when it has to be put back.

use vstd::prelude::*;

verus! {

/// The size of the panel in one orientation, in pixels.
pub const PANEL_SIZE_A: (u32, u32) = (682, 2560);

/// The size of the panel in the other orientation, in pixels.
pub const PANEL_SIZE_B: (u32, u32) = (2560, 682);

/// The width of the window where there is no panel.
pub const FALLBACK_WIDTH: u32 = 400;

/// The height of the window where there is no panel.
pub const FALLBACK_HEIGHT: u32 = 800;

/// How often the window's place is looked at, in seconds.
pub const WATCHDOG_INTERVAL_SECS: u64 = 5;

/// The extended styles of a window that never takes the focus (`WS_EX_NOACTIVATE`) and has no
/// button in the task bar (`WS_EX_TOOLWINDOW`).
pub const NOACTIVATE_BITS: isize = 0x0800_0080;

/// The styles that give a window a frame: `WS_CAPTION`, `WS_THICKFRAME` and `WS_SYSMENU`.
pub const FRAME_BITS: isize = 0x00CC_0000;

/// A rectangle of the virtual desktop, in pixels.
#[derive(Clone, Copy, Debug, PartialEq, Eq, Structural)]
pub struct TargetRect {
    pub x: i32,
    pub y: i32,
    pub width: u32,
    pub height: u32,
}

/// Whether a monitor of this size is the panel.
pub open spec fn panel_sized(width: u32, height: u32) -> bool {
    (width, height) == PANEL_SIZE_A || (width, height) == PANEL_SIZE_B
}

/// Whether a monitor of this size is the panel, upright or turned.
pub fn is_panel_monitor(width: u32, height: u32) -> (panel: bool)
    ensures
        panel == panel_sized(width, height),
{
    (width == PANEL_SIZE_A.0 && height == PANEL_SIZE_A.1) || (width == PANEL_SIZE_B.0 && height
        == PANEL_SIZE_B.1)
}

/// The panel among the monitors: the first one of its size.
pub fn find_panel(monitors: &Vec<TargetRect>) -> (panel: Option<TargetRect>)
    ensures
        match panel {
            Some(rect) => exists|i: int|
                {
                    &&& 0 <= i < monitors@.len()
                    &&& #[trigger] monitors@[i] == rect
                    &&& panel_sized(rect.width, rect.height)
                    &&& forall|j: int|
                        0 <= j < i ==> !panel_sized(
                            (#[trigger] monitors@[j]).width,
                            monitors@[j].height,
                        )
                },
            None => forall|j: int|
                0 <= j < monitors@.len() ==> !panel_sized(
                    (#[trigger] monitors@[j]).width,
                    monitors@[j].height,
                ),
        },
{
    for i in 0..monitors.len()
        invariant
            forall|j: int|
                0 <= j < i ==> !panel_sized(
                    (#[trigger] monitors@[j]).width,
                    monitors@[j].height,
                ),
    {
        let monitor: TargetRect = monitors[i];
        if is_panel_monitor(monitor.width, monitor.height) {
            assert(monitors@[i as int] == monitor);
            return Some(monitor);
        }
    }
    None
}

/// Whether a number fits 32 bits with a sign.
pub open spec fn fits(n: int) -> bool {
    i32::MIN <= n <= i32::MAX
}

/// The rectangle with these edges; one that is turned inside out is empty.
pub fn rect_from(left: i32, top: i32, right: i32, bottom: i32) -> (rect: TargetRect)
    requires
        fits(right - left),
        fits(bottom - top),
    ensures
        rect.x == left,
        rect.y == top,
        rect.width == (if right >= left {
            right - left
        } else {
            0
        }),
        rect.height == (if bottom >= top {
            bottom - top
        } else {
            0
        }),
{
    TargetRect {
        x: left,
        y: top,
        width: if right >= left {
            (right - left) as u32
        } else {
            0
        },
        height: if bottom >= top {
            (bottom - top) as u32
        } else {
            0
        },
    }
}

/// A length as 32 bits with a sign: from two to the 31st on, it wraps to the negative.
pub open spec fn signed(n: u32) -> int {
    if n <= i32::MAX {
        n as int
    } else {
        n - 0x1_0000_0000
    }
}

/// A length as 32 bits with a sign.
pub fn signed_length(n: u32) -> (s: i32)
    ensures
        s == signed(n),
{
    assert(n <= 0x7fff_ffff ==> n as i32 == n) by (bit_vector);
    assert(n > 0x7fff_ffff ==> n as i32 == n - 0x1_0000_0000) by (bit_vector);
    #[verifier::truncate] (n as i32)
}

/// How far the invisible frame of a window reaches on each side.
pub struct Frame {
    pub left: int,
    pub top: int,
    pub right: int,
    pub bottom: int,
}

/// The invisible frame of a window that takes up one rectangle and shows another.
pub open spec fn frame_of(window: TargetRect, visible: TargetRect) -> Frame {
    Frame {
        left: visible.x - window.x,
        top: visible.y - window.y,
        right: (window.x + signed(window.width)) - (visible.x + signed(visible.width)),
        bottom: (window.y + signed(window.height)) - (visible.y + signed(visible.height)),
    }
}

/// Whether there is no frame on any side.
pub open spec fn is_bare(frame: Frame) -> bool {
    frame.left == 0 && frame.top == 0 && frame.right == 0 && frame.bottom == 0
}

/// Whether 32 bits hold the edges of a window and the frame.
pub open spec fn measurable(window: TargetRect, visible: TargetRect) -> bool {
    let frame = frame_of(window, visible);
    &&& fits(window.x + signed(window.width))
    &&& fits(window.y + signed(window.height))
    &&& fits(visible.x + signed(visible.width))
    &&& fits(visible.y + signed(visible.height))
    &&& fits(frame.left)
    &&& fits(frame.top)
    &&& fits(frame.right)
    &&& fits(frame.bottom)
}

/// Whether 32 bits hold the window that makes up for a frame.
pub open spec fn growable(panel: TargetRect, frame: Frame) -> bool {
    &&& fits(panel.x - frame.left)
    &&& fits(panel.y - frame.top)
    &&& fits(signed(panel.width) + frame.left)
    &&& fits(signed(panel.width) + frame.left + frame.right)
    &&& fits(signed(panel.height) + frame.top)
    &&& fits(signed(panel.height) + frame.top + frame.bottom)
}

/// A length of at least one.
pub open spec fn at_least_one(n: int) -> int {
    if n >= 1 {
        n
    } else {
        1
    }
}

/// Whether a window is the panel with the frame added around it.
pub open spec fn grown_by(window: TargetRect, panel: TargetRect, frame: Frame) -> bool {
    &&& window.x == panel.x - frame.left
    &&& window.y == panel.y - frame.top
    &&& window.width == at_least_one(signed(panel.width) + frame.left + frame.right)
    &&& window.height == at_least_one(signed(panel.height) + frame.top + frame.bottom)
}

/// Whether 32 bits hold everything that is computed to make up for the frame.
pub open spec fn compensable(
    window: Option<TargetRect>,
    visible: Option<TargetRect>,
    panel: TargetRect,
) -> bool {
    window is Some && visible is Some ==> {
        let frame = frame_of(window->0, visible->0);
        &&& measurable(window->0, visible->0)
        &&& is_bare(frame) || growable(panel, frame)
    }
}

fn number_fits(n: i64) -> (r: bool)
    ensures
        r == fits(n as int),
{
    -0x8000_0000 <= n && n <= 0x7fff_ffff
}

/// Whether 32 bits hold everything that is computed to make up for the frame, and
/// `frame_compensated_rect` may be called.
pub fn can_compensate(
    window: Option<TargetRect>,
    visible: Option<TargetRect>,
    panel: TargetRect,
) -> (can: bool)
    ensures
        can == compensable(window, visible, panel),
{
    let (wr, vis): (TargetRect, TargetRect) = match (window, visible) {
        (Some(w), Some(v)) => (w, v),
        _ => {
            return true;
        },
    };
    let left: i64 = vis.x as i64 - wr.x as i64;
    let top: i64 = vis.y as i64 - wr.y as i64;
    let wr_right: i64 = wr.x as i64 + signed_length(wr.width) as i64;
    let wr_bottom: i64 = wr.y as i64 + signed_length(wr.height) as i64;
    let vis_right: i64 = vis.x as i64 + signed_length(vis.width) as i64;
    let vis_bottom: i64 = vis.y as i64 + signed_length(vis.height) as i64;
    let right: i64 = wr_right - vis_right;
    let bottom: i64 = wr_bottom - vis_bottom;
    let width: i64 = signed_length(panel.width) as i64;
    let height: i64 = signed_length(panel.height) as i64;
    let measured: bool = number_fits(wr_right) && number_fits(wr_bottom) && number_fits(vis_right)
        && number_fits(vis_bottom) && number_fits(left) && number_fits(top) && number_fits(right)
        && number_fits(bottom);
    let bare: bool = left == 0 && top == 0 && right == 0 && bottom == 0;
    measured && (bare || (number_fits(panel.x as i64 - left) && number_fits(panel.y as i64 - top)
        && number_fits(width + left) && number_fits(width + left + right) && number_fits(
        height + top,
    ) && number_fits(height + top + bottom)))
}

/// The window to use so that what shows of it covers the panel, given what the window takes up and
/// what shows of it now. None where one of these is not known, or there is no frame to make up for.
pub fn frame_compensated_rect(
    window: Option<TargetRect>,
    visible: Option<TargetRect>,
    panel: TargetRect,
) -> (compensated: Option<TargetRect>)
    requires
        compensable(window, visible, panel),
    ensures
        compensated is Some <==> window is Some && visible is Some && !is_bare(
            frame_of(window->0, visible->0),
        ),
        compensated matches Some(rect) ==> grown_by(rect, panel, frame_of(window->0, visible->0)),
{
    let wr: TargetRect = match window {
        Some(rect) => rect,
        None => {
            return None;
        },
    };
    let vis: TargetRect = match visible {
        Some(rect) => rect,
        None => {
            return None;
        },
    };
    let dl: i32 = vis.x - wr.x;
    let dt: i32 = vis.y - wr.y;
    let dr: i32 = (wr.x + signed_length(wr.width)) - (vis.x + signed_length(vis.width));
    let db: i32 = (wr.y + signed_length(wr.height)) - (vis.y + signed_length(vis.height));
    if dl == 0 && dt == 0 && dr == 0 && db == 0 {
        return None;
    }
    let width: i32 = signed_length(panel.width) + dl + dr;
    let height: i32 = signed_length(panel.height) + dt + db;
    Some(
        TargetRect {
            x: panel.x - dl,
            y: panel.y - dt,
            width: if width >= 1 {
                width as u32
            } else {
                1
            },
            height: if height >= 1 {
                height as u32
            } else {
                1
            },
        },
    )
}

/// The window that is kept in place from then on: the compensated one, or else the panel.
pub fn pin_target(compensated: Option<TargetRect>, panel: TargetRect) -> (target: TargetRect)
    ensures
        target == (match compensated {
            Some(rect) => rect,
            None => panel,
        }),
{
    match compensated {
        Some(rect) => rect,
        None => panel,
    }
}

/// What came of pinning the window.
#[derive(Clone, Copy, Debug, PartialEq, Eq, Structural)]
pub enum PinCheck {
    /// What shows is the panel.
    Pinned,
    /// What shows is something else.
    Mismatch(TargetRect),
    /// What shows is not known.
    Unknown,
}

/// Holds what shows of the window against the panel.
pub fn pin_check(visible: Option<TargetRect>, panel: TargetRect) -> (check: PinCheck)
    ensures
        check == (match visible {
            Some(vis) => if vis == panel {
                PinCheck::Pinned
            } else {
                PinCheck::Mismatch(vis)
            },
            None => PinCheck::Unknown,
        }),
{
    match visible {
        Some(vis) => if vis == panel {
            PinCheck::Pinned
        } else {
            PinCheck::Mismatch(vis)
        },
        None => PinCheck::Unknown,
    }
}

/// Where to put the window back to, given where it is, as far as that is known: nowhere, if it is in
/// its place.
pub open spec fn put_back(actual: Option<TargetRect>, target: TargetRect) -> Option<TargetRect> {
    match actual {
        Some(rect) => if rect == target {
            None
        } else {
            Some(target)
        },
        None => None,
    }
}

/// Where to put the window back to, given where it is, as far as that is known.
pub fn repin(actual: Option<TargetRect>, target: TargetRect) -> (back: Option<TargetRect>)
    ensures
        back == put_back(actual, target),
{
    match actual {
        Some(rect) => if rect == target {
            None
        } else {
            Some(target)
        },
        None => None,
    }
}

/// The extended style of a window, changed so that it never takes the focus.
pub fn noactivate_style(current: isize) -> (style: isize)
    ensures
        style == current | NOACTIVATE_BITS,
{
    current | NOACTIVATE_BITS
}

/// The style of a window, with the parts that give it a frame taken away.
pub fn frameless_style(current: isize) -> (style: isize)
    ensures
        style == current & !FRAME_BITS,
{
    current & !FRAME_BITS
}

/// The panel is known in either orientation.
pub proof fn orientation_does_not_matter(width: u32, height: u32)
    ensures
        panel_sized(width, height) == panel_sized(height, width),
{
}

/// What shows of a window with a frame, as left edge, top edge, width and height.
pub open spec fn shown_area(window: TargetRect, frame: Frame) -> (int, int, int, int) {
    (
        window.x + frame.left,
        window.y + frame.top,
        window.width - frame.left - frame.right,
        window.height - frame.top - frame.bottom,
    )
}

/// What shows of a compensated window is the panel, whatever the frame, unless the frame reaches so
/// far inwards that nothing of the window would be left.
pub proof fn compensated_window_shows_the_panel(
    window: TargetRect,
    panel: TargetRect,
    frame: Frame,
)
    requires
        panel.width <= i32::MAX,
        panel.height <= i32::MAX,
        panel.width + frame.left + frame.right >= 1,
        panel.height + frame.top + frame.bottom >= 1,
        grown_by(window, panel, frame),
    ensures
        shown_area(window, frame) == (
            panel.x as int,
            panel.y as int,
            panel.width as int,
            panel.height as int,
        ),
{
}

/// A window that was put back stays: the next look at it finds nothing to do.
pub proof fn repinning_settles(actual: Option<TargetRect>, target: TargetRect)
    ensures
        put_back(actual, target) is Some ==> put_back(put_back(actual, target), target) is None,
        put_back(Some(target), target) is None,
{
}

/// Both changes of style may be made over again to no further effect; the one sets all its bits and
/// keeps those that were set, the other clears all its bits and sets none.
pub proof fn styles_settle(current: isize)
    ensures
        (current | NOACTIVATE_BITS) | NOACTIVATE_BITS == current | NOACTIVATE_BITS,
        (current | NOACTIVATE_BITS) & NOACTIVATE_BITS == NOACTIVATE_BITS,
        (current | NOACTIVATE_BITS) & current == current,
        (current & !FRAME_BITS) & !FRAME_BITS == current & !FRAME_BITS,
        (current & !FRAME_BITS) & FRAME_BITS == 0,
        (current & !FRAME_BITS) | current == current,
{
    assert((current | 0x0800_0080isize) | 0x0800_0080isize == current | 0x0800_0080isize)
        by (bit_vector);
    assert((current | 0x0800_0080isize) & 0x0800_0080isize == 0x0800_0080isize) by (bit_vector);
    assert((current | 0x0800_0080isize) & current == current) by (bit_vector);
    assert((current & !0x00CC_0000isize) & !0x00CC_0000isize == current & !0x00CC_0000isize)
        by (bit_vector);
    assert((current & !0x00CC_0000isize) & 0x00CC_0000isize == 0isize) by (bit_vector);
    assert((current & !0x00CC_0000isize) | current == current) by (bit_vector);
}

/// The panel is 682 pixels by 2560 or the other way round, and no other size is.
pub proof fn panel_has_its_size(width: u32, height: u32)
    ensures
        panel_sized(width, height) <==> (width == 682 && height == 2560) || (width == 2560 && height
            == 682),
{
}

/// Moved to the compensated place, the window shows the panel: its edges, less the distance that each
/// had from the edge of what was visible before, are the edges of the panel.
pub proof fn compensation_moves_every_edge(
    window: TargetRect,
    visible: TargetRect,
    panel: TargetRect,
    c: TargetRect,
)
    requires
        window.width <= i32::MAX && window.height <= i32::MAX,
        visible.width <= i32::MAX && visible.height <= i32::MAX,
        panel.width <= i32::MAX && panel.height <= i32::MAX,
        panel.width + window.width - visible.width >= 1,
        panel.height + window.height - visible.height >= 1,
        grown_by(c, panel, frame_of(window, visible)),
    ensures
        c.x + (visible.x - window.x) == panel.x,
        c.y + (visible.y - window.y) == panel.y,
        c.x + c.width - ((window.x + window.width) - (visible.x + visible.width)) == panel.x
            + panel.width,
        c.y + c.height - ((window.y + window.height) - (visible.y + visible.height)) == panel.y
            + panel.height,
{
}

/// A frame is bare exactly where the window shows all of itself; where it would have to shrink to
/// nothing, a compensated window keeps one pixel.
pub proof fn bare_frames_show_everything(
    window: TargetRect,
    visible: TargetRect,
    panel: TargetRect,
    c: TargetRect,
)
    requires
        window.width <= i32::MAX && window.height <= i32::MAX,
        visible.width <= i32::MAX && visible.height <= i32::MAX,
    ensures
        is_bare(frame_of(window, visible)) <==> window == visible,
        grown_by(c, panel, frame_of(window, visible)) ==> c.width >= 1 && c.height >= 1,
        grown_by(c, panel, frame_of(window, visible)) && panel.width <= i32::MAX && panel.width
            + window.width - visible.width < 1 ==> c.width == 1,
        grown_by(c, panel, frame_of(window, visible)) && panel.height <= i32::MAX && panel.height
            + window.height - visible.height < 1 ==> c.height == 1,
{
}

/// A window that is known to be elsewhere is put back to its target; one that is in place, or of which
/// nothing is known, is left alone.
pub proof fn only_drift_is_undone(actual: TargetRect, target: TargetRect)
    ensures
        actual != target ==> put_back(Some(actual), target) == Some(target),
        actual == target ==> put_back(Some(actual), target) is None,
        put_back(None, target) is None,
{
}

/// A length as 32 bits with a sign differs from the length by a multiple of two to the 32nd.
pub proof fn signed_lengths_wrap(n: u32)
    ensures
        fits(signed(n)),
        (n - signed(n)) % 0x1_0000_0000 == 0,
        fits(n as int) ==> signed(n) == n,
        fits(n as int) <==> n <= 0x7fff_ffff,
{
}

/// On any desktop of ordinary size the frame can be made up for.
pub proof fn ordinary_windows_can_be_compensated(
    window: TargetRect,
    visible: TargetRect,
    panel: TargetRect,
)
    requires
        -0x1000_0000 <= window.x <= 0x1000_0000 && -0x1000_0000 <= window.y <= 0x1000_0000,
        -0x1000_0000 <= visible.x <= 0x1000_0000 && -0x1000_0000 <= visible.y <= 0x1000_0000,
        -0x1000_0000 <= panel.x <= 0x1000_0000 && -0x1000_0000 <= panel.y <= 0x1000_0000,
        window.width <= 0x1000_0000 && window.height <= 0x1000_0000,
        visible.width <= 0x1000_0000 && visible.height <= 0x1000_0000,
        panel.width <= 0x1000_0000 && panel.height <= 0x1000_0000,
    ensures
        compensable(Some(window), Some(visible), panel),
        compensable(None, Some(visible), panel),
        compensable(Some(window), None, panel),
{
}

} // verus!
