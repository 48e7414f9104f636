//! The tray icon's fallback picture and the requests its menu hands to the UI
//! thread. Creating the tray icon and its menu, and handling their events,
//! stay with the caller.
use vstd::prelude::*;
use crate::text::str_eq;

verus! {

/// Cell (`cx`, `cy`) of the 16x16 letter "K" drawn on the icon:
/// ```text
/// ................
/// ................
/// ...##......##...
/// ...##.....##....
/// ...##....##.....
/// ...##...##......
/// ...##..##.......
/// ...#####........
/// ...#####........
/// ...##..##.......
/// ...##...##......
/// ...##....##.....
/// ...##.....##....
/// ...##......##...
/// ................
/// ................
/// ```
pub open spec fn glyph(cx: int, cy: int) -> bool {
    2 <= cy <= 13 && (cx == 3 || cx == 4 || (cy <= 6 && (cx == 13 - cy || cx == 14 - cy)) || ((cy == 7 || cy
        == 8) && 3 <= cx <= 7) || (cy >= 9 && (cx == cy - 2 || cx == cy - 1)))
}

fn glyph_cell(cx: i32, cy: i32) -> (r: bool)
    ensures
        r == glyph(cx as int, cy as int),
{
    2 <= cy && cy <= 13 && (cx == 3 || cx == 4 || (cy <= 6 && (cx == 13 - cy || cx == 14 - cy)) || ((cy == 7 || cy
        == 8) && 3 <= cx && cx <= 7) || (cy >= 9 && (cx == cy - 2 || cx == cy - 1)))
}

/// Corner radius of the rounded square.
pub const RADIUS: i32 = 6;

pub open spec fn clamp(v: int, lo: int, hi: int) -> int {
    if v < lo {
        lo
    } else if v > hi {
        hi
    } else {
        v
    }
}

/// Pixel (`x`, `y`) lies inside the 32x32 square with corners rounded by `RADIUS`.
pub open spec fn in_rounded_square(x: int, y: int) -> bool {
    let dx = x - clamp(x, 6, 25);
    let dy = y - clamp(y, 6, 25);
    dx * dx + dy * dy <= 36
}

/// RGBA of pixel (`x`, `y`) of the fallback icon: white "K" on a blue rounded
/// square, transparent outside it.
pub open spec fn icon_pixel(x: int, y: int) -> Seq<u8> {
    if !in_rounded_square(x, y) {
        seq![0u8, 0u8, 0u8, 0u8]
    } else if glyph(x / 2, y / 2) {
        seq![255u8, 255u8, 255u8, 255u8]
    } else {
        seq![56u8, 120u8, 240u8, 255u8]
    }
}

/// Fallback 32x32 RGBA icon (white "K" on a blue rounded square), used only
/// if the embedded app icon fails to load. Row by row, 4 bytes per pixel.
pub fn icon_rgba() -> (r: Vec<u8>)
    ensures
        r@.len() == 32 * 32 * 4,
        forall|x: int, y: int, c: int|
            0 <= x < 32 && 0 <= y < 32 && 0 <= c < 4 ==> #[trigger] r@[(y * 32 + x) * 4 + c] == icon_pixel(x, y)[c],
{
    let mut rgba: Vec<u8> = Vec::new();
    let mut y: i32 = 0;
    while y < 32
        invariant
            0 <= y <= 32,
            rgba@.len() == y * 32 * 4,
            forall|x: int, yy: int, c: int|
                0 <= x < 32 && 0 <= yy < y && 0 <= c < 4 ==> #[trigger] rgba@[(yy * 32 + x) * 4 + c] == icon_pixel(x, yy)[c],
        decreases 32 - y,
    {
        let mut x: i32 = 0;
        while x < 32
            invariant
                0 <= y < 32,
                0 <= x <= 32,
                rgba@.len() == (y * 32 + x) * 4,
                forall|xx: int, yy: int, c: int|
                    0 <= xx < 32 && 0 <= yy < 32 && 0 <= c < 4 && (yy < y || (yy == y && xx < x)) ==> #[trigger] rgba@[(
                    yy * 32 + xx) * 4 + c] == icon_pixel(xx, yy)[c],
            decreases 32 - x,
        {
            let nx = if x < RADIUS { RADIUS } else if x > 31 - RADIUS { 31 - RADIUS } else { x };
            let ny = if y < RADIUS { RADIUS } else if y > 31 - RADIUS { 31 - RADIUS } else { y };
            let dx = x - nx;
            let dy = y - ny;
            assert(-6 <= dx <= 6 && -6 <= dy <= 6);
            assert(0 <= dx * dx <= 36 && 0 <= dy * dy <= 36) by (nonlinear_arith)
                requires
                    -6 <= dx <= 6,
                    -6 <= dy <= 6,
            ;
            let px: (u8, u8, u8, u8) = if dx * dx + dy * dy > RADIUS * RADIUS {
                (0, 0, 0, 0)
            } else if glyph_cell(x / 2, y / 2) {
                (255, 255, 255, 255)
            } else {
                (56, 120, 240, 255)
            };
            let ghost before = rgba@;
            rgba.push(px.0);
            rgba.push(px.1);
            rgba.push(px.2);
            rgba.push(px.3);
            proof {
                let base = (y * 32 + x) * 4;
                assert(seq![px.0, px.1, px.2, px.3] == icon_pixel(x as int, y as int));
                assert forall|xx: int, yy: int, c: int|
                    0 <= xx < 32 && 0 <= yy < 32 && 0 <= c < 4 && (yy < y || (yy == y && xx < x + 1)) implies #[trigger] rgba@[(
                    yy * 32 + xx) * 4 + c] == icon_pixel(xx, yy)[c] by {
                    if yy == y && xx == x {
                        assert(rgba@[base + c] == seq![px.0, px.1, px.2, px.3][c]);
                    } else {
                        assert((yy * 32 + xx) * 4 + c < base);
                        assert(rgba@[(yy * 32 + xx) * 4 + c] == before[(yy * 32 + xx) * 4 + c]);
                    }
                }
            }
            x = x + 1;
        }
        y = y + 1;
    }
    rgba
}

/// The fallback icon's shape: every pixel is transparent, white or blue; a
/// pixel is transparent exactly outside the rounded square, so transparency
/// is symmetric left-right and top-bottom; and the opaque pixels of one 2x2
/// block (one cell of the glyph grid) share their colour.
pub proof fn law_icon_shape(x: int, y: int, x2: int, y2: int)
    requires
        0 <= x < 32,
        0 <= y < 32,
        0 <= x2 < 32,
        0 <= y2 < 32,
    ensures
        icon_pixel(x, y) == seq![0u8, 0u8, 0u8, 0u8] || icon_pixel(x, y) == seq![255u8, 255u8, 255u8, 255u8]
            || icon_pixel(x, y) == seq![56u8, 120u8, 240u8, 255u8],
        (icon_pixel(x, y)[3] == 0) == !in_rounded_square(x, y),
        in_rounded_square(x, y) == in_rounded_square(31 - x, y),
        in_rounded_square(x, y) == in_rounded_square(x, 31 - y),
        x / 2 == x2 / 2 && y / 2 == y2 / 2 && in_rounded_square(x, y) && in_rounded_square(x2, y2) ==> icon_pixel(
            x,
            y,
        ) == icon_pixel(x2, y2),
{
    let dx = x - clamp(x, 6, 25);
    let dy = y - clamp(y, 6, 25);
    assert(clamp(31 - x, 6, 25) == 31 - clamp(x, 6, 25));
    assert(clamp(31 - y, 6, 25) == 31 - clamp(y, 6, 25));
    assert((-dx) * (-dx) == dx * dx) by (nonlinear_arith);
    assert((-dy) * (-dy) == dy * dy) by (nonlinear_arith);
}

/// Requests from the tray menu to the UI thread (an index rescan must run on
/// the UI thread, so it goes through a flag).
pub struct TrayFlags {
    pub reload: bool,
}

impl TrayFlags {
    pub fn new() -> (r: Self)
        ensures
            !r.reload,
    {
        TrayFlags { reload: false }
    }

    /// Takes the reload request, clearing it.
    pub fn take_reload(&mut self) -> (r: bool)
        ensures
            r == old(self).reload,
            !final(self).reload,
    {
        let r = self.reload;
        self.reload = false;
        r
    }
}

/// What a tray menu entry asks for.
#[derive(PartialEq, Eq, Debug, Clone, Copy)]
pub enum TrayAction {
    /// Show or hide the launcher.
    Toggle,
    /// Open config.toml.
    OpenSettings,
    /// Rescan the index (on the UI thread, through `TrayFlags`).
    Reload,
    /// Flip the logon registration.
    ToggleStartup,
    /// End the program.
    Quit,
    /// An unknown entry.
    Nothing,
}

/// The action of the menu entry with id `id`.
pub open spec fn tray_action_of(id: Seq<char>) -> TrayAction {
    if id == "toggle"@ {
        TrayAction::Toggle
    } else if id == "settings"@ {
        TrayAction::OpenSettings
    } else if id == "reload"@ {
        TrayAction::Reload
    } else if id == "startup"@ {
        TrayAction::ToggleStartup
    } else if id == "quit"@ {
        TrayAction::Quit
    } else {
        TrayAction::Nothing
    }
}

/// The action of the tray menu entry with id `id` ("toggle", "settings",
/// "reload", "startup", "quit").
pub fn tray_action(id: &str) -> (r: TrayAction)
    ensures
        r == tray_action_of(id@),
{
    if str_eq(id, "toggle") {
        TrayAction::Toggle
    } else if str_eq(id, "settings") {
        TrayAction::OpenSettings
    } else if str_eq(id, "reload") {
        TrayAction::Reload
    } else if str_eq(id, "startup") {
        TrayAction::ToggleStartup
    } else if str_eq(id, "quit") {
        TrayAction::Quit
    } else {
        TrayAction::Nothing
    }
}

} // verus!
