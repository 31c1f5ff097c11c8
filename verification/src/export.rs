//! Export settings and the pixel-drawing primitives of the image export.
use vstd::prelude::*;

verus! {

/// Export format selection.
#[derive(Debug, Clone, Copy, PartialEq, Eq, Structural)]
pub enum ExportFormat {
    Png,
    Gif,
}

impl Default for ExportFormat {
    fn default() -> (r: Self)
        ensures
            r == ExportFormat::Png,
    {
        ExportFormat::Png
    }
}

/// Export settings.
#[derive(Debug, Clone)]
pub struct ExportSettings {
    /// 1, 2, or 4
    pub scale: u32,
    /// include colorbar
    pub colorbar: bool,
    /// title text (empty = no title)
    pub title: String,
    pub format: ExportFormat,
    /// frames per second for GIF (1-30)
    pub gif_fps: u32,
    /// publication-quality layout with axes and labels
    pub publication: bool,
}

impl Default for ExportSettings {
    fn default() -> (r: Self)
        ensures
            r.scale == 2,
            r.colorbar,
            r.title@.len() == 0,
            r.format == ExportFormat::Png,
            r.gif_fps == 10,
            !r.publication,
    {
        ExportSettings {
            scale: 2,
            colorbar: true,
            title: String::new(),
            format: ExportFormat::Png,
            gif_fps: 10,
            publication: false,
        }
    }
}

/// The pixel layout of an exported frame: the field scaled up, a title
/// band above it and a colour bar with its labels below and beside it.
#[derive(Debug, Clone, Copy, PartialEq, Eq, Structural)]
pub struct FrameLayout {
    pub data_w: u32,
    pub data_h: u32,
    pub title_h: u32,
    pub total_w: u32,
    pub total_h: u32,
    pub bar_top: u32,
    pub bar_bottom: u32,
}

/// The layout, in exact integers, of a `w × h` field exported at `scale`.
pub open spec fn layout_of(w: nat, h: nat, scale: nat, titled: bool, colorbar: bool) -> (nat, nat, nat, nat, nat, nat, nat) {
    let data_w = w * scale;
    let data_h = h * scale;
    let title_h: nat = if titled { 28 * scale } else { 0 };
    let total_w: nat = data_w + if colorbar { 8 * scale + 60 * scale } else { 0 };
    let total_h: nat = title_h + data_h + if colorbar { 40 * scale } else { 0 };
    let bar_top = title_h + data_h + 4 * scale;
    (data_w, data_h, title_h, total_w, total_h, bar_top, bar_top + 12 * scale)
}

/// Every size of the layout fits in `u32`.
pub open spec fn layout_fits(w: nat, h: nat, scale: nat, titled: bool) -> bool {
    let l = layout_of(w, h, scale, titled, true);
    l.3 <= u32::MAX && l.4 <= u32::MAX && l.6 <= u32::MAX
}

/// The layout of a frame exporting a `field_w × field_h` field.
pub fn frame_layout(field_w: u32, field_h: u32, settings: &ExportSettings) -> (r: FrameLayout)
    requires
        layout_fits(field_w as nat, field_h as nat, settings.scale as nat, settings.title@.len() > 0),
    ensures
        ({
            let l = layout_of(
                field_w as nat,
                field_h as nat,
                settings.scale as nat,
                settings.title@.len() > 0,
                settings.colorbar,
            );
            r == FrameLayout {
                data_w: l.0 as u32,
                data_h: l.1 as u32,
                title_h: l.2 as u32,
                total_w: l.3 as u32,
                total_h: l.4 as u32,
                bar_top: l.5 as u32,
                bar_bottom: l.6 as u32,
            }
        }),
{
    let s = settings.scale;
    let titled = !settings.title.as_str().is_empty();
    proof {
        let w = field_w as int;
        let h = field_h as int;
        let sc = s as int;
        assert(0 <= w * sc && 0 <= h * sc) by (nonlinear_arith)
            requires
                0 <= w,
                0 <= h,
                0 <= sc,
        ;
    }
    let data_w = field_w * s;
    let data_h = field_h * s;
    let title_h: u32 = if titled {
        28 * s
    } else {
        0
    };
    let total_w = data_w + if settings.colorbar {
        8 * s + 60 * s
    } else {
        0
    };
    let total_h = title_h + data_h + if settings.colorbar {
        40 * s
    } else {
        0
    };
    let bar_top = title_h + data_h + 4 * s;
    let bar_bottom = bar_top + 12 * s;
    FrameLayout { data_w, data_h, title_h, total_w, total_h, bar_top, bar_bottom }
}

/// The GIF frame delay in centiseconds for a requested frame rate; the rate
/// is first clamped to `1..=30`.
pub open spec fn gif_frame_delay(fps: u32) -> u16 {
    let f: u32 = if fps < 1 {
        1u32
    } else if fps > 30 {
        30u32
    } else {
        fps
    };
    (100u32 / f) as u16
}

/// The frame rate an export uses: the requested one, kept within 1..=30.
pub open spec fn clamped_fps(fps: u32) -> int {
    if fps < 1 {
        1
    } else if fps > 30 {
        30
    } else {
        fps as int
    }
}

/// The GIF frame delay is the frame period in hundredths of a second,
/// rounded down: `delay` frames of `1/f` seconds fit in one second, one
/// more does not, `f` being the requested rate kept within 1..=30.
pub proof fn lemma_gif_delay_is_frame_period(fps: u32)
    ensures
        gif_frame_delay(fps) * clamped_fps(fps) <= 100,
        100 < (gif_frame_delay(fps) + 1) * clamped_fps(fps),
{
    let f: int = clamped_fps(fps);
    let d: int = 100int / f;
    assert(d * f <= 100 < (d + 1) * f) by (nonlinear_arith)
        requires
            1 <= f <= 30,
            d == 100int / f,
    ;
    assert(gif_frame_delay(fps) == d);
}

/// The GIF frame delay in centiseconds (GIF uses 1/100 s units).
pub fn gif_delay(fps: u32) -> (r: u16)
    ensures
        r == gif_frame_delay(fps),
        r * clamped_fps(fps) <= 100 < (r + 1) * clamped_fps(fps),
{
    proof {
        lemma_gif_delay_is_frame_period(fps);
    }
    let f: u32 = if fps < 1 {
        1
    } else if fps > 30 {
        30
    } else {
        fps
    };
    (100 / f) as u16
}

// ---------------------------------------------------------------------------
// RGBA buffer drawing
// ---------------------------------------------------------------------------

/// The byte `k` (0..4) of pixel `q` in an RGBA buffer.
pub open spec fn pixel_byte(buf: Seq<u8>, q: int, k: int) -> u8 {
    buf[4 * q + k]
}

/// `buf` is `old` with the pixels satisfying `on` set to `color`, where the
/// whole pixel lies inside the buffer.
pub open spec fn painted(old: Seq<u8>, buf: Seq<u8>, on: spec_fn(int) -> bool, color: [u8; 4]) -> bool {
    &&& buf.len() == old.len()
    &&& forall|q: int, k: int|
        0 <= k < 4 && 0 <= 4 * q + k < buf.len() ==> #[trigger] pixel_byte(buf, q, k) == if on(q)
            && 4 * q + 4 <= buf.len() {
            color@[k]
        } else {
            pixel_byte(old, q, k)
        }
}

/// The index of the pixel at column `x`, row `y` of a buffer `w` pixels wide.
pub open spec fn pixel_index(w: int, x: int, y: int) -> int {
    y * w + x
}

/// Pixel `q` of a buffer `w` pixels wide lies on row `y` between columns
/// `x1` and `x2` (inclusive).
pub open spec fn on_hline(w: int, x1: int, x2: int, y: int) -> spec_fn(int) -> bool {
    |q: int| exists|x: int| x1 <= x <= x2 && q == #[trigger] pixel_index(w, x, y)
}

/// Pixel `q` lies on column `x` between rows `y1` and `y2` (inclusive).
pub open spec fn on_vline(w: int, x: int, y1: int, y2: int) -> spec_fn(int) -> bool {
    |q: int| exists|y: int| y1 <= y <= y2 && q == #[trigger] pixel_index(w, x, y)
}

/// Sets pixel `p` (byte offset `4 * p`) to `color` when it lies inside the buffer.
fn put_pixel(buf: &mut [u8], p: usize, color: [u8; 4])
    requires
        4 * p + 4 <= usize::MAX,
    ensures
        painted(old(buf)@, final(buf)@, |q: int| q == p, color),
{
    let idx = p * 4;
    if idx + 4 <= buf.len() {
        buf[idx] = color[0];
        buf[idx + 1] = color[1];
        buf[idx + 2] = color[2];
        buf[idx + 3] = color[3];
    }
    assert forall|q: int, k: int| 0 <= k < 4 && 0 <= 4 * q + k < buf@.len() implies #[trigger] pixel_byte(buf@, q, k)
        == if q == p && 4 * q + 4 <= buf@.len() {
        color@[k]
    } else {
        pixel_byte(old(buf)@, q, k)
    } by {
        if q != p {
            assert(4 * q + k != 4 * p + 0);
            assert(4 * q + k != 4 * p + 1);
            assert(4 * q + k != 4 * p + 2);
            assert(4 * q + k != 4 * p + 3);
        }
    }
}

/// Draws a horizontal line on row `y` from column `x1` to `x2` inclusive,
/// skipping pixels that fall outside the buffer.
pub fn draw_hline(buf: &mut [u8], buf_w: usize, x1: usize, x2: usize, y: usize, color: [u8; 4])
    requires
        x1 <= x2 ==> (y * buf_w + x2) * 4 + 4 <= usize::MAX,
    ensures
        painted(old(buf)@, final(buf)@, on_hline(buf_w as int, x1 as int, x2 as int, y as int), color),
{
    if x1 > x2 {
        assert forall|q: int, k: int| 0 <= k < 4 && 0 <= 4 * q + k < buf@.len() implies #[trigger] pixel_byte(buf@, q, k)
            == if on_hline(buf_w as int, x1 as int, x2 as int, y as int)(q) && 4 * q + 4 <= buf@.len() {
            color@[k]
        } else {
            pixel_byte(old(buf)@, q, k)
        } by {}
        return;
    }
    proof {
        vstd::arithmetic::mul::lemma_mul_inequality(0, y as int, buf_w as int);
    }
    let row: usize = y * buf_w;
    let mut x = x1;
    loop
        invariant
            x1 <= x <= x2,
            row == y * buf_w,
            (row + x2) * 4 + 4 <= usize::MAX,
            painted(old(buf)@, buf@, on_hline(buf_w as int, x1 as int, x as int - 1, y as int), color),
        decreases x2 - x,
    {
        let ghost before = buf@;
        put_pixel(buf, row + x, color);
        assert(painted(old(buf)@, buf@, on_hline(buf_w as int, x1 as int, x as int, y as int), color)) by {
            assert forall|q: int, k: int| 0 <= k < 4 && 0 <= 4 * q + k < buf@.len() implies #[trigger] pixel_byte(buf@, q, k)
                == if on_hline(buf_w as int, x1 as int, x as int, y as int)(q) && 4 * q + 4 <= buf@.len() {
                color@[k]
            } else {
                pixel_byte(old(buf)@, q, k)
            } by {
                assert(pixel_byte(buf@, q, k) == if q == row + x && 4 * q + 4 <= buf@.len() {
                    color@[k]
                } else {
                    pixel_byte(before, q, k)
                });
                if q == row + x {
                    assert(q == pixel_index(buf_w as int, x as int, y as int));
                    assert(on_hline(buf_w as int, x1 as int, x as int, y as int)(q));
                } else if on_hline(buf_w as int, x1 as int, x as int, y as int)(q) {
                    let xx = choose|xx: int| x1 <= xx <= x && q == pixel_index(buf_w as int, xx, y as int);
                    assert(on_hline(buf_w as int, x1 as int, x as int - 1, y as int)(q));
                } else {
                    assert(!on_hline(buf_w as int, x1 as int, x as int - 1, y as int)(q));
                }
            }
        }
        if x == x2 {
            return;
        }
        x = x + 1;
    }
}

/// Draws a vertical line on column `x` from row `y1` to `y2` inclusive,
/// skipping pixels that fall outside the buffer.
pub fn draw_vline(buf: &mut [u8], buf_w: usize, x: usize, y1: usize, y2: usize, color: [u8; 4])
    requires
        y1 <= y2 ==> (y2 * buf_w + x) * 4 + 4 <= usize::MAX,
    ensures
        painted(old(buf)@, final(buf)@, on_vline(buf_w as int, x as int, y1 as int, y2 as int), color),
{
    if y1 > y2 {
        assert forall|q: int, k: int| 0 <= k < 4 && 0 <= 4 * q + k < buf@.len() implies #[trigger] pixel_byte(buf@, q, k)
            == if on_vline(buf_w as int, x as int, y1 as int, y2 as int)(q) && 4 * q + 4 <= buf@.len() {
            color@[k]
        } else {
            pixel_byte(old(buf)@, q, k)
        } by {}
        return;
    }
    let mut y = y1;
    loop
        invariant
            y1 <= y <= y2,
            (y2 * buf_w + x) * 4 + 4 <= usize::MAX,
            painted(old(buf)@, buf@, on_vline(buf_w as int, x as int, y1 as int, y as int - 1), color),
        decreases y2 - y,
    {
        let ghost before = buf@;
        proof {
            vstd::arithmetic::mul::lemma_mul_inequality(y as int, y2 as int, buf_w as int);
        }
        let p: usize = y * buf_w + x;
        put_pixel(buf, p, color);
        assert(painted(old(buf)@, buf@, on_vline(buf_w as int, x as int, y1 as int, y as int), color)) by {
            assert forall|q: int, k: int| 0 <= k < 4 && 0 <= 4 * q + k < buf@.len() implies #[trigger] pixel_byte(buf@, q, k)
                == if on_vline(buf_w as int, x as int, y1 as int, y as int)(q) && 4 * q + 4 <= buf@.len() {
                color@[k]
            } else {
                pixel_byte(old(buf)@, q, k)
            } by {
                assert(pixel_byte(buf@, q, k) == if q == p && 4 * q + 4 <= buf@.len() {
                    color@[k]
                } else {
                    pixel_byte(before, q, k)
                });
                if q == p {
                    assert(q == pixel_index(buf_w as int, x as int, y as int));
                    assert(on_vline(buf_w as int, x as int, y1 as int, y as int)(q));
                } else if on_vline(buf_w as int, x as int, y1 as int, y as int)(q) {
                    let yy = choose|yy: int| y1 <= yy <= y && q == pixel_index(buf_w as int, x as int, yy);
                    assert(yy != y);
                    assert(on_vline(buf_w as int, x as int, y1 as int, y as int - 1)(q));
                } else {
                    assert(!on_vline(buf_w as int, x as int, y1 as int, y as int - 1)(q));
                }
            }
        }
        if y == y2 {
            return;
        }
        y = y + 1;
    }
}

/// Pixel `q` lies on the outline of the `w` x `h` rectangle whose top-left
/// corner is `(x, y)`, in a buffer `bw` pixels wide.
pub open spec fn on_rect_outline(bw: int, x: int, y: int, w: int, h: int) -> spec_fn(int) -> bool {
    |q: int|
        w > 0 && h > 0 && (on_hline(bw, x, x + w - 1, y)(q) || on_hline(bw, x, x + w - 1, y + h - 1)(q)
            || on_vline(bw, x, y, y + h - 1)(q) || on_vline(bw, x + w - 1, y, y + h - 1)(q))
}

proof fn lemma_paint_compose(
    a: Seq<u8>,
    b: Seq<u8>,
    c: Seq<u8>,
    on1: spec_fn(int) -> bool,
    on2: spec_fn(int) -> bool,
    color: [u8; 4],
)
    requires
        painted(a, b, on1, color),
        painted(b, c, on2, color),
    ensures
        painted(a, c, |q: int| on1(q) || on2(q), color),
{
    assert forall|q: int, k: int| 0 <= k < 4 && 0 <= 4 * q + k < c.len() implies #[trigger] pixel_byte(c, q, k)
        == if (on1(q) || on2(q)) && 4 * q + 4 <= c.len() {
        color@[k]
    } else {
        pixel_byte(a, q, k)
    } by {
        assert(pixel_byte(c, q, k) == if on2(q) && 4 * q + 4 <= c.len() {
            color@[k]
        } else {
            pixel_byte(b, q, k)
        });
        assert(pixel_byte(b, q, k) == if on1(q) && 4 * q + 4 <= b.len() {
            color@[k]
        } else {
            pixel_byte(a, q, k)
        });
    }
}

/// Draws the one-pixel outline of a `w` x `h` rectangle at `(x, y)`; an
/// empty rectangle draws nothing.
pub fn draw_rect_outline(buf: &mut [u8], buf_w: usize, x: usize, y: usize, w: usize, h: usize, color: [u8; 4])
    requires
        w > 0 && h > 0 ==> ((y + h - 1) * buf_w + (x + w - 1)) * 4 + 4 <= usize::MAX && y + h
            <= usize::MAX,
    ensures
        painted(old(buf)@, final(buf)@, on_rect_outline(buf_w as int, x as int, y as int, w as int, h as int), color),
{
    if w == 0 || h == 0 {
        assert forall|q: int, k: int| 0 <= k < 4 && 0 <= 4 * q + k < buf@.len() implies #[trigger] pixel_byte(buf@, q, k)
            == if on_rect_outline(buf_w as int, x as int, y as int, w as int, h as int)(q) && 4 * q + 4 <= buf@.len() {
            color@[k]
        } else {
            pixel_byte(old(buf)@, q, k)
        } by {}
        return;
    }
    proof {
        vstd::arithmetic::mul::lemma_mul_inequality(y as int, (y + h - 1) as int, buf_w as int);
    }
    let ghost b0 = buf@;
    draw_hline(buf, buf_w, x, x + w - 1, y, color);
    let ghost b1 = buf@;
    draw_hline(buf, buf_w, x, x + w - 1, y + h - 1, color);
    let ghost b2 = buf@;
    draw_vline(buf, buf_w, x, y, y + h - 1, color);
    let ghost b3 = buf@;
    draw_vline(buf, buf_w, x + w - 1, y, y + h - 1, color);
    proof {
        let bw = buf_w as int;
        let l1 = on_hline(bw, x as int, x + w - 1, y as int);
        let l2 = on_hline(bw, x as int, x + w - 1, y + h - 1);
        let l3 = on_vline(bw, x as int, y as int, y + h - 1);
        let l4 = on_vline(bw, x + w - 1, y as int, y + h - 1);
        lemma_paint_compose(b0, b1, b2, l1, l2, color);
        let l12 = |q: int| l1(q) || l2(q);
        lemma_paint_compose(b0, b2, b3, l12, l3, color);
        let l123 = |q: int| l12(q) || l3(q);
        lemma_paint_compose(b0, b3, buf@, l123, l4, color);
        let all = on_rect_outline(bw, x as int, y as int, w as int, h as int);
        assert forall|q: int, k: int| 0 <= k < 4 && 0 <= 4 * q + k < buf@.len() implies #[trigger] pixel_byte(buf@, q, k)
            == if all(q) && 4 * q + 4 <= buf@.len() {
            color@[k]
        } else {
            pixel_byte(old(buf)@, q, k)
        } by {
            assert(all(q) == (l123(q) || l4(q)));
        }
    }
}

} // verus!
