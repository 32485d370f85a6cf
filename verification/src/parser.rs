use vstd::prelude::*;
use crate::imagework::{
    decode_pixel, in_image, pixel_of, triangle_resized, ByteOrder, Pixmap, PixmapView, Rgba,
};
use crate::types::{
    coords_for_size, empty_meta, quality_color, scaled_coords, scaled_defined, Color32, Meta,
    Quality, ScreenCoords,
};

verus! {

/// Colour distance (summed over the channels) below which two pixels count
/// as the same colour: 10 per channel.
pub const DRIFT_THRESHOLD3: u32 = 30;

/// Channel sum below which a pixel counts as dark: 32 per channel.
pub const DARK_THRESHOLD3: u32 = 96;

/// Share of mismatching pixels, in percent, below which a rhombus is
/// accepted.
pub const ERR_RATE_PERCENT_THRESHOLD: u32 = 10;

pub open spec fn absdiff(a: int, b: int) -> int {
    if a > b {
        a - b
    } else {
        b - a
    }
}

/// Sum over red, green and blue of the distance between two pixels
/// (alpha is ignored), 0 to 765.
pub open spec fn color_diff(a: Rgba, b: Rgba) -> int {
    absdiff(a.r as int, b.r as int) + absdiff(a.g as int, b.g as int) + absdiff(a.b as int, b.b as int)
}

/// Sum over red, green and blue of the squared channel distance.
pub open spec fn color_diff2(a: Rgba, b: Rgba) -> int {
    let dr = absdiff(a.r as int, b.r as int);
    let dg = absdiff(a.g as int, b.g as int);
    let db = absdiff(a.b as int, b.b as int);
    dr * dr + dg * dg + db * db
}

/// Dark: the channels sum to less than 96 and each is below 100.
pub open spec fn dark(a: Rgba) -> bool {
    a.r + a.g + a.b < DARK_THRESHOLD3 && a.r < 100 && a.g < 100 && a.b < 100
}

/// Colourful: some channel is above 200 (every quality colour has one).
pub open spec fn colorful(a: Rgba) -> bool {
    a.r > 200 || a.g > 200 || a.b > 200
}

pub fn abs_diff(a: u32, b: u32) -> (res: u32)
    ensures
        res == absdiff(a as int, b as int),
{
    if a > b {
        a - b
    } else {
        b - a
    }
}

pub fn c_diff(a: u8, b: u8) -> (res: u32)
    ensures
        res == absdiff(a as int, b as int),
{
    abs_diff(a as u32, b as u32)
}

pub fn rgba_diff(a: Rgba, b: Rgba) -> (res: u32)
    ensures
        res == color_diff(a, b),
        res <= 765,
{
    c_diff(a.r, b.r) + c_diff(a.g, b.g) + c_diff(a.b, b.b)
}

pub fn rgba_diff2(a: Rgba, b: Rgba) -> (res: u32)
    ensures
        res == color_diff2(a, b),
{
    let dr = c_diff(a.r, b.r);
    let dg = c_diff(a.g, b.g);
    let db = c_diff(a.b, b.b);
    assert(dr * dr <= 255 * 255) by (nonlinear_arith)
        requires
            dr <= 255,
    ;
    assert(dg * dg <= 255 * 255) by (nonlinear_arith)
        requires
            dg <= 255,
    ;
    assert(db * db <= 255 * 255) by (nonlinear_arith)
        requires
            db <= 255,
    ;
    dr * dr + dg * dg + db * db
}

pub fn is_dark(a: Rgba) -> (res: bool)
    ensures
        res == dark(a),
{
    (a.r as u32 + a.g as u32 + a.b as u32) < DARK_THRESHOLD3 && (a.r < 100) && (a.g < 100) && (a.b
        < 100)
}

pub fn is_colorful(a: Rgba) -> (res: bool)
    ensures
        res == colorful(a),
{
    (a.r > 200) || (a.g > 200) || (a.b > 200)
}

/// The opaque pixel of a display colour.
pub open spec fn color_rgba(c: Color32) -> Rgba {
    Rgba { r: c.r, g: c.g, b: c.b, a: 255 }
}

pub fn rgba(c: Color32) -> (res: Rgba)
    ensures
        res == color_rgba(c),
{
    Rgba { r: c.r(), g: c.g(), b: c.b(), a: 255 }
}

/// The pixel the game draws for a quality.
pub open spec fn quality_rgba(q: Quality) -> Rgba {
    color_rgba(quality_color(q))
}

/// The order in which the qualities are tried when classifying a colour.
pub open spec fn match_rank(q: Quality) -> int {
    match q {
        Quality::Common => 0,
        Quality::Uncommon => 1,
        Quality::Rare => 2,
        Quality::Epic => 3,
        Quality::Legendary => 4,
        Quality::Unknown => 5,
    }
}

/// The quality whose colour is nearest to `a`, the first one in the order
/// Common, Uncommon, Rare, Epic, Legendary where several are equally near,
/// with its distance.
pub open spec fn best_match(a: Rgba) -> (Quality, u32) {
    let d0 = color_diff(a, quality_rgba(Quality::Common));
    let d1 = color_diff(a, quality_rgba(Quality::Uncommon));
    let d2 = color_diff(a, quality_rgba(Quality::Rare));
    let d3 = color_diff(a, quality_rgba(Quality::Epic));
    let d4 = color_diff(a, quality_rgba(Quality::Legendary));
    let m01 = if d1 < d0 { (Quality::Uncommon, d1) } else { (Quality::Common, d0) };
    let m02 = if d2 < m01.1 { (Quality::Rare, d2) } else { m01 };
    let m03 = if d3 < m02.1 { (Quality::Epic, d3) } else { m02 };
    let m04 = if d4 < m03.1 { (Quality::Legendary, d4) } else { m03 };
    (m04.0, m04.1 as u32)
}

/// `q` at distance `d` is a nearest quality colour to `a`, and no quality
/// tried before `q` is as near.
pub open spec fn is_best_match(a: Rgba, q: Quality, d: u32) -> bool {
    &&& q != Quality::Unknown
    &&& d == color_diff(a, quality_rgba(q))
    &&& forall|o: Quality| o != Quality::Unknown ==> d <= color_diff(a, #[trigger] quality_rgba(o))
    &&& forall|o: Quality|
        o != Quality::Unknown && match_rank(o) < match_rank(q) ==> d < color_diff(
            a,
            #[trigger] quality_rgba(o),
        )
}

pub fn best_quality_match(a: Rgba) -> (res: (Quality, u32))
    ensures
        res == best_match(a),
        is_best_match(a, res.0, res.1),
{
    let d0 = rgba_diff(a, rgba(Quality::Common.to_color32()));
    let d1 = rgba_diff(a, rgba(Quality::Uncommon.to_color32()));
    let d2 = rgba_diff(a, rgba(Quality::Rare.to_color32()));
    let d3 = rgba_diff(a, rgba(Quality::Epic.to_color32()));
    let d4 = rgba_diff(a, rgba(Quality::Legendary.to_color32()));
    let mut best = (Quality::Common, d0);
    if d1 < best.1 {
        best = (Quality::Uncommon, d1);
    }
    if d2 < best.1 {
        best = (Quality::Rare, d2);
    }
    if d3 < best.1 {
        best = (Quality::Epic, d3);
    }
    if d4 < best.1 {
        best = (Quality::Legendary, d4);
    }
    assert forall|o: Quality| o != Quality::Unknown implies best.1 <= color_diff(
        a,
        #[trigger] quality_rgba(o),
    ) by {
        match o {
            Quality::Common => {},
            Quality::Uncommon => {},
            Quality::Rare => {},
            Quality::Epic => {},
            Quality::Legendary => {},
            Quality::Unknown => {},
        }
    }
    best
}

/// A pixel drawn in exactly the colour of a quality is classified as that
/// quality, at distance 0.
pub proof fn lemma_exact_quality_color_matches(q: Quality)
    requires
        q != Quality::Unknown,
    ensures
        best_match(quality_rgba(q)) == (q, 0u32),
{
}

/// The colour distance is symmetric and is 0 exactly between pixels with
/// the same red, green and blue.
pub proof fn lemma_color_diff_metric(a: Rgba, b: Rgba)
    ensures
        color_diff(a, b) == color_diff(b, a),
        color_diff(a, b) >= 0,
        color_diff(a, b) == 0 <==> (a.r == b.r && a.g == b.g && a.b == b.b),
{
}

/// A step of `d` (-1, 0 or 1) from coordinate `v` that stays within the
/// 32-bit signed range in which the walk moves.
pub open spec fn step_ok(v: int, d: int) -> bool {
    !(v == 0x7fff_ffff && d == 1) && !(v == 0x8000_0000 && d == -1)
}

/// Walking from (`x`, `y`) in steps of (`dx`, `dy`), having taken `k`
/// steps so far: the number of steps after which the walk stops, either
/// because it went past `max_dist` steps or because it reached a pixel
/// farther than `max_diff` from `c`. `None` where the walk leaves the image
/// or its coordinates or step count leave their integer ranges first.
pub open spec fn walk_at(
    img: PixmapView,
    x: int,
    y: int,
    dx: int,
    dy: int,
    c: Rgba,
    max_dist: u32,
    max_diff: u32,
    k: u32,
) -> Option<u32>
    decreases max_dist + 1 - k,
{
    if max_dist < k {
        Some(k)
    } else if !in_image(img, x, y) {
        None
    } else if max_diff < color_diff(c, pixel_of(img, x, y)) {
        Some(k)
    } else if !step_ok(x, dx) || !step_ok(y, dy) || k == u32::MAX {
        None
    } else {
        walk_at(img, x + dx, y + dy, dx, dy, c, max_dist, max_diff, (k + 1) as u32)
    }
}

/// How far the colour `c` extends from (`cx`, `cy`) in the direction
/// (`dx`, `dy`): the first step count whose pixel differs from `c` by more
/// than `max_diff`, or `max_dist + 1` if none up to `max_dist` does.
/// `None` where the walk runs off the image first.
pub fn ddist(
    image: &Pixmap,
    cx: u32,
    cy: u32,
    dx: i32,
    dy: i32,
    c: Rgba,
    max_dist: u32,
    max_diff: u32,
) -> (res: Option<u32>)
    requires
        -1 <= dx <= 1,
        -1 <= dy <= 1,
    ensures
        res == walk_at(image@, cx as int, cy as int, dx as int, dy as int, c, max_dist, max_diff, 0),
{
    let w = image.width();
    let h = image.height();
    let mut x: i64 = cx as i64;
    let mut y: i64 = cy as i64;
    let mut len: u32 = 0;
    loop
        invariant
            -1 <= dx <= 1,
            -1 <= dy <= 1,
            w == image@.width,
            h == image@.height,
            -1 <= x <= u32::MAX + 1,
            -1 <= y <= u32::MAX + 1,
            walk_at(image@, cx as int, cy as int, dx as int, dy as int, c, max_dist, max_diff, 0)
                == walk_at(image@, x as int, y as int, dx as int, dy as int, c, max_dist, max_diff, len),
        decreases max_dist + 1 - len,
    {
        if max_dist < len {
            return Some(len);
        }
        if x < 0 || y < 0 || x >= w as i64 || y >= h as i64 {
            return None;
        }
        let p = image.get_pixel(x as u32, y as u32);
        if max_diff < rgba_diff(c, p) {
            return Some(len);
        }
        if (x == 0x7fff_ffff && dx == 1) || (x == 0x8000_0000 && dx == -1) || (y == 0x7fff_ffff && dy
            == 1) || (y == 0x8000_0000 && dy == -1) || len == u32::MAX {
            return None;
        }
        x = x + dx as i64;
        y = y + dy as i64;
        len = len + 1;
    }
}

/// The midpoint, rounded down, of `c - lo` and `c + hi`, computed in 32 bits
/// as `(c - lo + c + hi) / 2`; `None` where a step of that sum leaves the
/// range.
pub open spec fn centre_of(c: int, lo: int, hi: int) -> Option<int> {
    if lo > c || (c - lo) + c > u32::MAX || (c - lo) + c + hi > u32::MAX {
        None
    } else {
        Some(((c - lo) + c + hi) / 2)
    }
}

/// One re-centring of (`cx`, `cy`): measure how far the colour of that
/// pixel extends left, right, up and down (up to `rs` pixels, within the
/// drift threshold), and move to the middle of both extents.
pub open spec fn adjust_step(img: PixmapView, rs: u32, cx: int, cy: int) -> Option<(int, int)> {
    if !in_image(img, cx, cy) {
        None
    } else {
        let c = pixel_of(img, cx, cy);
        let l = walk_at(img, cx, cy, -1, 0, c, rs, DRIFT_THRESHOLD3, 0);
        let r = walk_at(img, cx, cy, 1, 0, c, rs, DRIFT_THRESHOLD3, 0);
        let u = walk_at(img, cx, cy, 0, -1, c, rs, DRIFT_THRESHOLD3, 0);
        let d = walk_at(img, cx, cy, 0, 1, c, rs, DRIFT_THRESHOLD3, 0);
        if l is None || r is None || u is None || d is None {
            None
        } else {
            match (centre_of(cx, l->0 as int, r->0 as int), centre_of(cy, u->0 as int, d->0 as int)) {
                (Some(x), Some(y)) => Some((x, y)),
                _ => None,
            }
        }
    }
}

/// Re-centring repeated at most `n` more times, stopping early once a step
/// moves the point by less than 2 pixels on both axes.
pub open spec fn adjust_from(img: PixmapView, rs: u32, cx: int, cy: int, n: nat) -> Option<(int, int)>
    decreases n,
{
    if n == 0 {
        Some((cx, cy))
    } else {
        match adjust_step(img, rs, cx, cy) {
            None => None,
            Some((x, y)) => if absdiff(cx, x) < 2 && absdiff(cy, y) < 2 {
                Some((x, y))
            } else {
                adjust_from(img, rs, x, y, (n - 1) as nat)
            },
        }
    }
}

/// Moves (`cx0`, `cy0`) to the centre of the patch of uniform colour it
/// lies in, in at most four re-centrings. `None` where a measurement runs
/// off the image or a coordinate leaves the 32-bit range.
pub fn adjust_center(image: &Pixmap, sd: &ScreenCoords, cx0: u32, cy0: u32) -> (res: Option<(u32, u32)>)
    ensures
        match adjust_from(image@, sd.rhombus_size, cx0 as int, cy0 as int, 4) {
            None => res is None,
            Some((x, y)) => res == Some((x as u32, y as u32)) && x == x as u32 && y == y as u32,
        },
{
    let rs = sd.rhombus_size;
    let w = image.width();
    let h = image.height();
    let mut cx = cx0;
    let mut cy = cy0;
    let mut i: u32 = 0;
    while i < 4
        invariant
            i <= 4,
            rs == sd.rhombus_size,
            w == image@.width,
            h == image@.height,
            adjust_from(image@, rs, cx0 as int, cy0 as int, 4) == adjust_from(
                image@,
                rs,
                cx as int,
                cy as int,
                (4 - i) as nat,
            ),
        decreases 4 - i,
    {
        if cx >= w || cy >= h {
            return None;
        }
        let c = image.get_pixel(cx, cy);
        let d_left = match ddist(image, cx, cy, -1, 0, c, rs, DRIFT_THRESHOLD3) {
            Some(d) => d,
            None => {
                return None;
            },
        };
        let d_right = match ddist(image, cx, cy, 1, 0, c, rs, DRIFT_THRESHOLD3) {
            Some(d) => d,
            None => {
                return None;
            },
        };
        let d_up = match ddist(image, cx, cy, 0, -1, c, rs, DRIFT_THRESHOLD3) {
            Some(d) => d,
            None => {
                return None;
            },
        };
        let d_down = match ddist(image, cx, cy, 0, 1, c, rs, DRIFT_THRESHOLD3) {
            Some(d) => d,
            None => {
                return None;
            },
        };
        let cxx = match centre(cx, d_left, d_right) {
            Some(v) => v,
            None => {
                return None;
            },
        };
        let cyy = match centre(cy, d_up, d_down) {
            Some(v) => v,
            None => {
                return None;
            },
        };
        let ok = abs_diff(cx, cxx) < 2 && abs_diff(cy, cyy) < 2;
        cx = cxx;
        cy = cyy;
        if ok {
            return Some((cx, cy));
        }
        i = i + 1;
    }
    Some((cx, cy))
}

fn centre(c: u32, lo: u32, hi: u32) -> (res: Option<u32>)
    ensures
        match centre_of(c as int, lo as int, hi as int) {
            None => res is None,
            Some(v) => res == Some(v as u32) && v == v as u32,
        },
{
    if lo > c {
        return None;
    }
    let a = c - lo;
    match a.checked_add(c) {
        None => None,
        Some(b) => match b.checked_add(hi) {
            None => None,
            Some(s) => Some(s / 2),
        },
    }
}

/// The square window checked around a rhombus centred at (`cx`, `cy`) of
/// diagonal `rs`: its left column, top row and side, `3/4 * rs` to each
/// side of the centre. `None` where those bounds leave the 32-bit range.
pub open spec fn rhombus_window(rs: u32, cx: int, cy: int) -> Option<(int, int, int)> {
    if rs * 7 > u32::MAX {
        None
    } else {
        let d32 = rs * 3 / 4;
        if d32 > cx || cx + d32 > u32::MAX || d32 > cy || cy + d32 > u32::MAX {
            None
        } else {
            Some((cx - d32, cy - d32, 2 * d32))
        }
    }
}

/// Whether pixel (`xx`, `yy`) fits a rhombus of diagonal `rs` and colour
/// `rgba` centred at (`cx`, `cy`): inside 7/16 of the diagonal (in
/// Manhattan distance) it must have the rhombus colour, beyond half the
/// diagonal it must not be colourful, and in between anything goes.
pub open spec fn rhombus_pixel_ok(img: PixmapView, rs: u32, cx: int, cy: int, rgba: Rgba, xx: int, yy: int) -> bool {
    let dist = absdiff(xx, cx) + absdiff(yy, cy);
    let c = pixel_of(img, xx, yy);
    if dist <= rs * 7 / 16 {
        color_diff(c, rgba) < DRIFT_THRESHOLD3
    } else if dist <= rs / 2 {
        true
    } else {
        !colorful(c)
    }
}

/// Number of pixels among the `n` starting at (`x0`, `y`) that do not fit
/// the rhombus.
pub open spec fn bad_in_row(img: PixmapView, rs: u32, cx: int, cy: int, rgba: Rgba, x0: int, y: int, n: nat) -> nat
    decreases n,
{
    if n == 0 {
        0
    } else {
        bad_in_row(img, rs, cx, cy, rgba, x0, y, (n - 1) as nat) + if rhombus_pixel_ok(
            img,
            rs,
            cx,
            cy,
            rgba,
            x0 + n - 1,
            y,
        ) {
            0nat
        } else {
            1nat
        }
    }
}

/// Number of pixels of the `side`-wide rows `y0 .. y0 + m` from column `x0`
/// that do not fit the rhombus.
pub open spec fn bad_in_window(
    img: PixmapView,
    rs: u32,
    cx: int,
    cy: int,
    rgba: Rgba,
    x0: int,
    y0: int,
    side: nat,
    m: nat,
) -> nat
    decreases m,
{
    if m == 0 {
        0
    } else {
        bad_in_window(img, rs, cx, cy, rgba, x0, y0, side, (m - 1) as nat) + bad_in_row(
            img,
            rs,
            cx,
            cy,
            rgba,
            x0,
            y0 + m - 1,
            side,
        )
    }
}

/// Whether a rhombus of diagonal `rs` and colour `rgba` is drawn around
/// (`cx`, `cy`): fewer than 10% of the pixels of its window misfit. `None`
/// where the window leaves the image or the 32-bit range, is empty, or
/// (with `test`) is too large to draw a check map of.
pub open spec fn rhombus_check(img: PixmapView, rs: u32, cx: int, cy: int, rgba: Rgba, test: bool) -> Option<bool> {
    match rhombus_window(rs, cx, cy) {
        None => None,
        Some((x0, y0, side)) => if test && side * side * 4 > usize::MAX {
            None
        } else if side > 0 && (x0 + side > img.width || y0 + side > img.height) {
            None
        } else {
            let bad = bad_in_window(img, rs, cx, cy, rgba, x0, y0, side as nat, side as nat);
            if bad > u32::MAX || bad * 100 > u32::MAX || side * side > u32::MAX || side == 0 {
                None
            } else {
                Some((bad as int) * 100 / (side * side) < ERR_RATE_PERCENT_THRESHOLD)
            }
        },
    }
}

/// Pixel (`x`, `y`) of the check map of the window at (`x0`, `y0`): the
/// image pixel with green raised to 255 where it fits the rhombus and red
/// raised to 255 where it does not.
pub open spec fn checkmap_pixel(
    img: PixmapView,
    rs: u32,
    cx: int,
    cy: int,
    rgba: Rgba,
    x0: int,
    y0: int,
    x: int,
    y: int,
) -> Rgba {
    let c = pixel_of(img, x0 + x, y0 + y);
    if rhombus_pixel_ok(img, rs, cx, cy, rgba, x0 + x, y0 + y) {
        Rgba { r: c.r, g: 255, b: c.b, a: 255 }
    } else {
        Rgba { r: 255, g: c.g, b: c.b, a: 255 }
    }
}

/// `m` is the check map of the rhombus window around (`cx`, `cy`).
pub open spec fn is_checkmap(m: PixmapView, img: PixmapView, rs: u32, cx: int, cy: int, rgba: Rgba) -> bool {
    match rhombus_window(rs, cx, cy) {
        None => false,
        Some((x0, y0, side)) => {
            &&& m.width == side
            &&& m.height == side
            &&& forall|x: int, y: int|
                0 <= x < side && 0 <= y < side ==> #[trigger] pixel_of(m, x, y) == checkmap_pixel(
                    img,
                    rs,
                    cx,
                    cy,
                    rgba,
                    x0,
                    y0,
                    x,
                    y,
                )
        },
    }
}

proof fn lemma_bad_in_row_grows(img: PixmapView, rs: u32, cx: int, cy: int, rgba: Rgba, x0: int, y: int, k: nat, n: nat)
    requires
        k <= n,
    ensures
        bad_in_row(img, rs, cx, cy, rgba, x0, y, k) <= bad_in_row(img, rs, cx, cy, rgba, x0, y, n),
    decreases n,
{
    if k < n {
        lemma_bad_in_row_grows(img, rs, cx, cy, rgba, x0, y, k, (n - 1) as nat);
    }
}

proof fn lemma_bad_in_window_grows(
    img: PixmapView,
    rs: u32,
    cx: int,
    cy: int,
    rgba: Rgba,
    x0: int,
    y0: int,
    side: nat,
    k: nat,
    n: nat,
)
    requires
        k <= n,
    ensures
        bad_in_window(img, rs, cx, cy, rgba, x0, y0, side, k) <= bad_in_window(img, rs, cx, cy, rgba, x0, y0, side, n),
    decreases n,
{
    if k < n {
        lemma_bad_in_window_grows(img, rs, cx, cy, rgba, x0, y0, side, k, (n - 1) as nat);
    }
}

/// A run of solid colour found on the rhombus row: its (re-centred)
/// centre, its colour and the quality that colour is nearest to.
#[derive(Clone, Copy, Debug, PartialEq, Eq, Structural)]
pub struct LineMatch {
    pub cx: u32,
    pub cy: u32,
    pub rgba: Rgba,
    pub quality: Quality,
    pub diff: u32,
}

/// Checks that a rhombus of the line's colour is drawn around the line's
/// centre, and with `test` also draws the check map of its window. `None`
/// where the window cannot be checked (see `rhombus_check`).
pub fn check_rhombus(image: &Pixmap, sd: &ScreenCoords, lm: &LineMatch, test: bool) -> (res: Option<(bool, Option<Pixmap>)>)
    ensures
        rhombus_check(image@, sd.rhombus_size, lm.cx as int, lm.cy as int, lm.rgba, test) is None ==> res is None,
        rhombus_check(image@, sd.rhombus_size, lm.cx as int, lm.cy as int, lm.rgba, test) matches Some(ok) ==> {
            &&& res matches Some((r_ok, map))
            &&& r_ok == ok
            &&& test ==> (map matches Some(m) && is_checkmap(
                m@,
                image@,
                sd.rhombus_size,
                lm.cx as int,
                lm.cy as int,
                lm.rgba,
            ))
            &&& !test ==> map is None
        },
{
    let rs = sd.rhombus_size;
    let cx = lm.cx;
    let cy = lm.cy;
    let color = lm.rgba;
    let ghost img = image@;
    if rs > u32::MAX / 7 {
        return None;
    }
    let d12 = rs / 2;
    let d38 = rs * 7 / 16;
    let d32 = rs * 3 / 4;
    if d32 > cx || cx > u32::MAX - d32 || d32 > cy || cy > u32::MAX - d32 {
        return None;
    }
    let x0 = cx - d32;
    let x1 = cx + d32;
    let y0 = cy - d32;
    let y1 = cy + d32;
    let w = x1 - x0;
    let h = y1 - y0;
    assert(rhombus_window(rs, cx as int, cy as int) == Some((x0 as int, y0 as int, w as int)));
    if test && !crate::imagework::pixels_fit(w, h, usize::MAX) {
        return None;
    }
    if w > 0 && (x1 > image.width() || y1 > image.height()) {
        return None;
    }
    let mut counter: u32 = 0;
    let mut rows: Vec<Vec<Rgba>> = Vec::new();
    let mut y: u32 = 0;
    while y < h
        invariant
            y <= h,
            h == w,
            rs == sd.rhombus_size,
            cx == lm.cx,
            cy == lm.cy,
            color == lm.rgba,
            img == image@,
            d12 == rs / 2,
            d38 == rs * 7 / 16,
            d32 == rs * 3 / 4,
            x0 == cx - d32,
            y0 == cy - d32,
            x1 == x0 + w,
            y1 == y0 + h,
            w == 2 * d32,
            w > 0 ==> x1 <= img.width && y1 <= img.height,
            counter == bad_in_window(img, rs, cx as int, cy as int, color, x0 as int, y0 as int, w as nat, y as nat),
            test ==> rows@.len() == y,
            test ==> forall|yy: int| 0 <= yy < y ==> #[trigger] rows@[yy]@.len() == w,
            test ==> forall|xx: int, yy: int|
                0 <= xx < w && 0 <= yy < y ==> #[trigger] rows@[yy]@[xx] == checkmap_pixel(
                    img,
                    rs,
                    cx as int,
                    cy as int,
                    color,
                    x0 as int,
                    y0 as int,
                    xx,
                    yy,
                ),
        decreases h - y,
    {
        let mut row: Vec<Rgba> = Vec::new();
        let mut x: u32 = 0;
        while x < w
            invariant
                x <= w,
                y < h,
                h == w,
                rs == sd.rhombus_size,
                cx == lm.cx,
                cy == lm.cy,
                color == lm.rgba,
                img == image@,
                d12 == rs / 2,
                d38 == rs * 7 / 16,
                d32 == rs * 3 / 4,
                x0 == cx - d32,
                y0 == cy - d32,
                x1 == x0 + w,
                y1 == y0 + h,
                w == 2 * d32,
                w > 0 ==> x1 <= img.width && y1 <= img.height,
                counter == bad_in_window(img, rs, cx as int, cy as int, color, x0 as int, y0 as int, w as nat, y as nat)
                    + bad_in_row(img, rs, cx as int, cy as int, color, x0 as int, y0 + y, x as nat),
                test ==> row@.len() == x,
                test ==> forall|xx: int|
                    0 <= xx < x ==> #[trigger] row@[xx] == checkmap_pixel(
                        img,
                        rs,
                        cx as int,
                        cy as int,
                        color,
                        x0 as int,
                        y0 as int,
                        xx,
                        y as int,
                    ),
            decreases w - x,
        {
            let xx = x + x0;
            let yy = y + y0;
            let dx = abs_diff(xx, cx);
            let dy = abs_diff(yy, cy);
            let c = image.get_pixel(xx, yy);
            let c_dark = !is_colorful(c);
            let c_match = rgba_diff(c, color) < DRIFT_THRESHOLD3;
            let ok = if dx + dy <= d38 {
                c_match
            } else if dx + dy <= d12 {
                true
            } else {
                c_dark
            };
            assert(ok == rhombus_pixel_ok(img, rs, cx as int, cy as int, color, xx as int, yy as int));
            if !ok {
                if counter == u32::MAX {
                    proof {
                        lemma_bad_in_row_grows(img, rs, cx as int, cy as int, color, x0 as int, y0 + y, (x + 1) as nat, w as nat);
                        lemma_bad_in_window_grows(img, rs, cx as int, cy as int, color, x0 as int, y0 as int, w as nat, (y + 1) as nat, w as nat);
                    }
                    return None;
                }
                counter = counter + 1;
            }
            if test {
                let cc = Rgba {
                    r: if ok { c.r } else { 255u8 },
                    g: if ok { 255u8 } else { c.g },
                    b: c.b,
                    a: 255u8,
                };
                row.push(cc);
            }
            x = x + 1;
        }
        if test {
            rows.push(row);
        }
        y = y + 1;
    }
    let c100 = match counter.checked_mul(100) {
        Some(v) => v,
        None => {
            return None;
        },
    };
    let area = match w.checked_mul(h) {
        Some(v) => v,
        None => {
            return None;
        },
    };
    if area == 0 {
        assert(w == 0) by (nonlinear_arith)
            requires
                area == w * h,
                h == w,
                area == 0,
        ;
        return None;
    }
    let err_rate_percent = c100 / area;
    let ok = err_rate_percent < ERR_RATE_PERCENT_THRESHOLD;
    assert(rhombus_check(img, rs, cx as int, cy as int, color, test) == Some(ok));
    if test {
        let ghost pixels = crate::imagework::rows_view(rows@);
        assert forall|yy: int| 0 <= yy < h implies #[trigger] pixels[yy].len() == w by {
            assert(pixels[yy] == rows@[yy]@);
        }
        let map = Pixmap::from_rows(w, h, rows);
        assert forall|xx: int, yy: int| 0 <= xx < w && 0 <= yy < h implies #[trigger] pixel_of(map@, xx, yy)
            == checkmap_pixel(img, rs, cx as int, cy as int, color, x0 as int, y0 as int, xx, yy) by {
            assert(pixels[yy] == rows@[yy]@);
        }
        Some((ok, Some(map)))
    } else {
        Some((ok, None))
    }
}

/// `map` is what the rhombus check around `m` gives back: with `test` the
/// check map of its window, without it nothing.
pub open spec fn checkmap_result(map: Option<Pixmap>, test: bool, img: PixmapView, rs: u32, m: LineMatch) -> bool {
    &&& test ==> (map matches Some(p) && is_checkmap(p@, img, rs, m.cx as int, m.cy as int, m.rgba))
    &&& !test ==> map is None
}

/// Sum of the colour distances from `cm` of the `n` pixels of row `y`
/// starting at column `x0`.
pub open spec fn solid_sum(img: PixmapView, cm: Rgba, x0: int, y: int, n: nat) -> int
    decreases n,
{
    if n == 0 {
        0
    } else {
        solid_sum(img, cm, x0, y, (n - 1) as nat) + color_diff(cm, pixel_of(img, x0 + n - 1, y))
    }
}

proof fn lemma_solid_sum_grows(img: PixmapView, cm: Rgba, x0: int, y: int, k: nat, n: nat)
    requires
        k <= n,
    ensures
        solid_sum(img, cm, x0, y, k) <= solid_sum(img, cm, x0, y, n),
    decreases n,
{
    if k < n {
        lemma_solid_sum_grows(img, cm, x0, y, k, (n - 1) as nat);
    }
}

/// What a run of colourful pixels on the rhombus row, ended by the dark
/// pixel at column `x` and begun after column `x_left`, amounts to. Its
/// length `x - x_left` must be within 3 of the rhombus diagonal; its middle
/// part (7/8 of its length, around its centre) must on average differ from
/// the centre pixel by less than the drift threshold; then the centre is
/// re-centred in its patch and a rhombus of the centre colour must be
/// found around it. `Some(None)` where one of these fails, `None` where a
/// step leaves the image or an integer range.
pub open spec fn candidate_spec(img: PixmapView, sd: ScreenCoords, test: bool, x_left: int, x: int) -> Option<Option<LineMatch>> {
    let y = sd.rhombus_cy as int;
    let rs = sd.rhombus_size;
    let x_len = x - x_left;
    if !(absdiff(rs as int, x_len) < 4) {
        Some(None)
    } else {
        let cx = (x_left + x) / 2;
        if !in_image(img, cx, y) {
            None
        } else {
            let cm = pixel_of(img, cx, y);
            if x_len * 7 > u32::MAX {
                None
            } else {
                let dx = x_len * 7 / 16;
                let x0 = cx - dx;
                let dd = 2 * dx;
                if dx > cx || (dd > 0 && x0 + dd > img.width) {
                    None
                } else {
                    let s = solid_sum(img, cm, x0, y, dd as nat);
                    if s > u32::MAX || dd == 0 {
                        None
                    } else if s / dd < DRIFT_THRESHOLD3 {
                        let (quality, diff) = best_match(cm);
                        match adjust_from(img, rs, cx, y, 4) {
                            None => None,
                            Some((ax, ay)) => match rhombus_check(img, rs, ax, ay, cm, test) {
                                None => None,
                                Some(ok) => if ok {
                                    Some(
                                        Some(
                                            LineMatch {
                                                cx: ax as u32,
                                                cy: ay as u32,
                                                rgba: cm,
                                                quality,
                                                diff,
                                            },
                                        ),
                                    )
                                } else {
                                    Some(None)
                                },
                            },
                        }
                    } else {
                        Some(None)
                    }
                }
            }
        }
    }
}

/// Scanning the rhombus row from column `x` up to `x_end`, with the last
/// dark column (or the start) at `x_left` and `was_bright` telling whether
/// a colourful pixel came after it: the first run that turns out to be the
/// rhombus (`Some(None)` if none does, `None` where a step leaves the image
/// or an integer range).
pub open spec fn scan_from(
    img: PixmapView,
    sd: ScreenCoords,
    test: bool,
    x: int,
    x_end: int,
    x_left: int,
    was_bright: bool,
) -> Option<Option<LineMatch>>
    decreases x_end - x,
{
    if x >= x_end {
        Some(None)
    } else {
        let y = sd.rhombus_cy as int;
        if !in_image(img, x, y) {
            None
        } else if colorful(pixel_of(img, x, y)) {
            scan_from(img, sd, test, x + 1, x_end, x_left, true)
        } else {
            let here = if was_bright {
                candidate_spec(img, sd, test, x_left, x)
            } else {
                Some(None)
            };
            match here {
                None => None,
                Some(Some(lm)) => Some(Some(lm)),
                Some(None) => scan_from(img, sd, test, x + 1, x_end, x, false),
            }
        }
    }
}

/// The quality rhombus found on a screen of layout `sd`: the row through
/// its centre is scanned from the left edge of the title area to the
/// middle of the screen for a run of colourful pixels of about the
/// rhombus's width. An image of another size than `sd` describes has none.
pub open spec fn rhombus_line(img: PixmapView, sd: ScreenCoords, test: bool) -> Option<Option<LineMatch>> {
    if img.width != sd.screen_width || img.height != sd.screen_height {
        Some(None)
    } else if sd.title_width > img.width {
        None
    } else {
        let x0 = (img.width - sd.title_width) / 2;
        scan_from(img, sd, test, x0 as int, (img.width / 2) as int, x0 as int, false)
    }
}

#[verifier::loop_isolation(false)]
fn candidate(image: &Pixmap, sd: &ScreenCoords, test: bool, x_left: u32, x: u32) -> (res: Option<
    Option<(LineMatch, Option<Pixmap>)>,
>)
    requires
        x_left < x,
        x_left + x <= u32::MAX,
    ensures
        candidate_spec(image@, *sd, test, x_left as int, x as int) is None ==> res is None,
        candidate_spec(image@, *sd, test, x_left as int, x as int) == Some(None::<LineMatch>) ==> res
            == Some(None::<(LineMatch, Option<Pixmap>)>),
        candidate_spec(image@, *sd, test, x_left as int, x as int) matches Some(Some(lm)) ==> (res matches Some(
            Some((m, map)),
        ) && m == lm && checkmap_result(map, test, image@, sd.rhombus_size, m)),
{
    let ghost img = image@;
    let y = sd.rhombus_cy;
    let rs = sd.rhombus_size;
    let x_right = x - 1;
    let x_len = x_right - x_left + 1;
    if !(abs_diff(rs, x_len) < 4) {
        return Some(None);
    }
    let cx = (x_left + x) / 2;
    if cx >= image.width() || y >= image.height() {
        return None;
    }
    let cm = image.get_pixel(cx, y);
    if x_len > u32::MAX / 7 {
        return None;
    }
    let dx = x_len * 7 / 16;
    if dx > cx {
        return None;
    }
    let x0 = cx - dx;
    let dd = dx * 2;
    if dd > 0 && x0 as u64 + dd as u64 > image.width() as u64 {
        return None;
    }
    let mut s: u32 = 0;
    let mut i: u32 = 0;
    while i < dd
        invariant
            i <= dd,
            img == image@,
            dd > 0 ==> x0 + dd <= img.width,
            y < img.height,
            s == solid_sum(img, cm, x0 as int, y as int, i as nat),
        decreases dd - i,
    {
        let c = image.get_pixel(x0 + i, y);
        let d1 = rgba_diff(cm, c);
        match s.checked_add(d1) {
            Some(v) => {
                s = v;
            },
            None => {
                proof {
                    assert(solid_sum(img, cm, x0 as int, y as int, (i + 1) as nat) == s + d1);
                    lemma_solid_sum_grows(img, cm, x0 as int, y as int, (i + 1) as nat, dd as nat);
                }
                return None;
            },
        }
        i = i + 1;
    }
    if dd == 0 {
        return None;
    }
    let d = s / dd;
    if d < DRIFT_THRESHOLD3 {
        let (quality, diff) = best_quality_match(cm);
        let (adj_x, adj_y) = match adjust_center(image, sd, cx, y) {
            Some(p) => p,
            None => {
                return None;
            },
        };
        let lm = LineMatch { cx: adj_x, cy: adj_y, rgba: cm, quality, diff };
        match check_rhombus(image, sd, &lm, test) {
            None => None,
            Some((ok, checkmap)) => {
                if ok {
                    Some(Some((lm, checkmap)))
                } else {
                    Some(None)
                }
            },
        }
    } else {
        Some(None)
    }
}

/// Searches the rhombus row for the quality rhombus. With `test`, the check
/// map of the rhombus that was found comes with it. `None` where the search
/// runs off the image or out of an integer range.
pub fn find_rhombus_line(image: &Pixmap, sd: &ScreenCoords, test: bool) -> (res: Option<
    (Option<LineMatch>, Option<Pixmap>),
>)
    ensures
        rhombus_line(image@, *sd, test) is None ==> res is None,
        rhombus_line(image@, *sd, test) matches Some(found) ==> {
            &&& res matches Some((lm, map))
            &&& lm == found
            &&& found is None ==> map is None
            &&& found matches Some(m) ==> checkmap_result(map, test, image@, sd.rhombus_size, m)
        },
{
    let ghost img = image@;
    let w = image.width();
    let h = image.height();
    if w != sd.screen_width || h != sd.screen_height {
        return Some((None, None));
    }
    if sd.title_width > w {
        return None;
    }
    let x0 = (w - sd.title_width) / 2;
    let x1 = w / 2;
    let y = sd.rhombus_cy;
    let mut x_left = x0;
    let mut was_bright = false;
    let mut x = x0;
    while x < x1
        invariant
            img == image@,
            w == img.width,
            h == img.height,
            x1 == w / 2,
            y == sd.rhombus_cy,
            x0 <= x_left <= x,
            x <= x1 || x0 == x,
            was_bright ==> x_left < x,
            rhombus_line(img, *sd, test) == scan_from(img, *sd, test, x as int, x1 as int, x_left as int, was_bright),
        decreases x1 - x,
    {
        if y >= h {
            return None;
        }
        let c = image.get_pixel(x, y);
        if is_colorful(c) {
            was_bright = true;
        } else {
            if was_bright {
                match candidate(image, sd, test, x_left, x) {
                    None => {
                        return None;
                    },
                    Some(Some((lm, checkmap))) => {
                        return Some((Some(lm), checkmap));
                    },
                    Some(None) => {},
                }
            }
            x_left = x;
            was_bright = false;
        }
        x = x + 1;
    }
    Some((None, None))
}

/// Width of the black frame drawn around the check map in a report.
pub const GAP: u32 = 2;

pub open spec fn opt_view(m: Option<Pixmap>) -> Option<PixmapView> {
    match m {
        Some(p) => Some(p@),
        None => None,
    }
}

/// Pixel (`x`, `y`) of the report on `img`: the image at half size, with
/// the check map, if there is one, drawn in its top left corner inside a
/// black frame `GAP` pixels wide.
pub open spec fn report_pixel(img: PixmapView, map: Option<PixmapView>, x: int, y: int) -> Rgba {
    let half = decode_pixel(
        triangle_resized(img, img.width / 2, img.height / 2),
        y * (img.width / 2) + x,
        ByteOrder::Rgba,
    );
    match map {
        None => half,
        Some(m) => if x < m.width + 2 * GAP && y < m.height + 2 * GAP {
            if x < GAP || y < GAP || m.width + GAP <= x || m.height + GAP <= y {
                Rgba { r: 0, g: 0, b: 0, a: 255 }
            } else {
                pixel_of(m, x - GAP, y - GAP)
            }
        } else {
            half
        },
    }
}

/// The framed check map fits into the half-size image.
pub open spec fn report_fits(img: PixmapView, map: Option<PixmapView>) -> bool {
    match map {
        None => true,
        Some(m) => m.width + 2 * GAP <= img.width / 2 && m.height + 2 * GAP <= img.height / 2,
    }
}

pub open spec fn is_report(r: PixmapView, img: PixmapView, map: Option<PixmapView>) -> bool {
    &&& r.width == img.width / 2
    &&& r.height == img.height / 2
    &&& forall|x: int, y: int|
        0 <= x < r.width && 0 <= y < r.height ==> #[trigger] pixel_of(r, x, y) == report_pixel(
            img,
            map,
            x,
            y,
        )
}

/// The image at half size with the check map drawn over its top left
/// corner; `None` where the framed map does not fit.
pub fn visual_report(image: &Pixmap, checkmap: Option<Pixmap>) -> (res: Option<Pixmap>)
    ensures
        res is Some <==> report_fits(image@, opt_view(checkmap)),
        res matches Some(r) ==> is_report(r@, image@, opt_view(checkmap)),
{
    let ghost img = image@;
    let ghost map = opt_view(checkmap);
    let w = image.width() / 2;
    let h = image.height() / 2;
    let (cw, ch) = match &checkmap {
        Some(src) => (src.width(), src.height()),
        None => (0, 0),
    };
    if checkmap.is_some() && (cw as u64 + 2 * GAP as u64 > w as u64 || ch as u64 + 2 * GAP as u64
        > h as u64) {
        return None;
    }
    let half = image.resize_triangle(w, h);
    let mut rows: Vec<Vec<Rgba>> = Vec::new();
    let mut y: u32 = 0;
    while y < h
        invariant
            y <= h,
            img == image@,
            map == opt_view(checkmap),
            w == img.width / 2,
            h == img.height / 2,
            checkmap matches Some(src) ==> cw == src@.width && ch == src@.height && cw + 2 * GAP <= w
                && ch + 2 * GAP <= h,
            crate::imagework::decodes_to(
                half@,
                triangle_resized(img, w, h),
                w,
                h,
                ByteOrder::Rgba,
            ),
            rows@.len() == y,
            forall|yy: int| 0 <= yy < y ==> #[trigger] rows@[yy]@.len() == w,
            forall|xx: int, yy: int|
                0 <= xx < w && 0 <= yy < y ==> #[trigger] rows@[yy]@[xx] == report_pixel(img, map, xx, yy),
        decreases h - y,
    {
        let mut row: Vec<Rgba> = Vec::new();
        let mut x: u32 = 0;
        while x < w
            invariant
                x <= w,
                y < h,
                img == image@,
                map == opt_view(checkmap),
                w == img.width / 2,
                h == img.height / 2,
                checkmap matches Some(src) ==> cw == src@.width && ch == src@.height && cw + 2 * GAP
                    <= w && ch + 2 * GAP <= h,
                crate::imagework::decodes_to(
                    half@,
                    triangle_resized(img, w, h),
                    w,
                    h,
                    ByteOrder::Rgba,
                ),
                row@.len() == x,
                forall|xx: int| 0 <= xx < x ==> #[trigger] row@[xx] == report_pixel(img, map, xx, y as int),
            decreases w - x,
        {
            let c = match &checkmap {
                Some(src) => {
                    if x < cw + 2 * GAP && y < ch + 2 * GAP {
                        let is_border = x < GAP || y < GAP || cw + GAP <= x || ch + GAP <= y;
                        if is_border {
                            Rgba { r: 0, g: 0, b: 0, a: 255 }
                        } else {
                            src.get_pixel(x - GAP, y - GAP)
                        }
                    } else {
                        half.get_pixel(x, y)
                    }
                },
                None => half.get_pixel(x, y),
            };
            row.push(c);
            x = x + 1;
        }
        rows.push(row);
        y = y + 1;
    }
    let ghost pixels = crate::imagework::rows_view(rows@);
    assert forall|yy: int| 0 <= yy < h implies #[trigger] pixels[yy].len() == w by {
        assert(pixels[yy] == rows@[yy]@);
    }
    let report = Pixmap::from_rows(w, h, rows);
    assert forall|xx: int, yy: int| 0 <= xx < w && 0 <= yy < h implies #[trigger] pixel_of(report@, xx, yy)
        == report_pixel(img, map, xx, yy) by {
        assert(pixels[yy] == rows@[yy]@);
    }
    Some(report)
}

/// The layout for the size of `img`.
pub fn get_screen_coords(image: &Pixmap) -> (res: Option<ScreenCoords>)
    ensures
        res == coords_for_size(image@.width, image@.height),
{
    let width = image.width();
    let height = image.height();
    if width == 2560 && height == 1440 {
        Some(crate::types::sd_base())
    } else if width <= u32::MAX / 2280 && height <= u32::MAX / 152 {
        Some(get_scaled_screen_coords(width, height))
    } else {
        None
    }
}

pub fn get_scaled_screen_coords(width: u32, height: u32) -> (res: ScreenCoords)
    requires
        scaled_defined(width, height),
    ensures
        res == scaled_coords(width, height),
{
    ScreenCoords::scaled(width, height)
}

/// The check map that goes with what the rhombus search found: with `test`
/// and a rhombus, the one its check draws; otherwise none.
pub open spec fn found_fits(img: PixmapView, rs: u32, found: Option<LineMatch>, test: bool) -> bool {
    match found {
        None => true,
        Some(m) => !test || match rhombus_window(rs, m.cx as int, m.cy as int) {
            None => false,
            Some((_x0, _y0, side)) => side + 2 * GAP <= img.width / 2 && side + 2 * GAP <= img.height
                / 2,
        },
    }
}

/// The quality of the rhombus on `img` (`Unknown` if there is none); with
/// `test` the report must also fit. `None` where the search leaves the
/// image or an integer range.
pub open spec fn rhombus_quality(img: PixmapView, test: bool) -> Option<Quality> {
    match coords_for_size(img.width, img.height) {
        None => None,
        Some(sd) => match rhombus_line(img, sd, test) {
            None => None,
            Some(found) => if !found_fits(img, sd.rhombus_size, found, test) {
                None
            } else {
                match found {
                    Some(m) => Some(m.quality),
                    None => Some(Quality::Unknown),
                }
            },
        },
    }
}

/// Pixel (`x`, `y`) of the report that goes with what the search found.
pub open spec fn found_report_pixel(img: PixmapView, rs: u32, found: Option<LineMatch>, x: int, y: int) -> Rgba {
    match found {
        None => report_pixel(img, None, x, y),
        Some(m) => match rhombus_window(rs, m.cx as int, m.cy as int) {
            None => report_pixel(img, None, x, y),
            Some((x0, y0, side)) => {
                let half = report_pixel(img, None, x, y);
                if x < side + 2 * GAP && y < side + 2 * GAP {
                    if x < GAP || y < GAP || side + GAP <= x || side + GAP <= y {
                        Rgba { r: 0, g: 0, b: 0, a: 255 }
                    } else {
                        checkmap_pixel(img, rs, m.cx as int, m.cy as int, m.rgba, x0, y0, x - GAP, y - GAP)
                    }
                } else {
                    half
                }
            },
        },
    }
}

/// The quality of the rhombus on `image`; with `test`, also the report
/// image (half size, with the check map of the rhombus in its corner).
pub fn parse_rhombus_quality(image: &Pixmap, test: bool) -> (res: (Quality, Option<Pixmap>))
    requires
        rhombus_quality(image@, test) is Some,
    ensures
        res.0 == rhombus_quality(image@, test)->0,
        !test ==> res.1 is None,
        test ==> (res.1 matches Some(r) && ({
            let sd = coords_for_size(image@.width, image@.height)->0;
            let found = rhombus_line(image@, sd, test)->0;
            &&& r@.width == image@.width / 2
            &&& r@.height == image@.height / 2
            &&& forall|x: int, y: int|
                0 <= x < r@.width && 0 <= y < r@.height ==> #[trigger] pixel_of(r@, x, y)
                    == found_report_pixel(image@, sd.rhombus_size, found, x, y)
        })),
{
    let ghost img = image@;
    let sd = match get_screen_coords(image) {
        Some(sd) => sd,
        None => {
            return (Quality::Unknown, None);
        },
    };
    let (lm, checkmap) = match find_rhombus_line(image, &sd, test) {
        Some(r) => r,
        None => {
            return (Quality::Unknown, None);
        },
    };
    let quality = match lm {
        Some(u) => u.quality,
        None => Quality::Unknown,
    };
    if test {
        let ghost map = opt_view(checkmap);
        let report = visual_report(image, checkmap);
        match report {
            Some(r) => {
                assert forall|x: int, y: int| 0 <= x < r@.width && 0 <= y < r@.height implies #[trigger] pixel_of(r@, x, y)
                    == found_report_pixel(img, sd.rhombus_size, lm, x, y) by {
                    assert(pixel_of(r@, x, y) == report_pixel(img, map, x, y));
                }
                (quality, Some(r))
            },
            None => (quality, None),
        }
    } else {
        (quality, None)
    }
}

/// What was recognised on a screenshot whose rhombus has quality `q`:
/// nothing but the quality.
pub open spec fn parsed_meta(q: Quality) -> Meta {
    Meta { quality: q, ..empty_meta() }
}

/// Whether `parse` can read `img` (the rhombus search stays inside the
/// image and its integer ranges).
pub open spec fn parse_defined(img: PixmapView) -> bool {
    rhombus_quality(img, false) is Some
}

/// What a screenshot shows: for now only the quality of the item under the
/// cursor, from its rhombus.
pub fn parse(image: &Pixmap) -> (res: Meta)
    requires
        parse_defined(image@),
    ensures
        res == parsed_meta(rhombus_quality(image@, false)->0),
{
    let rhombus_quality = parse_rhombus_quality(image, false).0;
    if rhombus_quality != Quality::Unknown {
        let mut meta = Meta::empty();
        meta.quality = rhombus_quality;
        return meta;
    }
    Meta::empty()
}

/// `parse` on any image: `None` exactly where `parse` cannot read it.
pub fn try_parse(image: &Pixmap) -> (res: Option<Meta>)
    ensures
        parse_defined(image@) ==> res == Some(parsed_meta(rhombus_quality(image@, false)->0)),
        !parse_defined(image@) ==> res is None,
{
    let sd = match get_screen_coords(image) {
        Some(sd) => sd,
        None => {
            return None;
        },
    };
    let quality = match find_rhombus_line(image, &sd, false) {
        Some((Some(lm), _)) => lm.quality,
        Some((None, _)) => Quality::Unknown,
        None => {
            return None;
        },
    };
    let mut meta = Meta::empty();
    meta.quality = quality;
    Some(meta)
}

proof fn lemma_check_without_map(img: PixmapView, rs: u32, cx: int, cy: int, rgba: Rgba)
    ensures
        rhombus_check(img, rs, cx, cy, rgba, true) is Some ==> rhombus_check(img, rs, cx, cy, rgba, false)
            == rhombus_check(img, rs, cx, cy, rgba, true),
{
}

proof fn lemma_candidate_without_map(img: PixmapView, sd: ScreenCoords, x_left: int, x: int)
    ensures
        candidate_spec(img, sd, true, x_left, x) is Some ==> candidate_spec(img, sd, false, x_left, x)
            == candidate_spec(img, sd, true, x_left, x),
{
    let y = sd.rhombus_cy as int;
    let cx = (x_left + x) / 2;
    if let Some((ax, ay)) = adjust_from(img, sd.rhombus_size, cx, y, 4) {
        lemma_check_without_map(img, sd.rhombus_size, ax, ay, pixel_of(img, cx, y));
    }
}

proof fn lemma_scan_without_map(
    img: PixmapView,
    sd: ScreenCoords,
    x: int,
    x_end: int,
    x_left: int,
    was_bright: bool,
)
    ensures
        scan_from(img, sd, true, x, x_end, x_left, was_bright) is Some ==> scan_from(
            img,
            sd,
            false,
            x,
            x_end,
            x_left,
            was_bright,
        ) == scan_from(img, sd, true, x, x_end, x_left, was_bright),
    decreases x_end - x,
{
    if x < x_end {
        lemma_candidate_without_map(img, sd, x_left, x);
        lemma_scan_without_map(img, sd, x + 1, x_end, x_left, true);
        lemma_scan_without_map(img, sd, x + 1, x_end, x, false);
    }
}

/// Asking for the report does not change the quality found: wherever the
/// search with a report succeeds, the search without one finds the same.
pub proof fn lemma_report_keeps_quality(img: PixmapView)
    ensures
        rhombus_quality(img, true) is Some ==> rhombus_quality(img, false) == rhombus_quality(img, true),
{
    if let Some(sd) = coords_for_size(img.width, img.height) {
        if img.width == sd.screen_width && img.height == sd.screen_height && sd.title_width <= img.width {
            let x0 = (img.width - sd.title_width) / 2;
            lemma_scan_without_map(img, sd, x0 as int, (img.width / 2) as int, x0 as int, false);
        }
    }
}

/// The report is the whole image at half size, resized by the triangle
/// filter, everywhere outside the framed check map: with no map at every
/// pixel, and with a map at every pixel right of or below its frame, the
/// same pixel as without one. The same holds of the report that goes with
/// what the search found.
pub proof fn lemma_report_is_half_image_outside_map(
    img: PixmapView,
    map: Option<PixmapView>,
    rs: u32,
    found: Option<LineMatch>,
    x: int,
    y: int,
)
    requires
        0 <= x,
        0 <= y,
    ensures
        report_pixel(img, None, x, y) == decode_pixel(
            triangle_resized(img, img.width / 2, img.height / 2),
            y * (img.width / 2) + x,
            ByteOrder::Rgba,
        ),
        map matches Some(m) && (x >= m.width + 2 * GAP || y >= m.height + 2 * GAP) ==> report_pixel(
            img,
            map,
            x,
            y,
        ) == report_pixel(img, None, x, y),
        found is None ==> found_report_pixel(img, rs, found, x, y) == report_pixel(img, None, x, y),
        found matches Some(m) && (rhombus_window(rs, m.cx as int, m.cy as int) matches Some(
            (x0, y0, side),
        ) && (x >= side + 2 * GAP || y >= side + 2 * GAP)) ==> found_report_pixel(img, rs, found, x, y)
            == report_pixel(img, None, x, y),
{
}

} // verus!
