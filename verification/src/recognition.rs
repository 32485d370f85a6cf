use vstd::prelude::*;
use crate::imagework::{in_image, pixel_of, PixmapView, Rgba};
use crate::parser::{
    absdiff, adjust_from, adjust_step, bad_in_row, bad_in_window, candidate_spec, color_diff, colorful,
    lemma_exact_quality_color_matches, quality_rgba, rhombus_check, rhombus_line, rhombus_quality,
    rhombus_window, scan_from, solid_sum, walk_at, LineMatch, DRIFT_THRESHOLD3,
};
use crate::types::{coords_for_size, sd_base_spec, Quality, ScreenCoords};

verus! {

pub open spec fn black() -> Rgba {
    Rgba { r: 0, g: 0, b: 0, a: 255 }
}

pub open spec fn white() -> Rgba {
    Rgba { r: 255, g: 255, b: 255, a: 255 }
}

/// Manhattan distance of (`x`, `y`) from (`cx`, `cy`).
pub open spec fn manhattan(x: int, y: int, cx: int, cy: int) -> int {
    absdiff(x, cx) + absdiff(y, cy)
}

/// Pixel (`x`, `y`) of a black screen with the quality rhombus of `q`
/// drawn at column `cx` of the rhombus row: every pixel within Manhattan
/// distance 12 of (`cx`, 69), a diagonal of 25 pixels, has the colour of
/// `q`.
pub open spec fn rhombus_pixel(q: Quality, cx: int, x: int, y: int) -> Rgba {
    if manhattan(x, y, cx, 69) <= 12 {
        quality_rgba(q)
    } else {
        black()
    }
}

/// The black 2560x1440 screen with the quality rhombus of `q` at column
/// `cx`.
pub open spec fn rhombus_screen(q: Quality, cx: int) -> PixmapView {
    PixmapView {
        width: 2560,
        height: 1440,
        pixels: Seq::new(1440, |y: int| Seq::new(2560, |x: int| rhombus_pixel(q, cx, x, y))),
    }
}

/// `img` is a 2560x1440 screen that, from column `c0` rightwards, looks
/// like the screen with the quality rhombus of `q` at column `cx`; what it
/// shows left of `c0` is free.
pub open spec fn shows_rhombus_from(img: PixmapView, q: Quality, cx: int, c0: int) -> bool {
    &&& img.width == 2560
    &&& img.height == 1440
    &&& forall|x: int, y: int|
        c0 <= x < 2560 && 0 <= y < 1440 ==> #[trigger] pixel_of(img, x, y) == rhombus_pixel(q, cx, x, y)
}

proof fn lemma_screen_pixel(img: PixmapView, q: Quality, cx: int, x: int, y: int)
    requires
        shows_rhombus_from(img, q, cx, cx - 18),
        cx - 18 <= x < 2560,
        0 <= y < 1440,
    ensures
        pixel_of(img, x, y) == rhombus_pixel(q, cx, x, y),
{
}

proof fn lemma_quality_colours(q: Quality)
    requires
        q != Quality::Unknown,
    ensures
        colorful(quality_rgba(q)),
        !colorful(black()),
        colorful(white()),
        color_diff(quality_rgba(q), quality_rgba(q)) == 0,
        color_diff(quality_rgba(q), black()) > DRIFT_THRESHOLD3,
{
}

/// Walking outwards from a pixel of the rhombus along a row or a column
/// stops at the first pixel past its edge.
proof fn lemma_walk_out(img: PixmapView, q: Quality, cx: int, x: int, y: int, dx: int, dy: int, k: u32)
    requires
        shows_rhombus_from(img, q, cx, cx - 18),
        q != Quality::Unknown,
        993 <= cx <= 1266,
        (dx == 1 || dx == -1) && dy == 0 && y == 69 || (dy == 1 || dy == -1) && dx == 0 && x == cx,
        dx == 1 ==> x >= cx,
        dx == -1 ==> x <= cx,
        dy == 1 ==> y >= 69,
        dy == -1 ==> y <= 69,
        manhattan(x, y, cx, 69) <= 12,
        k + 13 - manhattan(x, y, cx, 69) <= 25,
    ensures
        walk_at(img, x, y, dx, dy, quality_rgba(q), 25, DRIFT_THRESHOLD3, k) == Some(
            (k + 13 - manhattan(x, y, cx, 69)) as u32,
        ),
    decreases 12 - manhattan(x, y, cx, 69),
{
    lemma_quality_colours(q);
    lemma_screen_pixel(img, q, cx, x, y);
    lemma_screen_pixel(img, q, cx, x + dx, y + dy);
    if manhattan(x, y, cx, 69) < 12 {
        lemma_walk_out(img, q, cx, x + dx, y + dy, dx, dy, (k + 1) as u32);
    } else {
        assert(walk_at(img, x + dx, y + dy, dx, dy, quality_rgba(q), 25, DRIFT_THRESHOLD3, (k + 1) as u32)
            == Some((k + 1) as u32));
    }
}

/// Re-centring at the centre of the rhombus stays there.
proof fn lemma_adjust_at_centre(img: PixmapView, q: Quality, cx: int)
    requires
        shows_rhombus_from(img, q, cx, cx - 18),
        q != Quality::Unknown,
        993 <= cx <= 1266,
    ensures
        adjust_from(img, 25, cx, 69, 4) == Some((cx, 69int)),
{
    lemma_screen_pixel(img, q, cx, cx, 69);
    lemma_walk_out(img, q, cx, cx, 69, -1, 0, 0);
    lemma_walk_out(img, q, cx, cx, 69, 1, 0, 0);
    lemma_walk_out(img, q, cx, cx, 69, 0, -1, 0);
    lemma_walk_out(img, q, cx, cx, 69, 0, 1, 0);
    assert(adjust_step(img, 25, cx, 69) == Some((cx, 69int)));
}

proof fn lemma_window_row_fits(img: PixmapView, q: Quality, cx: int, y: int, n: nat)
    requires
        shows_rhombus_from(img, q, cx, cx - 18),
        q != Quality::Unknown,
        993 <= cx <= 1266,
        51 <= y < 87,
        n <= 36,
    ensures
        bad_in_row(img, 25, cx, 69, quality_rgba(q), cx - 18, y, n) == 0,
    decreases n,
{
    if n > 0 {
        lemma_window_row_fits(img, q, cx, y, (n - 1) as nat);
        lemma_quality_colours(q);
        lemma_screen_pixel(img, q, cx, cx - 18 + n - 1, y);
    }
}

proof fn lemma_window_fits(img: PixmapView, q: Quality, cx: int, m: nat)
    requires
        shows_rhombus_from(img, q, cx, cx - 18),
        q != Quality::Unknown,
        993 <= cx <= 1266,
        m <= 36,
    ensures
        bad_in_window(img, 25, cx, 69, quality_rgba(q), cx - 18, 51, 36, m) == 0,
    decreases m,
{
    if m > 0 {
        lemma_window_fits(img, q, cx, (m - 1) as nat);
        lemma_window_row_fits(img, q, cx, 51 + m - 1, 36);
    }
}

proof fn lemma_run_is_solid(img: PixmapView, q: Quality, cx: int, n: nat)
    requires
        shows_rhombus_from(img, q, cx, cx - 18),
        993 <= cx <= 1266,
        n <= 22,
    ensures
        solid_sum(img, quality_rgba(q), cx - 11, 69, n) == 0,
    decreases n,
{
    if n > 0 {
        lemma_run_is_solid(img, q, cx, (n - 1) as nat);
        lemma_screen_pixel(img, q, cx, cx - 11 + n - 1, 69);
    }
}

/// The line match the rhombus of `q` at column `cx` gives.
pub open spec fn rhombus_match(q: Quality, cx: int) -> LineMatch {
    LineMatch { cx: cx as u32, cy: 69, rgba: quality_rgba(q), quality: q, diff: 0 }
}

proof fn lemma_candidate_at_rhombus(img: PixmapView, q: Quality, cx: int, test: bool)
    requires
        shows_rhombus_from(img, q, cx, cx - 18),
        q != Quality::Unknown,
        993 <= cx <= 1266,
    ensures
        candidate_spec(img, sd_base_spec(), test, cx - 13, cx + 13) == Some(Some(rhombus_match(q, cx))),
{
    lemma_screen_pixel(img, q, cx, cx, 69);
    lemma_run_is_solid(img, q, cx, 22);
    lemma_exact_quality_color_matches(q);
    lemma_adjust_at_centre(img, q, cx);
    lemma_window_fits(img, q, cx, 36);
    assert(rhombus_window(25, cx, 69) == Some((cx - 18, 51int, 36int)));
    assert(bad_in_window(img, 25, cx, 69, quality_rgba(q), cx - 18, 51, 36nat, 36nat) == 0);
    assert(!(cx - 18 + 36 > img.width || 51 + 36 > img.height));
    assert(36 * 36 * 4 <= usize::MAX);
    assert(rhombus_check(img, 25, cx, 69, quality_rgba(q), false) == Some(true));
    assert(rhombus_check(img, 25, cx, 69, quality_rgba(q), test) == Some(true));
}

/// Scanning over dark pixels: no run ends there, and the scan carries on
/// after them with the last of them as the run's left edge.
proof fn lemma_scan_dark(
    img: PixmapView,
    sd: ScreenCoords,
    test: bool,
    x: int,
    e: int,
    x_end: int,
    x_left: int,
)
    requires
        0 <= x < e <= x_end,
        e <= img.width,
        sd.rhombus_cy < img.height,
        forall|xx: int| x <= xx < e ==> !colorful(#[trigger] pixel_of(img, xx, sd.rhombus_cy as int)),
    ensures
        scan_from(img, sd, test, x, x_end, x_left, false) == scan_from(img, sd, test, e, x_end, e - 1, false),
    decreases e - x,
{
    assert(!colorful(pixel_of(img, x, sd.rhombus_cy as int)));
    if x + 1 < e {
        lemma_scan_dark(img, sd, test, x + 1, e, x_end, x);
    }
}

/// Scanning over colourful pixels: the scan carries on after them with a
/// run under way and its left edge unchanged.
proof fn lemma_scan_bright(
    img: PixmapView,
    sd: ScreenCoords,
    test: bool,
    x: int,
    e: int,
    x_end: int,
    x_left: int,
    was_bright: bool,
)
    requires
        0 <= x < e <= x_end,
        e <= img.width,
        sd.rhombus_cy < img.height,
        forall|xx: int| x <= xx < e ==> colorful(#[trigger] pixel_of(img, xx, sd.rhombus_cy as int)),
    ensures
        scan_from(img, sd, test, x, x_end, x_left, was_bright) == scan_from(img, sd, test, e, x_end, x_left, true),
    decreases e - x,
{
    assert(colorful(pixel_of(img, x, sd.rhombus_cy as int)));
    if x + 1 < e {
        lemma_scan_bright(img, sd, test, x + 1, e, x_end, x_left, true);
    }
}

/// A rejected run never ends the scan: if scanning the row up to column
/// `s` finds nothing (and stays in range), and the pixel just before `s`
/// is dark, the scan of the whole row goes on from `s` as if it had just
/// started there.
pub proof fn lemma_scan_resumes_after_nothing_found(
    img: PixmapView,
    sd: ScreenCoords,
    test: bool,
    x: int,
    s: int,
    x_end: int,
    x_left: int,
    was_bright: bool,
)
    requires
        x < s <= x_end,
        !colorful(pixel_of(img, s - 1, sd.rhombus_cy as int)),
        scan_from(img, sd, test, x, s, x_left, was_bright) == Some(None::<LineMatch>),
    ensures
        scan_from(img, sd, test, x, x_end, x_left, was_bright) == scan_from(img, sd, test, s, x_end, s - 1, false),
    decreases s - x,
{
    if x + 1 < s {
        let y = sd.rhombus_cy as int;
        if colorful(pixel_of(img, x, y)) {
            lemma_scan_resumes_after_nothing_found(img, sd, test, x + 1, s, x_end, x_left, true);
        } else {
            lemma_scan_resumes_after_nothing_found(img, sd, test, x + 1, s, x_end, x, false);
        }
    }
}

/// From a dark column `s` left of the rhombus, with the row dark up to the
/// rhombus, the scan finds the rhombus of `q`.
proof fn lemma_rhombus_found_from(img: PixmapView, q: Quality, cx: int, s: int, x_left: int, test: bool)
    requires
        shows_rhombus_from(img, q, cx, cx - 18),
        q != Quality::Unknown,
        993 <= cx <= 1266,
        980 <= s <= cx - 13,
        forall|xx: int| s <= xx <= cx - 13 ==> !colorful(#[trigger] pixel_of(img, xx, 69)),
    ensures
        scan_from(img, sd_base_spec(), test, s, 1280, x_left, false) == Some(Some(rhombus_match(q, cx))),
{
    let sd = sd_base_spec();
    lemma_quality_colours(q);
    lemma_scan_dark(img, sd, test, s, cx - 12, 1280, x_left);
    assert forall|xx: int| cx - 12 <= xx < cx + 13 implies colorful(#[trigger] pixel_of(img, xx, 69)) by {
        lemma_screen_pixel(img, q, cx, xx, 69);
    }
    lemma_scan_bright(img, sd, test, cx - 12, cx + 13, 1280, cx - 13, false);
    lemma_candidate_at_rhombus(img, q, cx, test);
    lemma_screen_pixel(img, q, cx, cx + 13, 69);
    assert(scan_from(img, sd, test, cx + 13, 1280, cx - 13, true) == Some(Some(rhombus_match(q, cx))));
}

/// A screen that shows the quality rhombus of `q` reads as `q`, whatever
/// it shows left of the rhombus on its row, so long as the search finds
/// nothing there: if scanning from the start of the search range (column
/// 980) up to a column `s` finds nothing, and the row is dark from just
/// before `s` up to the rhombus, the screen reads as `q`.
pub proof fn lemma_rhombus_found_after_rejected_runs(img: PixmapView, q: Quality, cx: int, s: int, test: bool)
    requires
        shows_rhombus_from(img, q, cx, cx - 18),
        q != Quality::Unknown,
        993 <= cx <= 1266,
        981 <= s <= cx - 12,
        forall|xx: int| s - 1 <= xx <= cx - 13 ==> !colorful(#[trigger] pixel_of(img, xx, 69)),
        scan_from(img, sd_base_spec(), test, 980, s, 980, false) == Some(None::<LineMatch>),
    ensures
        rhombus_line(img, sd_base_spec(), test) == Some(Some(rhombus_match(q, cx))),
        rhombus_quality(img, test) == Some(q),
{
    let sd = sd_base_spec();
    assert(!colorful(pixel_of(img, s - 1, 69)));
    lemma_scan_resumes_after_nothing_found(img, sd, test, 980, s, 1280, 980, false);
    lemma_rhombus_found_from(img, q, cx, s - 1, s - 1, test);
    if s - 1 < cx - 13 {
        lemma_scan_dark(img, sd, test, s - 1, s, 1280, s - 1);
    }
    assert(scan_from(img, sd, test, s, 1280, s - 1, false) == Some(Some(rhombus_match(q, cx)))) by {
        if s - 1 < cx - 13 {
            lemma_scan_dark(img, sd, test, s - 1, s, 1280, s - 1);
            lemma_scan_dark(img, sd, test, s, cx - 12, 1280, s - 1);
            lemma_rhombus_found_from(img, q, cx, s, s - 1, test);
        } else {
            lemma_rhombus_found_from(img, q, cx, s - 1, s - 1, test);
            assert(!colorful(pixel_of(img, s - 1, 69)));
        }
    }
    assert(coords_for_size(2560, 1440) == Some(sd));
    assert(rhombus_window(25, cx, 69) == Some((cx - 18, 51int, 36int)));
}

/// On the rhombus screen, the row is dark from the start of the search up
/// to the rhombus, so the scan reaches the rhombus with nothing found.
proof fn lemma_scan_dark_prefix(q: Quality, cx: int, x: int, x_left: int, test: bool)
    requires
        993 <= cx <= 1266,
        980 <= x <= cx - 13,
    ensures
        scan_from(rhombus_screen(q, cx), sd_base_spec(), test, x, 1280, x_left, false) == scan_from(
            rhombus_screen(q, cx),
            sd_base_spec(),
            test,
            cx - 12,
            1280,
            cx - 13,
            false,
        ),
{
    let img = rhombus_screen(q, cx);
    assert forall|xx: int| x <= xx < cx - 12 implies !colorful(#[trigger] pixel_of(img, xx, 69)) by {}
    lemma_scan_dark(img, sd_base_spec(), test, x, cx - 12, 1280, x_left);
}

/// On the rhombus screen, the rhombus's pixels on its row form one run.
proof fn lemma_scan_run(q: Quality, cx: int, x: int, was_bright: bool, test: bool)
    requires
        q != Quality::Unknown,
        993 <= cx <= 1266,
        cx - 12 <= x <= cx + 12,
    ensures
        scan_from(rhombus_screen(q, cx), sd_base_spec(), test, x, 1280, cx - 13, was_bright) == scan_from(
            rhombus_screen(q, cx),
            sd_base_spec(),
            test,
            cx + 13,
            1280,
            cx - 13,
            true,
        ),
{
    let img = rhombus_screen(q, cx);
    lemma_quality_colours(q);
    assert forall|xx: int| x <= xx < cx + 13 implies colorful(#[trigger] pixel_of(img, xx, 69)) by {}
    lemma_scan_bright(img, sd_base_spec(), test, x, cx + 13, 1280, cx - 13, was_bright);
}

/// A screen showing the quality rhombus of `q`, drawn in the exact colour of
/// `q` on black anywhere in the searched part of its row, reads as `q`,
/// with or without a report.
pub proof fn lemma_drawn_rhombus_is_recognised(q: Quality, cx: int, test: bool)
    requires
        q != Quality::Unknown,
        993 <= cx <= 1266,
    ensures
        rhombus_quality(rhombus_screen(q, cx), test) == Some(q),
        rhombus_line(rhombus_screen(q, cx), sd_base_spec(), test) == Some(Some(rhombus_match(q, cx))),
{
    let img = rhombus_screen(q, cx);
    assert(shows_rhombus_from(img, q, cx, cx - 18));
    lemma_scan_dark_prefix(q, cx, 980, 980, test);
    lemma_scan_run(q, cx, cx - 12, false, test);
    lemma_candidate_at_rhombus(img, q, cx, test);
    lemma_quality_colours(q);
    assert(scan_from(img, sd_base_spec(), test, cx + 13, 1280, cx - 13, true) == Some(Some(rhombus_match(q, cx))));
    assert(coords_for_size(2560, 1440) == Some(sd_base_spec()));
    assert(rhombus_window(25, cx, 69) == Some((cx - 18, 51int, 36int)));
}

/// The rhombus screen of `q` at column `cx` with a white mark on the
/// rhombus row, over the `n` columns from column `a`.
pub open spec fn marked_rhombus_screen(q: Quality, cx: int, a: int, n: int) -> PixmapView {
    PixmapView {
        width: 2560,
        height: 1440,
        pixels: Seq::new(
            1440,
            |y: int|
                Seq::new(
                    2560,
                    |x: int|
                        if y == 69 && a <= x < a + n {
                            white()
                        } else {
                            rhombus_pixel(q, cx, x, y)
                        },
                ),
        ),
    }
}

/// A colourful mark left of the rhombus that is too short to be the
/// rhombus (at most 20 pixels, against a rhombus 25 wide) is passed over:
/// the screen still reads as the rhombus's quality.
pub proof fn lemma_short_mark_is_passed_over(q: Quality, cx: int, a: int, n: int, test: bool)
    requires
        q != Quality::Unknown,
        993 <= cx <= 1266,
        981 <= a,
        1 <= n <= 20,
        a + n + 1 <= cx - 18,
    ensures
        rhombus_quality(marked_rhombus_screen(q, cx, a, n), test) == Some(q),
{
    let img = marked_rhombus_screen(q, cx, a, n);
    let sd = sd_base_spec();
    let s = a + n + 1;
    lemma_quality_colours(q);
    assert(shows_rhombus_from(img, q, cx, cx - 18));
    // the prefix: dark up to the mark, the mark, then the dark pixel that
    // ends it, where the run (one dark pixel and the mark) is too short
    assert forall|xx: int| 980 <= xx < a implies !colorful(#[trigger] pixel_of(img, xx, 69)) by {}
    assert forall|xx: int| a <= xx < a + n implies colorful(#[trigger] pixel_of(img, xx, 69)) by {}
    assert(!colorful(pixel_of(img, a + n, 69)));
    lemma_scan_dark(img, sd, test, 980, a, s, 980);
    lemma_scan_bright(img, sd, test, a, a + n, s, a - 1, false);
    assert(candidate_spec(img, sd, test, a - 1, a + n) == Some(None::<LineMatch>));
    assert(scan_from(img, sd, test, a + n + 1, s, a + n, false) == Some(None::<LineMatch>));
    assert(scan_from(img, sd, test, a + n, s, a - 1, true) == Some(None::<LineMatch>));
    assert(scan_from(img, sd, test, 980, s, 980, false) == Some(None::<LineMatch>));
    assert forall|xx: int| s - 1 <= xx <= cx - 13 implies !colorful(#[trigger] pixel_of(img, xx, 69)) by {}
    lemma_rhombus_found_after_rejected_runs(img, q, cx, s, test);
}

proof fn lemma_scan_all_dark(img: PixmapView, sd: ScreenCoords, test: bool, x: int, x_end: int, x_left: int)
    requires
        x_end <= img.width,
        0 <= sd.rhombus_cy < img.height,
        0 <= x,
        forall|xx: int| x <= xx < x_end ==> !colorful(#[trigger] pixel_of(img, xx, sd.rhombus_cy as int)),
    ensures
        scan_from(img, sd, test, x, x_end, x_left, false) == Some(None::<LineMatch>),
    decreases x_end - x,
{
    if x < x_end {
        assert(!colorful(pixel_of(img, x, sd.rhombus_cy as int)));
        lemma_scan_all_dark(img, sd, test, x + 1, x_end, x);
    }
}

/// A screen on which no pixel of the searched part of the rhombus row is
/// colourful reads as `Unknown`.
pub proof fn lemma_no_colour_no_quality(img: PixmapView, test: bool)
    requires
        coords_for_size(img.width, img.height) is Some,
        coords_for_size(img.width, img.height)->0.rhombus_cy < img.height,
        forall|x: int|
            (img.width - coords_for_size(img.width, img.height)->0.title_width) / 2 <= x < img.width / 2
                ==> !colorful(
                #[trigger] pixel_of(img, x, coords_for_size(img.width, img.height)->0.rhombus_cy as int),
            ),
    ensures
        rhombus_quality(img, test) == Some(Quality::Unknown),
{
    let sd = coords_for_size(img.width, img.height)->0;
    let x0 = (img.width - sd.title_width) / 2;
    lemma_scan_all_dark(img, sd, test, x0 as int, (img.width / 2) as int, x0 as int);
}

} // verus!
