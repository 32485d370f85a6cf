use logazer::imagework::{image_from_frame, ColorFormat, Pixmap, Rgba};
use logazer::parser::{
    abs_diff, adjust_center, best_quality_match, c_diff, check_rhombus, ddist, find_rhombus_line, LineMatch,
    get_scaled_screen_coords, get_screen_coords, is_colorful, is_dark, parse, parse_rhombus_quality,
    rgba, rgba_diff, rgba_diff2, try_parse, visual_report,
};
use logazer::types::{sd_base, Meta, Quality, NO_COORD};

const BLACK: Rgba = Rgba { r: 0, g: 0, b: 0, a: 255 };

fn image_with(width: u32, height: u32, f: impl Fn(u32, u32) -> Rgba) -> Pixmap {
    let mut data = Vec::with_capacity((width * height * 4) as usize);
    for y in 0..height {
        for x in 0..width {
            let p = f(x, y);
            data.extend_from_slice(&[p.r, p.g, p.b, p.a]);
        }
    }
    Pixmap::from_raw(width, height, data).unwrap()
}

fn quality_rgba(q: Quality) -> Rgba {
    rgba(q.to_color32())
}

/// A dark 2560x1440 screen with a rhombus of diagonal 25 (Manhattan radius
/// 12) of colour `c` centred at (`cx`, 69).
fn screen_with_rhombus(cx: u32, c: Rgba) -> Pixmap {
    image_with(2560, 1440, |x, y| if abs_diff(x, cx) + abs_diff(y, 69) <= 12 { c } else { BLACK })
}

/// The same screen with a 25x25 square in place of the rhombus.
fn screen_with_square(cx: u32, c: Rgba) -> Pixmap {
    image_with(2560, 1440, |x, y| if abs_diff(x, cx) <= 12 && abs_diff(y, 69) <= 12 { c } else { BLACK })
}

#[test]
fn abs_diff_both_orders() {
    assert_eq!(abs_diff(3, 10), 7);
    assert_eq!(abs_diff(10, 3), 7);
    assert_eq!(abs_diff(5, 5), 0);
    assert_eq!(c_diff(0, 255), 255);
}

#[test]
fn rgba_diff_sums_channels_ignoring_alpha() {
    let a = Rgba { r: 10, g: 20, b: 30, a: 0 };
    let b = Rgba { r: 20, g: 10, b: 35, a: 255 };
    assert_eq!(rgba_diff(a, b), 25);
    assert_eq!(rgba_diff(b, a), 25);
    assert_eq!(rgba_diff(a, a), 0);
    assert_eq!(rgba_diff2(a, b), 100 + 100 + 25);
}

#[test]
fn dark_and_colorful_pixels() {
    assert!(is_dark(Rgba { r: 30, g: 30, b: 30, a: 255 }));
    assert!(!is_dark(Rgba { r: 32, g: 32, b: 32, a: 255 }));
    assert!(!is_dark(Rgba { r: 0, g: 0, b: 100, a: 255 }));
    assert!(is_colorful(Rgba { r: 0, g: 201, b: 0, a: 255 }));
    assert!(!is_colorful(Rgba { r: 200, g: 200, b: 200, a: 255 }));
}

#[test]
fn exact_quality_colours_match_their_quality() {
    for q in [Quality::Common, Quality::Uncommon, Quality::Rare, Quality::Epic, Quality::Legendary] {
        assert_eq!(best_quality_match(quality_rgba(q)), (q, 0));
    }
}

#[test]
fn nearest_quality_colour_wins() {
    // a slightly faded rare blue
    assert_eq!(best_quality_match(Rgba { r: 5, g: 110, b: 210, a: 255 }), (Quality::Rare, 5 + 3 + 8));
    // black is equally... nearest to rare (0,113,218): 331, to uncommon (48,218,120): 386
    assert_eq!(best_quality_match(BLACK), (Quality::Rare, 331));
}

#[test]
fn ddist_measures_uniform_run() {
    let img = screen_with_rhombus(1100, quality_rgba(Quality::Epic));
    let c = img.get_pixel(1100, 69);
    assert_eq!(ddist(&img, 1100, 69, -1, 0, c, 25, 30), Some(13));
    assert_eq!(ddist(&img, 1100, 69, 1, 0, c, 25, 30), Some(13));
    assert_eq!(ddist(&img, 1100, 69, 0, -1, c, 25, 30), Some(13));
    // bounded by max_dist + 1
    assert_eq!(ddist(&img, 1100, 69, 1, 0, c, 5, 30), Some(6));
    // leaving the image is not defined
    assert_eq!(ddist(&img, 2, 69, -1, 0, BLACK, 25, 30), None);
}

#[test]
fn adjust_center_moves_to_rhombus_centre() {
    let img = screen_with_rhombus(1100, quality_rgba(Quality::Rare));
    assert_eq!(adjust_center(&img, &sd_base(), 1103, 69), Some((1100, 69)));
    assert_eq!(adjust_center(&img, &sd_base(), 1100, 72), Some((1100, 69)));
}

fn line_at(cx: u32, cy: u32, c: Rgba) -> LineMatch {
    LineMatch { cx, cy, rgba: c, quality: Quality::Unknown, diff: 0 }
}

#[test]
fn check_rhombus_accepts_rhombus_and_rejects_square() {
    let c = quality_rgba(Quality::Legendary);
    let img = screen_with_rhombus(1100, c);
    let (ok, map) = check_rhombus(&img, &sd_base(), &line_at(1100, 69, c), false).unwrap();
    assert!(ok);
    assert!(map.is_none());
    let (ok, map) = check_rhombus(&img, &sd_base(), &line_at(1100, 69, c), true).unwrap();
    assert!(ok);
    let map = map.unwrap();
    // window of 2 * (25 * 3 / 4) pixels
    assert_eq!((map.width(), map.height()), (36, 36));
    // a fitting pixel gets green raised, the corner is dark and fits
    assert_eq!(map.get_pixel(18, 18), Rgba { r: c.r, g: 255, b: c.b, a: 255 });
    assert_eq!(map.get_pixel(0, 0), Rgba { r: 0, g: 255, b: 0, a: 255 });
    let square = screen_with_square(1100, c);
    let (ok, _) = check_rhombus(&square, &sd_base(), &line_at(1100, 69, c), false).unwrap();
    assert!(!ok);
}

#[test]
fn check_rhombus_near_the_edge_is_not_defined() {
    let c = quality_rgba(Quality::Common);
    let img = screen_with_rhombus(1100, c);
    assert!(check_rhombus(&img, &sd_base(), &line_at(10, 69, c), false).is_none());
}

#[test]
fn rhombus_of_each_quality_is_found() {
    for q in [Quality::Common, Quality::Uncommon, Quality::Rare, Quality::Epic, Quality::Legendary] {
        let img = screen_with_rhombus(1100, quality_rgba(q));
        let (quality, report) = parse_rhombus_quality(&img, false);
        assert_eq!(quality, q);
        assert!(report.is_none());
        let (lm, map) = find_rhombus_line(&img, &sd_base(), false).unwrap();
        let lm = lm.unwrap();
        assert_eq!((lm.cx, lm.cy, lm.quality, lm.diff), (1100, 69, q, 0));
        assert!(map.is_none());
    }
}

#[test]
fn dark_screen_has_unknown_quality() {
    let img = image_with(2560, 1440, |_, _| BLACK);
    assert_eq!(parse_rhombus_quality(&img, false).0, Quality::Unknown);
    assert_eq!(parse(&img), Meta::empty());
}

#[test]
fn square_is_not_a_rhombus() {
    let img = screen_with_square(1100, quality_rgba(Quality::Epic));
    assert_eq!(parse_rhombus_quality(&img, false).0, Quality::Unknown);
}

#[test]
fn rhombus_outside_search_range_is_ignored() {
    // the search runs from column 980 to 1279 only
    let img = screen_with_rhombus(1500, quality_rgba(Quality::Rare));
    assert_eq!(parse_rhombus_quality(&img, false).0, Quality::Unknown);
}

#[test]
fn parse_reports_only_quality() {
    let img = screen_with_rhombus(1100, quality_rgba(Quality::Uncommon));
    let meta = parse(&img);
    assert_eq!(meta.quality, Quality::Uncommon);
    assert_eq!(meta.entity, logazer::types::Entity::Unknown);
    assert_eq!((meta.x, meta.y, meta.z, meta.a), (NO_COORD, NO_COORD, NO_COORD, NO_COORD));
    assert_eq!(try_parse(&img), Some(meta));
}

#[test]
fn report_has_half_size_and_framed_checkmap() {
    let c = quality_rgba(Quality::Rare);
    let img = screen_with_rhombus(1100, c);
    let (quality, report) = parse_rhombus_quality(&img, true);
    assert_eq!(quality, Quality::Rare);
    let report = report.unwrap();
    assert_eq!((report.width(), report.height()), (1280, 720));
    // frame
    assert_eq!(report.get_pixel(0, 0), BLACK);
    assert_eq!(report.get_pixel(39, 1), BLACK);
    // centre of the check map: the rhombus colour with green raised
    assert_eq!(report.get_pixel(2 + 18, 2 + 18), Rgba { r: c.r, g: 255, b: c.b, a: 255 });
}

#[test]
fn visual_report_without_map_is_half_image() {
    let img = image_with(8, 6, |_, _| Rgba { r: 40, g: 50, b: 60, a: 255 });
    let report = visual_report(&img, None).unwrap();
    assert_eq!((report.width(), report.height()), (4, 3));
    assert_eq!(report.get_pixel(3, 2), Rgba { r: 40, g: 50, b: 60, a: 255 });
}

#[test]
fn visual_report_refuses_oversized_map() {
    let img = image_with(8, 6, |_, _| BLACK);
    let map = image_with(2, 2, |_, _| BLACK);
    assert!(visual_report(&img, Some(map)).is_none());
}

#[test]
fn screen_coords_for_image_sizes() {
    let base = image_with(2560, 1440, |_, _| BLACK);
    assert_eq!(get_screen_coords(&base), Some(sd_base()));
    let small = image_with(1280, 720, |_, _| BLACK);
    let sd = get_screen_coords(&small).unwrap();
    assert_eq!(sd, get_scaled_screen_coords(1280, 720));
    assert_eq!((sd.rhombus_cy, sd.rhombus_size, sd.title_width), (34, 12, 300));
}

#[test]
fn rhombus_on_half_size_screen() {
    // rhombus of diagonal 12 (radius 6) at row 34 of a 1280x720 screen
    let c = quality_rgba(Quality::Epic);
    let img = image_with(1280, 720, |x, y| if abs_diff(x, 550) + abs_diff(y, 34) <= 6 { c } else { BLACK });
    assert_eq!(parse_rhombus_quality(&img, false).0, Quality::Epic);
}

#[test]
fn frame_bytes_become_image() {
    let data = [1u8, 2, 3, 4, 5, 6, 7, 8];
    let bgra = image_from_frame(&data, 2, 1, ColorFormat::Bgra8).unwrap();
    assert_eq!(bgra.get_pixel(0, 0), Rgba { r: 3, g: 2, b: 1, a: 255 });
    assert_eq!(bgra.get_pixel(1, 0), Rgba { r: 7, g: 6, b: 5, a: 255 });
    let rgba8 = image_from_frame(&data, 2, 1, ColorFormat::Rgba8).unwrap();
    assert_eq!(rgba8.get_pixel(1, 0), Rgba { r: 5, g: 6, b: 7, a: 255 });
    assert_eq!(image_from_frame(&data, 3, 1, ColorFormat::Bgra8).err(), Some(logazer::imagework::FrameError::InvalidSize));
    assert_eq!(image_from_frame(&data, 1, 1, ColorFormat::Rgba16F).err(), Some(logazer::imagework::FrameError::UnsupportedFormat));
    // trailing bytes of a partial pixel are ignored
    let data9 = [1u8, 2, 3, 4, 5, 6, 7, 8, 9];
    assert!(image_from_frame(&data9, 2, 1, ColorFormat::Bgra8).is_ok());
    assert!(image_from_frame(&data9, 3, 1, ColorFormat::Bgra8).is_err());
}

#[test]
fn raw_rgba_keeps_alpha() {
    let p = Pixmap::from_raw(1, 1, vec![9, 8, 7, 6]).unwrap();
    assert_eq!(p.get_pixel(0, 0), Rgba { r: 9, g: 8, b: 7, a: 6 });
    assert!(Pixmap::from_raw(2, 1, vec![9, 8, 7, 6]).is_none());
}

#[test]
fn triangle_resize_changes_size_and_keeps_uniform_colour() {
    let c = Rgba { r: 200, g: 100, b: 50, a: 255 };
    let img = image_with(4, 4, |_, _| c);
    let half = img.resize_triangle(2, 2);
    assert_eq!((half.width(), half.height()), (2, 2));
    assert_eq!(half.get_pixel(1, 1), c);
}

#[test]
fn tiny_run_on_small_screen_cannot_be_parsed() {
    // on a 100x100 screen the rhombus is 0 wide: a one-pixel run leaves
    // nothing to average its colour over
    let white = Rgba { r: 255, g: 255, b: 255, a: 255 };
    let img = image_with(100, 100, |x, y| if x == 40 && y == 4 { white } else { BLACK });
    assert_eq!(try_parse(&img), None);
    // without the run the small screen parses to nothing
    let dark = image_with(100, 100, |_, _| BLACK);
    assert_eq!(try_parse(&dark), Some(Meta::empty()));
}

#[test]
fn report_does_not_change_quality() {
    for q in [Quality::Common, Quality::Epic] {
        let img = screen_with_rhombus(1100, quality_rgba(q));
        assert_eq!(parse_rhombus_quality(&img, true).0, parse_rhombus_quality(&img, false).0);
    }
    let dark = image_with(2560, 1440, |_, _| BLACK);
    assert_eq!(parse_rhombus_quality(&dark, true).0, Quality::Unknown);
}

#[test]
fn oversized_screen_cannot_be_scaled() {
    let img = image_with(2_000_000, 1, |_, _| BLACK);
    assert_eq!(get_screen_coords(&img), None);
    assert_eq!(try_parse(&img), None);
}

#[test]
fn rhombus_at_either_end_of_search_range() {
    for cx in [993u32, 1266] {
        let img = screen_with_rhombus(cx, quality_rgba(Quality::Legendary));
        let (lm, _) = find_rhombus_line(&img, &sd_base(), false).unwrap();
        let lm = lm.unwrap();
        assert_eq!((lm.cx, lm.cy, lm.quality), (cx, 69, Quality::Legendary));
        assert_eq!(parse_rhombus_quality(&img, true).0, Quality::Legendary);
    }
}
