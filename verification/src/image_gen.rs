//! Turning a poster page into a PNG with a headless Chromium, and checking
//! the PNG it wrote.
//!
//! Finding the browser, running it and decoding the file are done by the
//! application; the library gives the browser's arguments and judges the
//! decoded pixels.

use vstd::prelude::*;
use crate::text::{decimal, push_decimal, push_text, string_views, text_of};

verus! {

/// Extra window height for the browser's own chrome.
pub const WINDOW_SLACK: u32 = 100;

pub open spec fn window_size_text(width: u32, height: u32) -> Seq<char> {
    decimal(width as nat) + ","@ + decimal((height + WINDOW_SLACK) as nat)
}

/// The browser arguments for one screenshot: headless, transparent, at
/// device scale 1, with a throwaway profile directory, at the poster's size
/// plus the window slack, writing to `screenshot_path`, of `html_url`.
pub open spec fn screenshot_arguments(
    profile_dir: Seq<char>,
    width: u32,
    height: u32,
    screenshot_path: Seq<char>,
    html_url: Seq<char>,
) -> Seq<Seq<char>> {
    seq![
        "--headless=new"@,
        "--disable-gpu"@,
        "--hide-scrollbars"@,
        "--default-background-color=00000000"@,
        "--force-device-scale-factor=1"@,
        "--no-first-run"@,
        "--no-default-browser-check"@,
        "--disable-extensions"@,
        "--disable-sync"@,
        "--run-all-compositor-stages-before-draw"@,
        "--virtual-time-budget=10000"@,
        "--user-data-dir="@ + profile_dir,
        "--window-size="@ + window_size_text(width, height),
        "--screenshot="@ + screenshot_path,
        html_url,
    ]
}

/// The arguments that make the browser render `html_url` into a PNG at
/// `screenshot_path`. `profile_dir` and `screenshot_path` are display texts
/// of absolute paths.
pub fn browser_arguments(
    profile_dir: &str,
    width: u32,
    height: u32,
    screenshot_path: &str,
    html_url: &str,
) -> (r: Vec<String>)
    requires
        height + WINDOW_SLACK <= u32::MAX,
    ensures
        string_views(r@) == screenshot_arguments(
            profile_dir@,
            width,
            height,
            screenshot_path@,
            html_url@,
        ),
{
    let mut r: Vec<String> = Vec::new();
    r.push(text_of("--headless=new"));
    r.push(text_of("--disable-gpu"));
    r.push(text_of("--hide-scrollbars"));
    r.push(text_of("--default-background-color=00000000"));
    r.push(text_of("--force-device-scale-factor=1"));
    r.push(text_of("--no-first-run"));
    r.push(text_of("--no-default-browser-check"));
    r.push(text_of("--disable-extensions"));
    r.push(text_of("--disable-sync"));
    r.push(text_of("--run-all-compositor-stages-before-draw"));
    r.push(text_of("--virtual-time-budget=10000"));
    let mut profile = text_of("--user-data-dir=");
    push_text(&mut profile, profile_dir);
    r.push(profile);
    let mut window = text_of("--window-size=");
    push_decimal(&mut window, width as u64);
    push_text(&mut window, ",");
    push_decimal(&mut window, (height + WINDOW_SLACK) as u64);
    assert(window@ =~= "--window-size="@ + window_size_text(width, height));
    r.push(window);
    let mut shot = text_of("--screenshot=");
    push_text(&mut shot, screenshot_path);
    r.push(shot);
    r.push(text_of(html_url));
    assert(string_views(r@) =~= screenshot_arguments(
        profile_dir@,
        width,
        height,
        screenshot_path@,
        html_url@,
    ));
    r
}

/// Screenshots smaller than this many bytes are taken to be blank or corrupted.
pub const MIN_PNG_BYTES: u64 = 1024;

/// Whether a screenshot file of `len` bytes is big enough to be a real image.
pub fn png_size_plausible(len: u64) -> (r: bool)
    ensures
        r == (len >= MIN_PNG_BYTES),
{
    len >= MIN_PNG_BYTES
}

/// What is wrong with a decoded screenshot.
#[derive(Debug, Clone, Copy, PartialEq, Eq, Structural)]
pub enum PngProblem {
    /// Well below the requested size: the render likely failed.
    TooSmall,
    /// Nearly one flat colour: the background likely failed to load.
    NearlyFlat,
}

/// Distance between sampled pixels along an axis of `len` pixels: about 40
/// samples, at least every pixel.
pub open spec fn sample_step(len: int) -> int {
    if len / 40 > 1 {
        len / 40
    } else {
        1
    }
}

/// How far `i` is below `end`, 0 past it.
pub open spec fn remaining(i: int, end: int) -> int {
    if i < end {
        end - i
    } else {
        0
    }
}

/// Channel `c` of pixel (x, y) of a row-major RGB buffer `w` pixels wide.
pub open spec fn pixel(rgb: Seq<u8>, w: int, x: int, y: int, c: int) -> int {
    rgb[3 * (y * w + x) + c] as int
}

pub open spec fn max_of(a: int, b: int) -> int {
    if a >= b {
        a
    } else {
        b
    }
}

pub open spec fn min_of(a: int, b: int) -> int {
    if a <= b {
        a
    } else {
        b
    }
}

/// The largest channel-`c` value among the sampled rows y, y + step, ... of column x (0 if none).
pub open spec fn column_max(rgb: Seq<u8>, w: int, h: int, x: int, y: int, c: int) -> int
    decreases remaining(y, h),
{
    if y < 0 || y >= h {
        0
    } else {
        max_of(pixel(rgb, w, x, y, c), column_max(rgb, w, h, x, y + sample_step(h), c))
    }
}

/// The smallest channel-`c` value among the sampled rows of column x (255 if none).
pub open spec fn column_min(rgb: Seq<u8>, w: int, h: int, x: int, y: int, c: int) -> int
    decreases remaining(y, h),
{
    if y < 0 || y >= h {
        255
    } else {
        min_of(pixel(rgb, w, x, y, c), column_min(rgb, w, h, x, y + sample_step(h), c))
    }
}

/// The largest channel-`c` value among the sampled pixels of columns x, x + step, ...
pub open spec fn grid_max(rgb: Seq<u8>, w: int, h: int, x: int, c: int) -> int
    decreases remaining(x, w),
{
    if x < 0 || x >= w {
        0
    } else {
        max_of(column_max(rgb, w, h, x, 0, c), grid_max(rgb, w, h, x + sample_step(w), c))
    }
}

/// The smallest channel-`c` value among the sampled pixels of columns x, x + step, ...
pub open spec fn grid_min(rgb: Seq<u8>, w: int, h: int, x: int, c: int) -> int
    decreases remaining(x, w),
{
    if x < 0 || x >= w {
        255
    } else {
        min_of(column_min(rgb, w, h, x, 0, c), grid_min(rgb, w, h, x + sample_step(w), c))
    }
}

/// How far apart the sampled colours lie: over the three channels, the sum
/// of the largest minus the smallest sampled value.
pub open spec fn colour_spread(rgb: Seq<u8>, w: int, h: int) -> int {
    (grid_max(rgb, w, h, 0, 0) - grid_min(rgb, w, h, 0, 0)) + (grid_max(rgb, w, h, 0, 1)
        - grid_min(rgb, w, h, 0, 1)) + (grid_max(rgb, w, h, 0, 2) - grid_min(rgb, w, h, 0, 2))
}

/// A spread below this is taken for a flat image.
pub const MIN_COLOUR_SPREAD: u32 = 12;

/// What the check says of a decoded `w`x`h` screenshot requested at
/// `expected_w`x`expected_h`: it may be up to 4 pixels narrower and 120
/// pixels shorter (the browser crops to its viewport), and its sampled
/// colours must not be nearly flat.
pub open spec fn png_verdict(
    rgb: Seq<u8>,
    w: u32,
    h: u32,
    expected_w: u32,
    expected_h: u32,
) -> Result<(), PngProblem> {
    if w < sat_sub_u32(expected_w, 4) || h < sat_sub_u32(expected_h, 120) {
        Err(PngProblem::TooSmall)
    } else if w > 0 && h > 0 && colour_spread(rgb, w as int, h as int) < MIN_COLOUR_SPREAD {
        Err(PngProblem::NearlyFlat)
    } else {
        Ok(())
    }
}

pub open spec fn sat_sub_u32(a: u32, b: u32) -> int {
    if a > b {
        a - b
    } else {
        0
    }
}

/// The decoded screenshots that the check can walk without overflow: an RGB
/// buffer of exactly `w`x`h` pixels, and axes that leave room for one more step.
pub open spec fn png_in_range(rgb: Seq<u8>, w: u32, h: u32) -> bool {
    &&& rgb.len() == 3 * w * h
    &&& w + w / 40 <= u32::MAX
    &&& h + h / 40 <= u32::MAX
}

proof fn lemma_pixel_index(w: int, h: int, x: int, y: int)
    requires
        0 <= x < w,
        0 <= y < h,
    ensures
        0 <= y * w,
        y * w + x < w * h,
        3 * (w * h) == 3 * w * h,
        0 <= 3 * (y * w + x),
        3 * (y * w + x) + 2 < 3 * w * h,
{
    assert(y * w + x < w * h && 0 <= y * w) by (nonlinear_arith)
        requires
            0 <= x < w,
            0 <= y < h,
    ;
    assert(3 * (w * h) == 3 * w * h) by (nonlinear_arith);
}

proof fn lemma_spread_parts(rgb: Seq<u8>, w: int, h: int, c: int)
    requires
        w > 0,
        h > 0,
        rgb.len() == 3 * w * h,
        0 <= c < 3,
    ensures
        0 <= grid_min(rgb, w, h, 0, c) <= grid_max(rgb, w, h, 0, c) <= 255,
{
    lemma_pixel_index(w, h, 0, 0);
    lemma_grid_bounds(rgb, w, h, 0, c);
    assert(grid_max(rgb, w, h, 0, c) >= column_max(rgb, w, h, 0, 0, c));
    assert(column_max(rgb, w, h, 0, 0, c) >= pixel(rgb, w, 0, 0, c));
    assert(grid_min(rgb, w, h, 0, c) <= column_min(rgb, w, h, 0, 0, c));
    assert(column_min(rgb, w, h, 0, 0, c) <= pixel(rgb, w, 0, 0, c));
}

proof fn lemma_column_bounds(rgb: Seq<u8>, w: int, h: int, x: int, y: int, c: int)
    ensures
        0 <= column_max(rgb, w, h, x, y, c) <= 255,
        0 <= column_min(rgb, w, h, x, y, c) <= 255,
    decreases remaining(y, h),
{
    if 0 <= y < h {
        lemma_column_bounds(rgb, w, h, x, y + sample_step(h), c);
    }
}

proof fn lemma_grid_bounds(rgb: Seq<u8>, w: int, h: int, x: int, c: int)
    ensures
        0 <= grid_max(rgb, w, h, x, c) <= 255,
        0 <= grid_min(rgb, w, h, x, c) <= 255,
    decreases remaining(x, w),
{
    if 0 <= x < w {
        lemma_column_bounds(rgb, w, h, x, 0, c);
        lemma_grid_bounds(rgb, w, h, x + sample_step(w), c);
    }
}

/// Every pixel of the buffer has the colour of the first.
pub open spec fn uniform(rgb: Seq<u8>) -> bool {
    forall|i: int| 0 <= i < rgb.len() ==> #[trigger] rgb[i] == rgb[i % 3]
}

proof fn lemma_uniform_column(rgb: Seq<u8>, w: int, h: int, x: int, y: int, c: int)
    requires
        0 <= x < w,
        rgb.len() == 3 * w * h,
        uniform(rgb),
        0 <= c < 3,
    ensures
        column_max(rgb, w, h, x, y, c) == (if 0 <= y < h { rgb[c] as int } else { 0 }),
        column_min(rgb, w, h, x, y, c) == (if 0 <= y < h { rgb[c] as int } else { 255 }),
    decreases remaining(y, h),
{
    if 0 <= y < h {
        lemma_pixel_index(w, h, x, y);
        let i = 3 * (y * w + x) + c;
        assert(i % 3 == c);
        assert(rgb[i] == rgb[i % 3]);
        lemma_uniform_column(rgb, w, h, x, y + sample_step(h), c);
    }
}

proof fn lemma_uniform_grid(rgb: Seq<u8>, w: int, h: int, x: int, c: int)
    requires
        h > 0,
        w > 0,
        rgb.len() == 3 * w * h,
        uniform(rgb),
        0 <= c < 3,
    ensures
        grid_max(rgb, w, h, x, c) == (if 0 <= x < w { rgb[c] as int } else { 0 }),
        grid_min(rgb, w, h, x, c) == (if 0 <= x < w { rgb[c] as int } else { 255 }),
    decreases remaining(x, w),
{
    if 0 <= x < w {
        lemma_uniform_column(rgb, w, h, x, 0, c);
        lemma_uniform_grid(rgb, w, h, x + sample_step(w), c);
    }
}

/// A screenshot of the right size in one flat colour (the page rendered
/// before its background loaded) is rejected as nearly flat.
pub proof fn lemma_uniform_screenshot_rejected(
    rgb: Seq<u8>,
    w: u32,
    h: u32,
    expected_w: u32,
    expected_h: u32,
)
    requires
        w > 0,
        h > 0,
        rgb.len() == 3 * w * h,
        uniform(rgb),
        w >= sat_sub_u32(expected_w, 4),
        h >= sat_sub_u32(expected_h, 120),
    ensures
        png_verdict(rgb, w, h, expected_w, expected_h) == Err::<(), PngProblem>(PngProblem::NearlyFlat),
{
    lemma_uniform_grid(rgb, w as int, h as int, 0, 0);
    lemma_uniform_grid(rgb, w as int, h as int, 0, 1);
    lemma_uniform_grid(rgb, w as int, h as int, 0, 2);
}

/// Dimension and flatness check of a decoded screenshot, given as a
/// row-major RGB buffer of `w`x`h` pixels.
pub fn check_png_pixels(rgb: &[u8], w: u32, h: u32, expected_w: u32, expected_h: u32) -> (r: Result<
    (),
    PngProblem,
>)
    requires
        png_in_range(rgb@, w, h),
    ensures
        r == png_verdict(rgb@, w, h, expected_w, expected_h),
{
    if w < expected_w.saturating_sub(4) || h < expected_h.saturating_sub(120) {
        return Err(PngProblem::TooSmall);
    }
    if w == 0 || h == 0 {
        return Ok(());
    }
    let ghost g = rgb@;
    let ghost wi = w as int;
    let ghost hi = h as int;
    let step_x: u32 = if w / 40 > 1 {
        w / 40
    } else {
        1
    };
    let step_y: u32 = if h / 40 > 1 {
        h / 40
    } else {
        1
    };
    let mut min0: u8 = 255;
    let mut min1: u8 = 255;
    let mut min2: u8 = 255;
    let mut max0: u8 = 0;
    let mut max1: u8 = 0;
    let mut max2: u8 = 0;
    let mut x: u32 = 0;
    while x < w
        invariant
            png_in_range(g, w, h),
            g == rgb@,
            wi == w,
            hi == h,
            w > 0,
            h > 0,
            step_x == sample_step(wi),
            step_y == sample_step(hi),
            max_of(max0 as int, grid_max(g, wi, hi, x as int, 0)) == grid_max(g, wi, hi, 0, 0),
            max_of(max1 as int, grid_max(g, wi, hi, x as int, 1)) == grid_max(g, wi, hi, 0, 1),
            max_of(max2 as int, grid_max(g, wi, hi, x as int, 2)) == grid_max(g, wi, hi, 0, 2),
            min_of(min0 as int, grid_min(g, wi, hi, x as int, 0)) == grid_min(g, wi, hi, 0, 0),
            min_of(min1 as int, grid_min(g, wi, hi, x as int, 1)) == grid_min(g, wi, hi, 0, 1),
            min_of(min2 as int, grid_min(g, wi, hi, x as int, 2)) == grid_min(g, wi, hi, 0, 2),
        decreases remaining(x as int, w as int),
    {
        let mut y: u32 = 0;
        while y < h
            invariant
                png_in_range(g, w, h),
                g == rgb@,
                wi == w,
                hi == h,
                x < w,
                step_x == sample_step(wi),
                step_y == sample_step(hi),
                max_of(max_of(max0 as int, column_max(g, wi, hi, x as int, y as int, 0)), grid_max(g, wi, hi, x + step_x, 0)) == grid_max(g, wi, hi, 0, 0),
                max_of(max_of(max1 as int, column_max(g, wi, hi, x as int, y as int, 1)), grid_max(g, wi, hi, x + step_x, 1)) == grid_max(g, wi, hi, 0, 1),
                max_of(max_of(max2 as int, column_max(g, wi, hi, x as int, y as int, 2)), grid_max(g, wi, hi, x + step_x, 2)) == grid_max(g, wi, hi, 0, 2),
                min_of(min_of(min0 as int, column_min(g, wi, hi, x as int, y as int, 0)), grid_min(g, wi, hi, x + step_x, 0)) == grid_min(g, wi, hi, 0, 0),
                min_of(min_of(min1 as int, column_min(g, wi, hi, x as int, y as int, 1)), grid_min(g, wi, hi, x + step_x, 1)) == grid_min(g, wi, hi, 0, 1),
                min_of(min_of(min2 as int, column_min(g, wi, hi, x as int, y as int, 2)), grid_min(g, wi, hi, x + step_x, 2)) == grid_min(g, wi, hi, 0, 2),
            decreases remaining(y as int, h as int),
        {
            proof {
                lemma_pixel_index(wi, hi, x as int, y as int);
            }
            let len = rgb.len();
            assert(len as int == 3 * wi * hi);
            assert((y as int) * (w as int) + (x as int) < len);
            let row_start = (y as usize) * (w as usize);
            let base = 3 * (row_start + (x as usize));
            let p0 = rgb[base];
            let p1 = rgb[base + 1];
            let p2 = rgb[base + 2];
            assert(p0 as int == pixel(g, wi, x as int, y as int, 0));
            assert(p1 as int == pixel(g, wi, x as int, y as int, 1));
            assert(p2 as int == pixel(g, wi, x as int, y as int, 2));
            if p0 < min0 { min0 = p0; }
            if p1 < min1 { min1 = p1; }
            if p2 < min2 { min2 = p2; }
            if p0 > max0 { max0 = p0; }
            if p1 > max1 { max1 = p1; }
            if p2 > max2 { max2 = p2; }
            y = y + step_y;
        }
        x = x + step_x;
    }
    proof {
        lemma_spread_parts(g, wi, hi, 0);
        lemma_spread_parts(g, wi, hi, 1);
        lemma_spread_parts(g, wi, hi, 2);
    }
    let spread: u32 = ((max0 as u32) - (min0 as u32)) + ((max1 as u32) - (min1 as u32)) + ((
    max2 as u32) - (min2 as u32));
    if spread < MIN_COLOUR_SPREAD {
        return Err(PngProblem::NearlyFlat);
    }
    Ok(())
}

} // verus!
