use weather_report::image_gen::{browser_arguments, check_png_pixels, png_size_plausible, PngProblem};
use weather_report::video::{check_probe_output, MissingStream};

#[test]
fn probe_output_needs_video_and_audio() {
    assert_eq!(check_probe_output("video,12.000000\naudio,12.005000\n"), Ok(()));
    assert_eq!(check_probe_output("audio,12.0\r\nvideo,12.0\r\n"), Ok(()));
    assert_eq!(check_probe_output("audio,12.0\n"), Err(MissingStream::Video));
    assert_eq!(check_probe_output("video,12.0\n"), Err(MissingStream::Audio));
    assert_eq!(check_probe_output(""), Err(MissingStream::Video));
    assert_eq!(check_probe_output(" video,1\naudio"), Err(MissingStream::Video));
}

#[test]
fn streams_need_a_nonzero_duration() {
    assert_eq!(check_probe_output("video,0\naudio,0\n"), Err(MissingStream::Video));
    assert_eq!(check_probe_output("video,0.000000\naudio,3.1\n"), Err(MissingStream::Video));
    assert_eq!(check_probe_output("video,2.5\naudio,N/A\n"), Err(MissingStream::Audio));
    assert_eq!(check_probe_output("video,2.5\naudio,\n"), Err(MissingStream::Audio));
    assert_eq!(check_probe_output("video\naudio,1\n"), Err(MissingStream::Video));
    assert_eq!(check_probe_output("video,1.2.3\naudio,1\n"), Err(MissingStream::Video));
    assert_eq!(check_probe_output("video,0\nvideo,0.04\naudio,.5\n"), Ok(()));
    assert_eq!(check_probe_output("videos,1\naudio,1\n"), Err(MissingStream::Video));
}

#[test]
fn screenshot_file_must_not_be_tiny() {
    assert!(!png_size_plausible(1023));
    assert!(png_size_plausible(1024));
}

fn image(w: u32, h: u32, f: impl Fn(u32, u32) -> [u8; 3]) -> Vec<u8> {
    let mut v = Vec::new();
    for y in 0..h {
        for x in 0..w {
            v.extend_from_slice(&f(x, y));
        }
    }
    v
}

#[test]
fn flat_screenshots_are_rejected() {
    let flat = image(80, 60, |_, _| [200, 200, 200]);
    assert_eq!(check_png_pixels(&flat, 80, 60, 80, 60), Err(PngProblem::NearlyFlat));
    let nearly = image(80, 60, |x, _| if x == 0 { [205, 203, 202] } else { [200, 200, 200] });
    assert_eq!(check_png_pixels(&nearly, 80, 60, 80, 60), Err(PngProblem::NearlyFlat));
    let varied = image(80, 60, |x, y| [(x * 3) as u8, (y * 4) as u8, 7]);
    assert_eq!(check_png_pixels(&varied, 80, 60, 80, 60), Ok(()));
}

#[test]
fn only_sampled_pixels_count() {
    // 80 pixels wide: every second column is sampled; colour only in odd columns
    let striped = image(80, 40, |x, _| if x % 2 == 1 { [255, 0, 0] } else { [0, 0, 0] });
    assert_eq!(check_png_pixels(&striped, 80, 40, 80, 40), Err(PngProblem::NearlyFlat));
    let sampled = image(80, 40, |x, _| if x % 2 == 0 && x > 0 { [255, 0, 0] } else { [0, 0, 0] });
    assert_eq!(check_png_pixels(&sampled, 80, 40, 80, 40), Ok(()));
}

#[test]
fn undersized_screenshots_are_rejected() {
    let varied = image(80, 60, |x, y| [(x * 3) as u8, (y * 4) as u8, 7]);
    assert_eq!(check_png_pixels(&varied, 80, 60, 85, 60), Err(PngProblem::TooSmall));
    assert_eq!(check_png_pixels(&varied, 80, 60, 84, 180), Ok(()));
    assert_eq!(check_png_pixels(&varied, 80, 60, 80, 181), Err(PngProblem::TooSmall));
    assert_eq!(check_png_pixels(&[], 0, 0, 4, 120), Ok(()));
}

#[test]
fn browser_renders_at_poster_size() {
    let args = browser_arguments("/tmp/profile-1", 1080, 1920, "/out/ig.png", "file:///out/poster_ig.html");
    assert_eq!(args.len(), 15);
    assert_eq!(args[0], "--headless=new");
    assert_eq!(args[10], "--virtual-time-budget=10000");
    assert_eq!(args[11], "--user-data-dir=/tmp/profile-1");
    assert_eq!(args[12], "--window-size=1080,2020");
    assert_eq!(args[13], "--screenshot=/out/ig.png");
    assert_eq!(args[14], "file:///out/poster_ig.html");
}
