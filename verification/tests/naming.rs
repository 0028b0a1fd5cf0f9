use simple_screenshot_tool::clock::current_filename;
use simple_screenshot_tool::filename::{file_path, output_directory, screenshot_filename, LocalTime};

#[test]
fn filename_for_a_known_instant_is_exact() {
    let t = LocalTime { year: 2024, month: 3, day: 7, hour: 9, minute: 5, second: 2 };
    assert_eq!(screenshot_filename(&t), "screenshot_20240307_090502.png");
}

#[test]
fn filename_zero_pads_every_field() {
    let t = LocalTime { year: 1, month: 1, day: 1, hour: 0, minute: 0, second: 0 };
    assert_eq!(screenshot_filename(&t), "screenshot_00010101_000000.png");
}

#[test]
fn filename_uses_full_width_fields() {
    let t = LocalTime { year: 9999, month: 12, day: 31, hour: 23, minute: 59, second: 59 };
    assert_eq!(screenshot_filename(&t), "screenshot_99991231_235959.png");
}

#[test]
fn output_directory_appends_the_fixed_subdirectory() {
    assert_eq!(
        output_directory(Some(String::from("/home/someone/Pictures"))),
        "/home/someone/Pictures/SimpleScreenshotTool"
    );
}

#[test]
fn output_directory_falls_back_to_the_working_directory() {
    assert_eq!(output_directory(None), "./SimpleScreenshotTool");
}

#[test]
fn file_path_joins_directory_and_name() {
    assert_eq!(
        file_path("./SimpleScreenshotTool", "screenshot_20240307_090502.png"),
        "./SimpleScreenshotTool/screenshot_20240307_090502.png"
    );
}

#[test]
fn current_filename_has_the_stamp_shape_when_the_clock_answers() {
    // The local clock may be unusable in the environment the tests run in;
    // the shape is checked whenever it answers.
    if let Some(name) = current_filename() {
        assert_eq!(name.len(), "screenshot_YYYYMMDD_HHMMSS.png".len());
        assert!(name.starts_with("screenshot_"));
        assert!(name.ends_with(".png"));
        assert!(name[11..19].bytes().all(|b| b.is_ascii_digit()));
        assert_eq!(&name[19..20], "_");
        assert!(name[20..26].bytes().all(|b| b.is_ascii_digit()));
    }
}
