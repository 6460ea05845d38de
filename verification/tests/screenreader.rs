use hoags_tools::screenreader::capture::{capture_region_script, capture_screen_script, parse_screen_size};
use hoags_tools::screenreader::read::read_screen;
use hoags_tools::screenreader::region::{parse_region, RegionError};
use hoags_tools::screenreader::watch::{frame_name, WatchState};
use hoags_tools::screenreader::windows::{parse_window_line, parse_window_list};
use hoags_tools::text::IntErrorKind;

#[test]
fn parse_region_valid() {
    let (x, y, w, h) = parse_region("100,200,800,600").unwrap();
    assert_eq!((x, y, w, h), (100, 200, 800, 600));
}

#[test]
fn parse_region_with_spaces() {
    let (x, y, w, h) = parse_region(" 0 , 0 , 1920 , 1080 ").unwrap();
    assert_eq!((x, y, w, h), (0, 0, 1920, 1080));
}

#[test]
fn parse_region_too_few_parts() {
    assert!(parse_region("100,200,800").is_err());
}

#[test]
fn parse_region_non_numeric() {
    assert!(parse_region("a,b,c,d").is_err());
}

#[test]
fn parse_region_zero_dimensions() {
    assert!(parse_region("0,0,0,0").is_err());
}

#[test]
fn parse_region_negative_offset_ok() {
    let (x, y, w, h) = parse_region("-100,-200,400,300").unwrap();
    assert_eq!((x, y, w, h), (-100, -200, 400, 300));
}

#[test]
fn parse_region_too_many_parts() {
    assert!(parse_region("0,0,100,100,50").is_err());
}

#[test]
fn parse_region_empty_string() {
    assert!(parse_region("").is_err());
}

#[test]
fn parse_region_negative_width_fails() {
    assert!(parse_region("0,0,-100,100").is_err());
}

#[test]
fn parse_region_negative_height_fails() {
    assert!(parse_region("0,0,100,-1").is_err());
}

#[test]
fn parse_region_float_values_fail() {
    assert!(parse_region("0.5,0,100,100").is_err());
}

#[test]
fn parse_region_positive_x_y() {
    let (x, y, w, h) = parse_region("10,20,640,480").unwrap();
    assert_eq!(x, 10);
    assert_eq!(y, 20);
    assert_eq!(w, 640);
    assert_eq!(h, 480);
}

#[test]
fn parse_region_large_values() {
    let (x, y, w, h) = parse_region("0,0,3840,2160").unwrap();
    assert_eq!((x, y, w, h), (0, 0, 3840, 2160));
}

#[test]
fn parse_region_minimal_1x1() {
    let (x, y, w, h) = parse_region("0,0,1,1").unwrap();
    assert_eq!((x, y, w, h), (0, 0, 1, 1));
}

#[test]
fn parse_region_whitespace_only_fails() {
    assert!(parse_region("  ,  ,  ,  ").is_err());
}

#[test]
fn parse_region_zero_width_fails() {
    assert!(parse_region("0,0,0,100").is_err());
}

#[test]
fn region_error_messages() {
    assert_eq!(parse_region("1,2,3").unwrap_err(), RegionError::PartCount);
    assert_eq!(parse_region("1,2,x,4").unwrap_err(), RegionError::Parse(IntErrorKind::InvalidDigit));
    assert_eq!(parse_region(" ,2,3,4").unwrap_err(), RegionError::Parse(IntErrorKind::Empty));
    assert_eq!(parse_region("1,2,3,99999999999").unwrap_err(), RegionError::Parse(IntErrorKind::PosOverflow));
    assert_eq!(parse_region("-2147483649,0,1,1").unwrap_err(), RegionError::Parse(IntErrorKind::NegOverflow));
    assert_eq!(parse_region("0,0,0,1").unwrap_err().message(), "width and height must be positive");
    assert_eq!(
        parse_region("1,2,x,4").unwrap_err().message(),
        "parse error: invalid digit found in string"
    );
}

#[test]
fn read_screen_does_not_panic() {
    let st = read_screen(None, None);
    let _ = st.window_titles.len();
}

#[test]
fn screen_text_from_query_output() {
    let st = read_screen(Some("  Notepad \n\n Chrome\r\n"), Some("\n Editor \n field text\nextra"));
    assert_eq!(st.window_titles, vec!["Notepad", "Chrome"]);
    assert_eq!(st.focused_window.as_deref(), Some("Editor"));
    assert_eq!(st.focused_element.as_deref(), Some("field text"));
}

#[test]
fn parse_valid_line() {
    let w = parse_window_line("chrome|1234|Google Chrome - New Tab").unwrap();
    assert_eq!(w.process_name, "chrome");
    assert_eq!(w.title, "Google Chrome - New Tab");
    assert!(w.is_visible);
}

#[test]
fn parse_line_with_pipe_in_title() {
    let w = parse_window_line("notepad|999|foo | bar | baz").unwrap();
    assert_eq!(w.title, "foo | bar | baz");
}

#[test]
fn parse_empty_line_returns_none() {
    assert!(parse_window_line("").is_none());
    assert!(parse_window_line("   ").is_none());
}

#[test]
fn parse_missing_fields_returns_none() {
    assert!(parse_window_line("chrome").is_none());
    assert!(parse_window_line("chrome|1234").is_none());
}

#[test]
fn parse_empty_title_returns_none() {
    assert!(parse_window_line("chrome|1234|").is_none());
    assert!(parse_window_line("chrome|1234|   ").is_none());
}

#[test]
fn window_list_skips_malformed_lines() {
    let ws = parse_window_list("a|1|One\nbroken\nb|2|Two\n");
    assert_eq!(ws.len(), 2);
    assert_eq!(ws[1].process_name, "b");
    assert_eq!(ws[1].title, "Two");
}

#[test]
fn capture_scripts_and_size() {
    let s = capture_screen_script("C:\\tmp\\out.png");
    assert!(s.contains("$bitmap.Save('C:\\\\tmp\\\\out.png')"));
    let r = capture_region_script("o.png", 10, -20, 640, 480);
    assert!(r.contains("Bitmap(640, 480)"));
    assert!(r.contains("Point(10, -20)"));
    assert_eq!(parse_screen_size(Some(" 2560x1440\n")), (2560, 1440));
    assert_eq!(parse_screen_size(Some("garbage")), (1920, 1080));
    assert_eq!(parse_screen_size(None), (1920, 1080));
}

#[test]
fn watch_reports_changes() {
    let mut w = WatchState::new();
    assert!(w.observe(7));
    assert!(!w.observe(7));
    assert!(w.observe(8));
    assert!(!w.end_cycle(Some(2)));
    assert!(w.end_cycle(Some(2)));
    assert!(!w.end_cycle(None));
    assert_eq!(frame_name("20260101_120000", 255), "frame_20260101_120000_00000000000000ff.png");
}

#[test]
fn path_escaping_roundtrip() {
    let escaped = capture_screen_script(r"C:\tmp\out.png");
    assert!(escaped.contains("\\\\"));
    assert!(escaped.contains(r"C:\\tmp\\out.png"));
}

#[test]
fn path_with_spaces_escapes_correctly() {
    let escaped = capture_screen_script(r"C:\My Documents\screenshot.png");
    assert!(escaped.contains("My Documents"));
    assert!(escaped.contains("\\\\"));
}
