use vid2img::file::push_decimal;
use vid2img::{CaptureError, FileSource, IoFailure, IoFailureKind};

fn decimal(n: u32) -> String {
    let mut out = String::new();
    push_decimal(&mut out, n);
    out
}

#[test]
fn resolved_existing_path_makes_a_source() {
    let source = FileSource::new(Ok(String::from("/videos/clip.mp4")), true, (200, 200)).unwrap();
    assert_eq!(source.source(), "/videos/clip.mp4");
    assert_eq!(source.frame_size(), (200, 200));
}

#[test]
fn unresolved_path_hands_the_failure_on() {
    let failure = IoFailure {
        kind: IoFailureKind::NotFound,
        message: String::from("No such file or directory (os error 2)"),
    };
    let made = FileSource::new(Err(failure.clone()), false, (200, 200));
    assert_eq!(made, Err(CaptureError::IoError(failure)));
}

#[test]
fn unresolved_path_fails_whatever_the_existence_flag() {
    let failure = IoFailure {
        kind: IoFailureKind::PermissionDenied,
        message: String::from("Permission denied (os error 13)"),
    };
    let made = FileSource::new(Err(failure.clone()), true, (1, 1));
    assert_eq!(made, Err(CaptureError::IoError(failure)));
}

#[test]
fn other_failure_is_handed_on() {
    let failure = IoFailure { kind: IoFailureKind::Other, message: String::from("interrupted") };
    let made = FileSource::new(Err(failure.clone()), true, (1, 1));
    assert_eq!(made, Err(CaptureError::IoError(failure)));
}

#[test]
fn resolved_path_that_does_not_exist_is_not_found() {
    let made = FileSource::new(Ok(String::from("/videos/gone.mp4")), false, (200, 200));
    assert_eq!(
        made,
        Err(CaptureError::IoError(IoFailure {
            kind: IoFailureKind::NotFound,
            message: String::from("File not found"),
        }))
    );
}

#[test]
fn not_found_failure() {
    let failure = IoFailure::not_found();
    assert_eq!(failure.kind, IoFailureKind::NotFound);
    assert_eq!(failure.message, "File not found");
}

#[test]
fn capture_error_message() {
    let error = CaptureError::IoError(IoFailure::not_found());
    assert_eq!(error.message(), "IO error: File not found");
}

#[test]
fn description_embeds_path_and_size() {
    let source = FileSource::new(Ok(String::from("/videos/clip.mp4")), true, (200, 200)).unwrap();
    assert_eq!(
        source.pipeline_description(),
        "uridecodebin uri=file:///videos/clip.mp4 ! videoconvert ! videoscale ! capsfilter caps=\"video/x-raw, width=200, height=200\""
    );
}

#[test]
fn description_keeps_width_and_height_apart() {
    let source = FileSource::new(Ok(String::from("/a b/c.mkv")), true, (1280, 534)).unwrap();
    assert_eq!(
        source.pipeline_description(),
        "uridecodebin uri=file:///a b/c.mkv ! videoconvert ! videoscale ! capsfilter caps=\"video/x-raw, width=1280, height=534\""
    );
}

#[test]
fn description_with_extreme_sizes() {
    let source = FileSource::new(Ok(String::from("/v")), true, (0, 4294967295)).unwrap();
    assert_eq!(
        source.pipeline_description(),
        "uridecodebin uri=file:///v ! videoconvert ! videoscale ! capsfilter caps=\"video/x-raw, width=0, height=4294967295\""
    );
}

#[test]
fn source_becomes_a_session_with_its_description() {
    let source = FileSource::new(Ok(String::from("/videos/clip.mp4")), true, (640, 480)).unwrap();
    let stream = source.into_stream();
    assert_eq!(
        stream.description(),
        "uridecodebin uri=file:///videos/clip.mp4 ! videoconvert ! videoscale ! capsfilter caps=\"video/x-raw, width=640, height=480\""
    );
    assert_eq!(
        stream.launch_description(),
        "uridecodebin uri=file:///videos/clip.mp4 ! videoconvert ! videoscale ! capsfilter caps=\"video/x-raw, width=640, height=480\" ! pngenc snapshot=false ! appsink name=sink"
    );
}

#[test]
fn decimal_numerals() {
    assert_eq!(decimal(0), "0");
    assert_eq!(decimal(7), "7");
    assert_eq!(decimal(9), "9");
    assert_eq!(decimal(10), "10");
    assert_eq!(decimal(99), "99");
    assert_eq!(decimal(100), "100");
    assert_eq!(decimal(1234567890), "1234567890");
    assert_eq!(decimal(4294967295), "4294967295");
}

#[test]
fn decimal_is_appended_to_what_is_there() {
    let mut out = String::from("width=");
    push_decimal(&mut out, 200);
    assert_eq!(out, "width=200");
}

#[test]
fn decimal_numerals_parse_back() {
    for n in [0u32, 1, 9, 10, 11, 109, 1000, 65535, 65536, 4294967295] {
        assert_eq!(decimal(n).parse::<u32>(), Ok(n));
    }
}
