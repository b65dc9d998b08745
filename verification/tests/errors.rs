use region_capture::error::{
    CaptureError, EncodingFailure, HEADER_MISMATCH, BUFFER_MISMATCH, NO_PRIMARY_MONITOR,
};

#[test]
fn platform_messages_are_shown_as_they_are() {
    let text = String::from("x11 connection refused");
    assert_eq!(CaptureError::Enumeration(text.clone()).message(), text);
    assert_eq!(CaptureError::Capture(text.clone()).message(), text);
    assert_eq!(CaptureError::Persistence(text.clone()).message(), text);
    assert_eq!(CaptureError::Encoding(EncodingFailure::Rejected(text.clone())).message(), text);
}

#[test]
fn missing_primary_monitor_has_its_own_message() {
    assert_eq!(CaptureError::NoPrimaryMonitor.message(), "未找到主显示器");
    assert_eq!(CaptureError::NoPrimaryMonitor.message(), NO_PRIMARY_MONITOR);
}

#[test]
fn encoding_failures_describe_themselves() {
    assert_eq!(EncodingFailure::BufferMismatch.message(), BUFFER_MISMATCH);
    assert_eq!(EncodingFailure::HeaderMismatch.message(), HEADER_MISMATCH);
    assert_eq!(
        CaptureError::Encoding(EncodingFailure::BufferMismatch).message(),
        "pixel buffer does not match the frame's dimensions"
    );
    assert_eq!(
        CaptureError::Encoding(EncodingFailure::HeaderMismatch).message(),
        "encoded image does not declare the frame's dimensions as RGBA8"
    );
}

#[test]
fn empty_platform_message_stays_empty() {
    assert_eq!(CaptureError::Capture(String::new()).message(), "");
}
