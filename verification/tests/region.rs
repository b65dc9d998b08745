use region_capture::region::{CaptureRequest, Region, DEFAULT_HEIGHT, DEFAULT_WIDTH};

#[test]
fn omitted_extent_defaults_to_one_hundred() {
    let request = CaptureRequest { x: 7, y: 9, width: None, height: None };
    assert_eq!(request.resolve(), Region { x: 7, y: 9, width: 100, height: 100 });
}

#[test]
fn defaults_are_one_hundred_each() {
    assert_eq!(DEFAULT_WIDTH, 100);
    assert_eq!(DEFAULT_HEIGHT, 100);
}

#[test]
fn defaults_hold_for_any_origin() {
    for (x, y) in [(0u32, 0u32), (1, 2), (u32::MAX, 0), (0, u32::MAX), (u32::MAX, u32::MAX)] {
        let region = CaptureRequest { x, y, width: None, height: None }.resolve();
        assert_eq!(region, Region { x, y, width: 100, height: 100 });
    }
}

#[test]
fn given_extent_is_taken_as_it_is() {
    let request = CaptureRequest { x: 10, y: 20, width: Some(640), height: Some(480) };
    assert_eq!(request.resolve(), Region { x: 10, y: 20, width: 640, height: 480 });
}

#[test]
fn each_extent_defaults_on_its_own() {
    let only_width = CaptureRequest { x: 0, y: 0, width: Some(3), height: None };
    assert_eq!(only_width.resolve(), Region { x: 0, y: 0, width: 3, height: 100 });
    let only_height = CaptureRequest { x: 0, y: 0, width: None, height: Some(5) };
    assert_eq!(only_height.resolve(), Region { x: 0, y: 0, width: 100, height: 5 });
}

#[test]
fn zero_extent_is_passed_through() {
    let request = CaptureRequest { x: 1, y: 1, width: Some(0), height: Some(0) };
    assert_eq!(request.resolve(), Region { x: 1, y: 1, width: 0, height: 0 });
}

#[test]
fn huge_extent_is_not_clipped() {
    let request = CaptureRequest { x: 0, y: 0, width: Some(u32::MAX), height: Some(u32::MAX) };
    assert_eq!(request.resolve(), Region { x: 0, y: 0, width: u32::MAX, height: u32::MAX });
}
