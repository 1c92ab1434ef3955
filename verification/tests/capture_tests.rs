use incant::capture::{choose_capture_range, CaptureRange};

fn range(is_f32: bool, min_rate: u32, max_rate: u32) -> CaptureRange {
    CaptureRange { is_f32, min_rate, max_rate }
}

#[test]
fn first_f32_range_holding_the_rate_is_chosen() {
    let ranges = [range(false, 8000, 48000), range(true, 44100, 48000), range(true, 8000, 48000), range(true, 16000, 16000)];
    assert_eq!(choose_capture_range(&ranges, 16000), Some(2));
    assert_eq!(choose_capture_range(&ranges, 48000), Some(1));
    assert_eq!(choose_capture_range(&ranges[3..], 16000), Some(0));
}

#[test]
fn no_fitting_range_falls_back() {
    let ranges = [range(false, 8000, 48000), range(true, 44100, 48000)];
    assert_eq!(choose_capture_range(&ranges, 16000), None);
    assert_eq!(choose_capture_range(&[], 16000), None);
}
