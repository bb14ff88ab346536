use fast::error::{status, FastError, STATUS_OK};
use fast::settings::FastStreamSettings;
use fast::stream::buffer::FastStreamBuffer;

fn settings(sample_size: u32, n_channels: u32, sample_rate: u32, buffer_ms: u32) -> FastStreamSettings {
    FastStreamSettings { sample_size, n_channels, sample_rate, buffer_ms }
}

#[test]
fn cd_quality_second_holds_176400_bytes() {
    let s = settings(2, 2, 44100, 1000);
    assert!(s.is_valid());
    let buf = FastStreamBuffer::new(&s);
    assert_eq!(buf.frame_size(), 4);
    assert_eq!(buf.sample_rate(), 44100);
    assert_eq!(buf.capacity(), 176400);
    assert_eq!(buf.write_capacity(), 176400);
    assert_eq!(buf.len(), 0);
}

#[test]
fn capacity_is_the_product_over_a_thousand() {
    let cases: [(u32, u32, u32, u32, usize); 6] = [
        (1, 1, 8000, 250, 2000),
        (2, 1, 48000, 20, 1920),
        (4, 6, 96000, 500, 1152000),
        (1, 1, 1000, 1, 1),
        (3, 1, 101, 7, 2),
        (2, 2, 44100, 1, 176),
    ];
    for (sample_size, n_channels, sample_rate, buffer_ms, expected) in cases {
        let s = settings(sample_size, n_channels, sample_rate, buffer_ms);
        assert!(s.is_valid());
        let buf = FastStreamBuffer::new(&s);
        assert_eq!(buf.capacity(), expected);
        assert_eq!(buf.write_capacity(), expected);
        assert_eq!(buf.frame_size(), (sample_size * n_channels) as usize);
        assert_eq!(buf.sample_rate(), sample_rate as usize);
    }
}

#[test]
fn settings_with_a_zero_field_are_not_valid() {
    assert!(!settings(0, 2, 44100, 1000).is_valid());
    assert!(!settings(2, 0, 44100, 1000).is_valid());
    assert!(!settings(2, 2, 0, 1000).is_valid());
    assert!(!settings(2, 2, 44100, 0).is_valid());
}

#[test]
fn settings_for_less_than_one_byte_are_not_valid() {
    assert!(!settings(1, 1, 999, 1).is_valid());
    assert!(!settings(1, 1, 1, 999).is_valid());
    assert!(settings(1, 1, 1000, 1).is_valid());
    assert!(settings(1, 1, 1, 1000).is_valid());
}

#[test]
fn settings_whose_product_overflows_are_not_valid() {
    assert!(!settings(u32::MAX, u32::MAX, u32::MAX, u32::MAX).is_valid());
    assert!(!settings(u32::MAX, u32::MAX, u32::MAX, 1).is_valid());
    assert!(!settings(1, u32::MAX, u32::MAX, u32::MAX).is_valid());
}

#[test]
fn the_largest_product_that_fits_is_valid() {
    // 65535 * 65537 = 2^32 - 1 byte-milliseconds fit in any usize.
    let s = settings(65535, 65537, 1, 1);
    assert!(s.is_valid());
    assert!(!settings(999, 1, 1, 1).is_valid());
}

#[test]
fn status_codes_are_nonzero_and_distinct() {
    let all = [
        FastError::Overflow,
        FastError::Underflow,
        FastError::Busy,
        FastError::Cancelled,
        FastError::RuntimeInitFailure,
    ];
    let codes: Vec<i32> = all.iter().map(|e| e.status_code()).collect();
    assert_eq!(codes, vec![1, 2, 3, 4, 5]);
    for (i, a) in all.iter().enumerate() {
        assert_ne!(a.status_code(), 0);
        for (j, b) in all.iter().enumerate() {
            assert_eq!(a.status_code() == b.status_code(), i == j);
        }
    }
}

#[test]
fn status_is_zero_for_success_only() {
    assert_eq!(STATUS_OK, 0);
    let done: Result<usize, FastError> = Ok(17);
    assert_eq!(status(&done), 0);
    let nothing: Result<(), FastError> = Ok(());
    assert_eq!(status(&nothing), 0);
    let full: Result<usize, FastError> = Err(FastError::Overflow);
    assert_eq!(status(&full), 1);
    let gone: Result<usize, FastError> = Err(FastError::Cancelled);
    assert_eq!(status(&gone), 4);
    let failed: Result<(), FastError> = Err(FastError::RuntimeInitFailure);
    assert_eq!(status(&failed), 5);
}
