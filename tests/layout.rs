use libsoxr::{plan_buffer, samples_per_channel, ErrorType};

#[test]
fn samples_per_channel_divides_evenly() {
    assert_eq!(48, samples_per_channel(96, 2).unwrap());
    assert_eq!(0, samples_per_channel(0, 3).unwrap());
}

#[test]
fn uneven_buffers_are_a_size_mismatch() {
    let e = samples_per_channel(10, 3).unwrap_err();
    assert!(matches!(e.1, ErrorType::SizeMismatch { len: 10, channels: 3 }));
    let e = samples_per_channel(10, 0).unwrap_err();
    assert!(matches!(e.1, ErrorType::SizeMismatch { len: 10, channels: 0 }));
    let e = plan_buffer(7, 2, true).unwrap_err();
    assert!(matches!(e.1, ErrorType::SizeMismatch { len: 7, channels: 2 }));
    assert!(plan_buffer(7, 2, false).is_err());
}

#[test]
fn interleaved_buffer_is_one_pointer() {
    let p = plan_buffer(96, 2, true).unwrap();
    assert_eq!(48, p.samples_per_channel);
    assert!(p.channel_starts.is_empty());
}

#[test]
fn split_buffer_has_one_segment_per_channel() {
    let p = plan_buffer(12, 3, false).unwrap();
    assert_eq!(4, p.samples_per_channel);
    assert_eq!(vec![0, 4, 8], p.channel_starts);
    let p = plan_buffer(192, 2, false).unwrap();
    assert_eq!(vec![0, 96], p.channel_starts);
}
