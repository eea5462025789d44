use wifi_bridge::frame::{DataFrame, FRAME_CAPACITY};

#[test]
fn round_trip_exact_bytes() {
    let bytes: Vec<u8> = (0u8..50).collect();
    let f = DataFrame::from_bytes(&bytes);
    assert_eq!(f.len(), 50);
    assert_eq!(f.slice(), &bytes[..]);
}

#[test]
fn round_trip_empty() {
    let f = DataFrame::from_bytes(&[]);
    assert_eq!(f.len(), 0);
    assert_eq!(f.slice(), &[] as &[u8]);
}

#[test]
fn round_trip_full_capacity() {
    let bytes: Vec<u8> = (0..FRAME_CAPACITY).map(|i| (i % 251) as u8).collect();
    let f = DataFrame::from_bytes(&bytes);
    assert_eq!(f.len(), FRAME_CAPACITY);
    assert_eq!(f.slice(), &bytes[..]);
}

#[test]
fn new_frame_is_empty() {
    let f = DataFrame::new();
    assert_eq!(f.len(), 0);
    assert!(f.slice().is_empty());
}
