use lightweight_charts_backend::utils::JsonBuffer;

#[test]
fn test_json_buffer_reuse() {
    let mut buffer = JsonBuffer::new(128);
    buffer.as_mut_string().push_str("{\"foo\":1}");
    assert_eq!(buffer.as_str(), "{\"foo\":1}");

    buffer.clear();
    assert_eq!(buffer.as_str(), "");

    buffer.as_mut_string().push_str("{\"bar\":2}");
    assert_eq!(buffer.as_str(), "{\"bar\":2}");
    assert!(buffer.as_mut_string().capacity() >= 128);
}

#[test]
fn json_buffer_starts_empty() {
    let buffer = JsonBuffer::new(16);
    assert_eq!(buffer.as_str(), "");
    let default_buffer = JsonBuffer::default();
    assert_eq!(default_buffer.as_str(), "");
}
