use joke_scroller::fetch::{layout_for_response, FetchError, ResponseBuffer, RESPONSE_CAPACITY};
use joke_scroller::pagination::PageLayout;

#[test]
fn new_buffer_is_empty() {
    let b = ResponseBuffer::new(RESPONSE_CAPACITY);
    assert_eq!(b.capacity(), 8192);
    assert_eq!(b.len(), 0);
    assert_eq!(b.body(), &[] as &[u8]);
}

#[test]
fn append_collects_chunks() {
    let mut b = ResponseBuffer::new(16);
    assert_eq!(b.append(b"Hello, "), Ok(()));
    assert_eq!(b.append(b"world"), Ok(()));
    assert_eq!(b.body(), b"Hello, world");
    assert_eq!(b.text(), Ok("Hello, world"));
}

#[test]
fn append_exactly_to_capacity() {
    let mut b = ResponseBuffer::new(4);
    assert_eq!(b.append(b"ab"), Ok(()));
    assert_eq!(b.append(b"cd"), Ok(()));
    assert_eq!(b.len(), 4);
}

#[test]
fn overflow_fails_and_leaves_buffer_reusable() {
    let mut b = ResponseBuffer::new(8);
    assert_eq!(b.append(b"12345"), Ok(()));
    assert_eq!(b.append(b"6789"), Err(FetchError::Overflow));
    assert_eq!(b.len(), 0);
    assert_eq!(b.capacity(), 8);
    assert_eq!(b.append(b"joke"), Ok(()));
    assert_eq!(b.text(), Ok("joke"));
}

#[test]
fn clear_keeps_capacity() {
    let mut b = ResponseBuffer::new(8);
    b.append(b"abc").unwrap();
    b.clear();
    assert_eq!(b.len(), 0);
    assert_eq!(b.capacity(), 8);
}

#[test]
fn invalid_utf8_is_decode_error() {
    let mut b = ResponseBuffer::new(8);
    b.append(&[0x66, 0xff, 0xfe, 0x00]).unwrap();
    assert_eq!(b.text(), Err(FetchError::Decode));
    assert_eq!(layout_for_response(&b, 128, 64), Err(FetchError::Decode));
}

#[test]
fn multibyte_text_decodes() {
    let mut b = ResponseBuffer::new(8);
    b.append("é!".as_bytes()).unwrap();
    assert_eq!(b.len(), 3);
    assert_eq!(b.text(), Ok("é!"));
}

#[test]
fn layout_for_text_body() {
    let mut b = ResponseBuffer::new(RESPONSE_CAPACITY);
    b.append(b"a\nb").unwrap();
    assert_eq!(layout_for_response(&b, 128, 20), Ok(PageLayout::new(26, 20)));
    assert_eq!(PageLayout::new(26, 20).max_scroll_offset, 6);
}
