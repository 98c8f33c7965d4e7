use sanitizers::text::{c_string, text_from_buffer, text_len, text_or_empty};

#[test]
fn length_of_empty_buffer_is_zero() {
    assert_eq!(text_len(&[]), 0);
}

#[test]
fn length_stops_at_first_nul() {
    assert_eq!(text_len(b"\0"), 0);
    assert_eq!(text_len(b"\0abc"), 0);
    assert_eq!(text_len(b"abc\0"), 3);
    assert_eq!(text_len(b"abc\0def\0"), 3);
    assert_eq!(text_len(b"ab\0\0"), 2);
}

#[test]
fn length_without_nul_is_whole_buffer() {
    assert_eq!(text_len(b"abc"), 3);
    assert_eq!(text_len(&[1u8; 1024]), 1024);
}

#[test]
fn buffer_text_ends_at_first_nul() {
    assert_eq!(text_from_buffer(b"hello\0junk\0"), "hello");
    assert_eq!(text_from_buffer(b"\0junk"), "");
    assert_eq!(text_from_buffer(b""), "");
}

#[test]
fn buffer_text_without_nul_is_whole_buffer() {
    assert_eq!(text_from_buffer(b"heap-use-after-free"), "heap-use-after-free");
}

#[test]
fn buffer_text_decodes_utf8() {
    let bytes = "gr\u{fc}n \u{2713} \u{1f600}\0rest".as_bytes();
    assert_eq!(text_from_buffer(bytes), "gr\u{fc}n \u{2713} \u{1f600}");
}

#[test]
fn buffer_text_replaces_invalid_sequences() {
    assert_eq!(text_from_buffer(b"a\xffb\0"), "a\u{fffd}b");
    assert_eq!(text_from_buffer(b"\xc3\0"), "\u{fffd}");
    assert_eq!(text_from_buffer(b"ok\xf0\x9f"), "ok\u{fffd}");
}

#[test]
fn zeroed_scratch_buffer_is_empty_text() {
    let buffer = vec![0u8; 1024];
    assert_eq!(text_from_buffer(&buffer), "");
}

#[test]
fn withheld_string_is_empty() {
    assert_eq!(text_or_empty(None), "");
    assert_eq!(text_or_empty(None), String::new());
}

#[test]
fn handed_out_string_is_read() {
    assert_eq!(text_or_empty(Some(b"verbosity=1:detect_leaks=0")), "verbosity=1:detect_leaks=0");
    assert_eq!(text_or_empty(Some(b"stack-buffer-overflow\0")), "stack-buffer-overflow");
    assert_eq!(text_or_empty(Some(b"")), "");
    assert_eq!(text_or_empty(Some(b"x\xfe")), "x\u{fffd}");
}

#[test]
fn c_string_appends_one_nul() {
    assert_eq!(c_string("abc"), Some(vec![97u8, 98, 99, 0]));
    assert_eq!(c_string(""), Some(vec![0u8]));
    assert_eq!(c_string("\u{e9}"), Some(vec![0xc3u8, 0xa9, 0]));
}

#[test]
fn c_string_refuses_a_nul_in_the_text() {
    assert_eq!(c_string("a\0b"), None);
    assert_eq!(c_string("\0"), None);
    assert_eq!(c_string("ab\0"), None);
}

#[test]
fn c_string_reads_back_as_the_text() {
    let texts = ["", "x", "origin of the label", "gr\u{fc}n \u{2713}"];
    for text in texts {
        let terminated = c_string(text).unwrap();
        assert_eq!(terminated.len(), text.len() + 1);
        assert_eq!(text_len(&terminated), text.len());
        assert_eq!(text_from_buffer(&terminated), text);
    }
}
