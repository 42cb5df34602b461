use openssl::bio::mem_buf_len;
use openssl::cms::{CMSOptions, der_buffer, der_input_len, output_on_success, verify_result, DECRYPT_FLAGS};
use openssl::{cvt, cvt_p};

#[derive(Debug, PartialEq)]
struct Collected(u32);

#[test]
fn cvt_accepts_positive_status() {
    assert_eq!(cvt(1, || Collected(7)), Ok(1));
    assert_eq!(cvt(42, || Collected(7)), Ok(42));
}

#[test]
fn cvt_rejects_zero_and_negative_status() {
    assert_eq!(cvt(0, || Collected(7)), Err(Collected(7)));
    assert_eq!(cvt(-1, || Collected(8)), Err(Collected(8)));
    assert_eq!(cvt(i32::MIN, || Collected(9)), Err(Collected(9)));
}

#[test]
fn cvt_collects_errors_only_on_failure() {
    let mut calls = 0;
    let _ = cvt(5, || {
        calls += 1;
        Collected(0)
    });
    assert_eq!(calls, 0);
    let _ = cvt(0, || {
        calls += 1;
        Collected(0)
    });
    assert_eq!(calls, 1);
}

#[test]
fn cvt_p_passes_present_objects() {
    assert_eq!(cvt_p(Some("handle"), || Collected(1)), Ok("handle"));
    assert_eq!(cvt_p(None::<&str>, || Collected(2)), Err(Collected(2)));
}

#[test]
fn output_on_success_copies_the_product() {
    let written = b"My Message";
    assert_eq!(output_on_success(1, written, || Collected(0)), Ok(b"My Message".to_vec()));
    assert_eq!(output_on_success(1, &[], || Collected(0)), Ok(Vec::new()));
    assert_eq!(output_on_success(0, written, || Collected(3)), Err(Collected(3)));
    assert_eq!(output_on_success(-2, written, || Collected(4)), Err(Collected(4)));
}

#[test]
fn decrypt_passes_no_flags() {
    assert_eq!(DECRYPT_FLAGS, 0);
}

#[test]
fn law_decrypt_keeps_text_header_example() {
    assert!(!CMSOptions::from_bits_truncate(DECRYPT_FLAGS).contains(CMSOptions::TEXT()));
    assert_eq!(DECRYPT_FLAGS & openssl::ffi::CMS_TEXT, 0);
}

#[test]
fn verify_result_fills_the_output_on_success() {
    let mut out = vec![9u8, 9, 9, 9, 9];
    let res = verify_result(1, b"content", Some(&mut out), || Collected(0));
    assert_eq!(res, Ok(()));
    assert_eq!(out, b"content".to_vec());
}

#[test]
fn verify_result_without_output_buffer() {
    assert_eq!(verify_result(1, b"content", None, || Collected(0)), Ok(()));
    assert_eq!(verify_result(0, b"content", None, || Collected(5)), Err(Collected(5)));
}

#[test]
fn verify_result_leaves_the_output_on_failure() {
    let mut out = vec![1u8, 2, 3];
    let res = verify_result(0, b"content", Some(&mut out), || Collected(6));
    assert_eq!(res, Err(Collected(6)));
    assert_eq!(out, vec![1u8, 2, 3]);
}

#[test]
fn verify_result_empties_the_output_for_empty_content() {
    let mut out = vec![1u8, 2, 3];
    assert_eq!(verify_result(1, &[], Some(&mut out), || Collected(0)), Ok(()));
    assert!(out.is_empty());
}

#[test]
fn der_buffer_is_zeroed() {
    assert_eq!(der_buffer(4), vec![0u8; 4]);
    assert_eq!(der_buffer(1), vec![0u8]);
    assert_eq!(der_buffer(0), Vec::<u8>::new());
}

#[test]
fn der_input_len_is_the_input_length() {
    assert_eq!(der_input_len(0), 0);
    assert_eq!(der_input_len(1234), 1234);
    assert_eq!(der_input_len(usize::MAX), libc::c_long::MAX);
}

#[test]
fn mem_buf_len_keeps_the_length() {
    assert_eq!(mem_buf_len(0), 0);
    assert_eq!(mem_buf_len(10), 10);
    assert_eq!(mem_buf_len(i32::MAX as usize), i32::MAX);
}
