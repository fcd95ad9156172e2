use vault_lib::yubikey::markers::extract_from_markers;
use vault_lib::yubikey::markers::find_subsequence;
use vault_lib::yubikey::markers::prepare_for_encryption;
use vault_lib::yubikey::markers::process_after_decryption;
use vault_lib::yubikey::markers::wrap_with_markers;

const BEGIN_MARKER: &[u8] = b"---   BEGIN ENCRYPTED DATA    ---";
const END_MARKER: &[u8] = b"---   END ENCRYPTED DATA    ---";

#[test]
fn test_wrap_with_markers() {
    // Test with simple data
    let input = b"test data";
    let wrapped = wrap_with_markers(input);

    // Check that the wrapped data has the correct format
    assert!(wrapped.starts_with(BEGIN_MARKER));
    assert!(wrapped.ends_with(END_MARKER));

    // Check that our data is in between
    let wrapped_str = String::from_utf8_lossy(&wrapped);
    assert!(wrapped_str.contains("test data"));
}

#[test]
fn test_wrap_with_markers_empty() {
    // Test with empty data
    let input = b"";
    let wrapped = wrap_with_markers(input);

    // Check that the markers are still present
    assert!(wrapped.starts_with(BEGIN_MARKER));
    assert!(wrapped.ends_with(END_MARKER));

    // Expected format: BEGIN_MARKER + \n + \n + END_MARKER
    let expected_len = BEGIN_MARKER.len() + 1 + 1 + END_MARKER.len();
    assert_eq!(wrapped.len(), expected_len);
}

#[test]
fn test_extract_from_markers() {
    // Create properly wrapped data
    let original = b"secret message";
    let wrapped = wrap_with_markers(original);

    // Extract the data
    let wrapped_copy = wrapped.clone();
    let extracted = extract_from_markers(&wrapped_copy);

    // Check that the extracted data matches the original
    assert_eq!(extracted.as_slice(), original);
}

#[test]
fn test_extract_from_markers_empty() {
    // Test with empty payload
    let wrapped = wrap_with_markers(b"");
    let wrapped_copy = wrapped.clone();
    let extracted = extract_from_markers(&wrapped_copy);

    // Should extract empty data
    assert_eq!(extracted.as_slice(), b"");
}

#[test]
fn test_extract_from_markers_no_markers() {
    // Test with data without markers
    let data = b"just some text without markers".to_vec();
    let extracted = extract_from_markers(&data);

    // Should return empty when no markers present
    assert!(extracted.is_empty());
}

#[test]
fn test_extract_from_markers_incomplete() {
    // Test with only beginning marker
    let data_begin_only = [BEGIN_MARKER, b"data"].concat();
    let extracted1 = extract_from_markers(&data_begin_only);
    assert!(extracted1.is_empty());

    // Test with only ending marker
    let data_end_only = [b"data", END_MARKER].concat();
    let extracted2 = extract_from_markers(&data_end_only);
    assert!(extracted2.is_empty());
}

#[test]
fn test_extract_from_markers_reversed() {
    // Test with markers in wrong order
    let reversed = [END_MARKER, b"\ndata\n", BEGIN_MARKER].concat();
    let extracted = extract_from_markers(&reversed);

    // Should return empty when markers are in wrong order
    assert!(extracted.is_empty());
}

#[test]
fn test_find_subsequence() {
    // Basic case
    assert_eq!(find_subsequence(b"hello world", b"world"), Some(6));

    // At the beginning
    assert_eq!(find_subsequence(b"hello world", b"hello"), Some(0));

    // Not found
    assert_eq!(find_subsequence(b"hello world", b"universe"), None);

    // Empty needle always matches at position 0
    assert_eq!(find_subsequence(b"hello world", b""), Some(0));

    // Empty haystack only matches empty needle
    assert_eq!(find_subsequence(b"", b""), Some(0));
    assert_eq!(find_subsequence(b"", b"hello"), None);
}

#[test]
fn test_prepare_for_encryption() {
    let input = b"encrypt me";
    assert_eq!(prepare_for_encryption(input), wrap_with_markers(input));
}

#[test]
fn test_process_after_decryption() {
    let wrapped = wrap_with_markers(b"decrypted data");
    let data1 = wrapped.clone();
    let data2 = wrapped;

    assert_eq!(
        process_after_decryption(&data1).as_slice(),
        extract_from_markers(&data2).as_slice()
    );
}

#[test]
fn test_full_roundtrip() {
    // Test the complete encrypt/decrypt flow
    let original = b"this is a secret message";

    // Encrypt flow
    let prepared = prepare_for_encryption(original);

    // Decrypt flow (simulated)
    let decrypted_data = prepared;
    let final_data = process_after_decryption(&decrypted_data);

    // Check roundtrip success
    assert_eq!(final_data.as_slice(), original);
}

#[test]
fn wrapped_payload_has_the_exact_bytes() {
    let mut expected = BEGIN_MARKER.to_vec();
    expected.push(b'\n');
    expected.extend_from_slice(&[0xff, 0x00, 0x0a]);
    expected.push(b'\n');
    expected.extend_from_slice(END_MARKER);
    assert_eq!(wrap_with_markers(&[0xff, 0x00, 0x0a]), expected);
    assert_eq!(BEGIN_MARKER.len(), 33);
    assert_eq!(END_MARKER.len(), 31);
}

#[test]
fn extraction_works_on_bytes_that_are_no_text() {
    let payload = [0xff, 0xfe, 0x00, 0x80];
    assert_eq!(extract_from_markers(&wrap_with_markers(&payload)), payload);
    let mut prefixed = vec![0xc3, 0x28, 1, 2, 3];
    prefixed.extend_from_slice(&wrap_with_markers(b"x"));
    assert_eq!(extract_from_markers(&prefixed), b"x".to_vec());
}

#[test]
fn first_match_wins_and_overlaps_are_found() {
    assert_eq!(find_subsequence(b"aaa", b"aa"), Some(0));
    assert_eq!(find_subsequence(b"abcabc", b"bc"), Some(1));
    assert_eq!(find_subsequence(b"abc", b"abc"), Some(0));
    assert_eq!(find_subsequence(b"abc", b"abcd"), None);
    assert_eq!(find_subsequence(b"ab", b"b"), Some(1));
    assert_eq!(find_subsequence(b"aab", b"ab"), Some(1));
}
