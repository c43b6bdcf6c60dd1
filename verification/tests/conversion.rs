use nsstring_convert::convert_with_autoreleasepool;
use nsstring_convert::convert_with_vec;
use nsstring_convert::decode_filled_buffer;
use nsstring_convert::leak;
use nsstring_convert::no_leak_autoreleasepool;
use nsstring_convert::no_leak_vec;
use nsstring_convert::try_convert_with_vec;
use nsstring_convert::AutoreleaseLedger;
use nsstring_convert::AutoreleasePool;
use nsstring_convert::StringHandle;
use nsstring_convert::NSUTF8_STRING_ENCODING;

#[test]
fn it_works() {
    let text = "aaa\u{d3}\u{c7}\u{221e}bbb\u{f8ff}\u{fc}\u{e7}\u{222b}\u{2013}\u{b4}\u{ff}\u{2202}";
    assert_eq!(convert_with_vec(&StringHandle::from_str(text)), text);
    let mut ledger = AutoreleaseLedger::new();
    assert_eq!(
        convert_with_autoreleasepool(&StringHandle::from_str(text), &mut ledger),
        text
    );
}

#[test]
fn round_trip_plain_ascii() {
    let mut ledger = AutoreleaseLedger::new();
    for text in ["x", "hello world", "0123456789"] {
        let handle = StringHandle::from_str(text);
        assert_eq!(convert_with_vec(&handle), text);
        assert_eq!(convert_with_autoreleasepool(&handle, &mut ledger), text);
    }
}

#[test]
fn round_trip_multi_byte() {
    let mut ledger = AutoreleaseLedger::new();
    for text in ["\u{e9}", "\u{20ac}", "\u{1f37a}", "a\u{e9}\u{20ac}\u{1f37a}"] {
        let handle = StringHandle::from_str(text);
        assert_eq!(convert_with_vec(&handle), text);
        assert_eq!(convert_with_autoreleasepool(&handle, &mut ledger), text);
    }
}

#[test]
fn empty_input_converts_to_empty() {
    let handle = StringHandle::from_str("");
    assert_eq!(convert_with_vec(&handle), "");
    let mut ledger = AutoreleaseLedger::new();
    assert_eq!(convert_with_autoreleasepool(&handle, &mut ledger), "");
}

#[test]
fn byte_length_counts_encoded_bytes_not_characters() {
    // one character each, of encoded width 1, 2, 3 and 4
    assert_eq!(
        StringHandle::from_str("a").length_of_bytes(NSUTF8_STRING_ENCODING),
        1
    );
    assert_eq!(
        StringHandle::from_str("\u{e9}").length_of_bytes(NSUTF8_STRING_ENCODING),
        2
    );
    assert_eq!(
        StringHandle::from_str("\u{20ac}").length_of_bytes(NSUTF8_STRING_ENCODING),
        3
    );
    assert_eq!(
        StringHandle::from_str("\u{1f37a}").length_of_bytes(NSUTF8_STRING_ENCODING),
        4
    );
    // four characters, ten encoded bytes
    assert_eq!(
        StringHandle::from_str("a\u{e9}\u{20ac}\u{1f37a}").length_of_bytes(NSUTF8_STRING_ENCODING),
        10
    );
}

#[test]
fn byte_length_of_unsupported_encoding_is_zero() {
    let handle = StringHandle::from_str("abc");
    assert_eq!(handle.length_of_bytes(0), 0);
    assert_eq!(handle.length_of_bytes(5), 0);
}

#[test]
fn ascii_plus_emoji_scenario() {
    let text = "aaa\u{1f37a}";
    let handle = StringHandle::from_str(text);
    assert_eq!(handle.length_of_bytes(NSUTF8_STRING_ENCODING), 7);
    assert_eq!(convert_with_vec(&handle), text);
    let mut ledger = AutoreleaseLedger::new();
    assert_eq!(convert_with_autoreleasepool(&handle, &mut ledger), text);
}

#[test]
fn mixed_scripts_scenario() {
    let text = "aaa\u{42b}\u{431}bbb";
    let handle = StringHandle::from_str(text);
    assert_eq!(convert_with_vec(&handle), text);
    let mut ledger = AutoreleaseLedger::new();
    assert_eq!(convert_with_autoreleasepool(&handle, &mut ledger), text);
}

#[test]
fn conversion_is_idempotent_on_one_handle() {
    let handle = StringHandle::from_str("same twice \u{1f37a}");
    let first = convert_with_vec(&handle);
    let second = convert_with_vec(&handle);
    assert_eq!(first, second);
    let mut ledger = AutoreleaseLedger::new();
    let third = convert_with_autoreleasepool(&handle, &mut ledger);
    let fourth = convert_with_autoreleasepool(&handle, &mut ledger);
    assert_eq!(third, fourth);
    assert_eq!(first, third);
}

#[test]
fn fill_failure_yields_empty_string() {
    // a fill that reported failure leaves no content, whatever the buffer held
    let buffer = vec![104u8, 105u8, 0u8];
    assert_eq!(decode_filled_buffer(buffer, false), "");
}

#[test]
fn fill_failure_on_unsupported_encoding() {
    let handle = StringHandle::from_str("abc");
    assert_eq!(try_convert_with_vec(&handle, 0), None);
    assert_eq!(try_convert_with_vec(&handle, 5), None);
    assert_eq!(
        try_convert_with_vec(&handle, NSUTF8_STRING_ENCODING),
        Some("abc".to_string())
    );
}

#[test]
fn fill_fails_when_buffer_is_too_small() {
    let handle = StringHandle::from_str("abc");
    let mut buffer = vec![9u8; 3];
    // content is three bytes: three-byte buffer leaves no room for the terminator
    let ok = handle.get_c_string(&mut buffer, 3, NSUTF8_STRING_ENCODING);
    assert!(!ok);
    assert_eq!(buffer, vec![9u8; 3]);
}

#[test]
fn fill_fails_when_max_length_overstates_the_buffer() {
    let handle = StringHandle::from_str("abc");
    let mut buffer = vec![9u8; 3];
    let ok = handle.get_c_string(&mut buffer, 4, NSUTF8_STRING_ENCODING);
    assert!(!ok);
    assert_eq!(buffer, vec![9u8; 3]);
}

#[test]
fn fill_writes_content_terminator_and_keeps_the_tail() {
    let handle = StringHandle::from_str("ab");
    let mut buffer = vec![9u8; 5];
    let ok = handle.get_c_string(&mut buffer, 3, NSUTF8_STRING_ENCODING);
    assert!(ok);
    assert_eq!(buffer, vec![97u8, 98u8, 0u8, 9u8, 9u8]);
}

#[test]
fn successful_fill_decodes_without_terminator() {
    let buffer = vec![104u8, 105u8, 0u8];
    assert_eq!(decode_filled_buffer(buffer, true), "hi");
}

#[test]
fn empty_buffer_decodes_to_empty() {
    // a successful fill always wrote at least the terminator; with nothing
    // to strip there is no content
    assert_eq!(decode_filled_buffer(Vec::new(), true), "");
    // zero-length contents: the buffer holds the terminator alone
    assert_eq!(decode_filled_buffer(vec![0u8], true), "");
}

#[test]
fn invalid_bytes_decode_to_empty() {
    // 0xff can never occur in a UTF-8 encoding; the defensive path normalizes
    // it to no content
    let buffer = vec![255u8, 0u8];
    assert_eq!(decode_filled_buffer(buffer, true), "");
}

#[test]
fn leak_grows_the_ledger_by_one_per_call() {
    let mut ledger = AutoreleaseLedger::new();
    assert_eq!(ledger.pending_count(), 0);
    leak("leaked once", &mut ledger);
    assert_eq!(ledger.pending_count(), 1);
    leak("leaked twice", &mut ledger);
    leak("leaked thrice", &mut ledger);
    assert_eq!(ledger.pending_count(), 3);
}

#[test]
fn no_leak_strategies_leave_the_ledger_unchanged() {
    let mut ledger = AutoreleaseLedger::new();
    leak("pre-existing temporary", &mut ledger);
    no_leak_autoreleasepool("safe via pool \u{1f37a}", &mut ledger);
    assert_eq!(ledger.pending_count(), 1);
    no_leak_vec("safe via buffer \u{1f37a}", &mut ledger);
    assert_eq!(ledger.pending_count(), 1);
}

#[test]
fn nested_pools_drain_to_their_own_floors() {
    let mut ledger = AutoreleaseLedger::new();
    ledger.autorelease();
    let outer = AutoreleasePool::open(&ledger);
    ledger.autorelease();
    ledger.autorelease();
    let inner = AutoreleasePool::open(&ledger);
    ledger.autorelease();
    inner.drain(&mut ledger);
    assert_eq!(ledger.pending_count(), 3);
    outer.drain(&mut ledger);
    assert_eq!(ledger.pending_count(), 1);
}
