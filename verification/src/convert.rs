use crate::handle::{decode_bytes, StringHandle, NSUTF8_STRING_ENCODING};
use crate::pool::{AutoreleaseLedger, AutoreleasePool};
use vstd::prelude::*;
use vstd::utf8::{decode_utf8, encode_utf8, encode_utf8_decode_utf8, encode_utf8_valid_utf8,
    valid_utf8};

verus! {

/// Allocate the transient byte buffer for the owned-buffer strategy:
/// `len + 1` zero-initialized bytes, the extra byte reserved for the
/// terminator that the fill operation writes.
fn zeroed_buffer(len: usize) -> (buf: Vec<u8>)
    ensures
        buf@.len() == len + 1,
        forall|k: int| 0 <= k < buf@.len() ==> buf@[k] == 0u8,
{
    let mut buf: Vec<u8> = Vec::new();
    let mut i: usize = 0;
    while i < len
        invariant
            i <= len,
            buf@.len() == i,
            forall|k: int| 0 <= k < i ==> buf@[k] == 0u8,
        decreases len - i,
    {
        buf.push(0u8);
        i = i + 1;
    }
    buf.push(0u8);
    buf
}

/// Post-fill step shared by every caller of a fill operation: on success,
/// strip the trailing terminator byte and decode the remaining bytes as
/// UTF-8. On fill failure — or on bytes that are not a valid UTF-8 encoding,
/// which a fill under the UTF-8 encoding never hands back, but which this
/// routine defends against — the result is the empty string: the caller has
/// no channel for the reason a foreign string failed to render, so failure
/// is normalized to no content.
pub fn decode_filled_buffer(buffer: Vec<u8>, is_success: bool) -> (r: String)
    ensures
        (is_success && buffer@.len() > 0 && valid_utf8(buffer@.drop_last())) ==> r@ == decode_utf8(
            buffer@.drop_last()),
        !(is_success && buffer@.len() > 0 && valid_utf8(buffer@.drop_last())) ==> r@
            == Seq::<char>::empty(),
{
    if is_success {
        let mut buf = buffer;
        let popped = buf.pop();
        match popped {
            Some(_) => {
                match decode_bytes(&buf) {
                    Some(s) => s,
                    None => String::new(),
                }
            },
            None => String::new(),
        }
    } else {
        String::new()
    }
}

/// Owned-buffer conversion strategy: query the handle's byte length under
/// the UTF-8 encoding, allocate an owned buffer of `length + 1` zero bytes,
/// have the handle render itself into it, then strip the terminator and
/// decode. The buffer is sized in encoded bytes, not characters, so
/// multi-byte content never truncates, and the result always equals the
/// handle's contents. No temporary is handed to the deferred-release
/// mechanism on this path.
pub fn convert_with_vec(nsstring: &StringHandle) -> (r: String)
    ensures
        r@ == nsstring@,
{
    let string_size: usize = nsstring.length_of_bytes(NSUTF8_STRING_ENCODING);
    let mut buffer: Vec<u8> = zeroed_buffer(string_size);
    let max_length: usize = buffer.len();
    let is_success: bool = nsstring.get_c_string(&mut buffer, max_length, NSUTF8_STRING_ENCODING);
    proof {
        lemma_buffer_round_trip(nsstring@);
        assert(buffer@.drop_last() =~= encode_utf8(nsstring@));
    }
    decode_filled_buffer(buffer, is_success)
}

/// Fallible variant of the owned-buffer strategy, under a caller-chosen
/// encoding: reports a failing fill instead of absorbing it. The model
/// supports only the UTF-8 encoding, so exactly the other identifiers fail.
pub fn try_convert_with_vec(nsstring: &StringHandle, encoding: usize) -> (r: Option<String>)
    ensures
        encoding == NSUTF8_STRING_ENCODING ==> (r matches Some(s) && s@ == nsstring@),
        encoding != NSUTF8_STRING_ENCODING ==> r is None,
{
    let string_size: usize = nsstring.length_of_bytes(encoding);
    let mut buffer: Vec<u8> = zeroed_buffer(string_size);
    let max_length: usize = buffer.len();
    let is_success: bool = nsstring.get_c_string(&mut buffer, max_length, encoding);
    if is_success {
        proof {
            lemma_buffer_round_trip(nsstring@);
            assert(buffer@.drop_last() =~= encode_utf8(nsstring@));
        }
        Some(decode_filled_buffer(buffer, true))
    } else {
        None
    }
}

/// Scoped-pool conversion strategy: open a release boundary, read the
/// contents through the borrowed-view accessor inside it, and drain the
/// boundary on the way out. The temporary backing the view is reclaimed
/// deterministically: the ledger ends exactly where it started.
pub fn convert_with_autoreleasepool(nsstring: &StringHandle, ledger: &mut AutoreleaseLedger) -> (r:
    String)
    requires
        old(ledger).pending() < usize::MAX,
    ensures
        r@ == nsstring@,
        final(ledger).pending() == old(ledger).pending(),
{
    let pool = AutoreleasePool::open(ledger);
    let s = nsstring.as_str_view(ledger);
    pool.drain(ledger);
    s
}

/// Leaking baseline, the anti-pattern kept for comparison: read the contents
/// through the borrowed-view accessor with no release boundary in place. The
/// temporary backing the view is never reclaimed — every call grows the
/// ledger by one.
pub fn leak(s: &str, ledger: &mut AutoreleaseLedger)
    requires
        old(ledger).pending() < usize::MAX,
    ensures
        final(ledger).pending() == old(ledger).pending() + 1,
{
    let nsstring = StringHandle::from_str(s);
    let _view = nsstring.as_str_view(ledger);
}

/// No leak with the scoped-pool strategy: build a handle, convert it inside
/// a release boundary, and leave the ledger as it was found.
pub fn no_leak_autoreleasepool(s: &str, ledger: &mut AutoreleaseLedger)
    requires
        old(ledger).pending() < usize::MAX,
    ensures
        final(ledger).pending() == old(ledger).pending(),
{
    let nsstring = StringHandle::from_str(s);
    let _converted = convert_with_autoreleasepool(&nsstring, ledger);
}

/// No leak with the owned-buffer strategy: build a handle and convert it
/// through a transient owned buffer. The ledger is taken only to state that
/// this strategy never touches the deferred-release mechanism at all.
pub fn no_leak_vec(s: &str, ledger: &mut AutoreleaseLedger)
    ensures
        final(ledger).pending() == old(ledger).pending(),
{
    let nsstring = StringHandle::from_str(s);
    let _converted = convert_with_vec(&nsstring);
}

/// Round trip of the owned-buffer pipeline: the UTF-8 encoding of any
/// character sequence is valid UTF-8; appending the terminator byte and then
/// stripping it gives the encoding back; and decoding the encoding yields
/// the original characters. Composed with the constructor's contract, this
/// is why converting a handle built from a native string returns that string
/// exactly, for multi-byte content as well as ASCII.
pub proof fn lemma_buffer_round_trip(content: Seq<char>)
    ensures
        valid_utf8(encode_utf8(content)),
        (encode_utf8(content) + seq![0u8]).drop_last() == encode_utf8(content),
        decode_utf8(encode_utf8(content)) == content,
{
    encode_utf8_valid_utf8(content);
    encode_utf8_decode_utf8(content);
    assert((encode_utf8(content) + seq![0u8]).drop_last() =~= encode_utf8(content));
}

/// Idempotence of conversion: each strategy's contract pins its result to
/// the handle's contents alone, and the handle is only ever read through a
/// shared reference, so two conversions of the same handle agree.
pub proof fn lemma_conversion_idempotent(
    handle_contents: Seq<char>,
    first: Seq<char>,
    second: Seq<char>,
)
    requires
        first == handle_contents,
        second == handle_contents,
    ensures
        first == second,
{
}

} // verus!
