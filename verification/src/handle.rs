use crate::pool::AutoreleaseLedger;
use vstd::prelude::*;
use vstd::string::StrSliceExecFns;
use vstd::utf8::{decode_utf8, decode_utf8_encode_utf8, encode_utf8, encode_utf8_decode_utf8,
    encode_utf8_valid_utf8, valid_utf8};

verus! {

/// What the fill operation leaves in a destination buffer on success: the
/// encoded contents, one terminator byte, and every byte after the written
/// region untouched.
pub open spec fn filled_bytes(content: Seq<char>, orig: Seq<u8>) -> Seq<u8> {
    encode_utf8(content) + seq![0u8] + orig.skip(encode_utf8(content).len() + 1 as int)
}

/// Encoding identifier selecting UTF-8 under the foreign runtime's convention.
pub const NSUTF8_STRING_ENCODING: usize = 4;

/// Model of a foreign, reference-counted string handle: an opaque object that
/// owns its contents as a UTF-8 byte buffer. Callers see only the decoded
/// contents (the view) and the query and copy operations below; the backing
/// bytes are never handed out by reference.
pub struct StringHandle {
    bytes: Vec<u8>,
}

impl View for StringHandle {
    type V = Seq<char>;

    closed spec fn view(&self) -> Seq<char> {
        decode_utf8(self.bytes@)
    }
}

impl StringHandle {
    /// The backing buffer always holds a valid UTF-8 encoding of the contents.
    #[verifier::type_invariant]
    spec fn wf(self) -> bool {
        valid_utf8(self.bytes@)
    }

    /// Construction collaborator: build a handle whose contents equal the
    /// given native string.
    pub fn from_str(s: &str) -> (handle: StringHandle)
        ensures
            handle@ == s@,
    {
        let bytes = s.as_bytes_vec();
        proof {
            encode_utf8_valid_utf8(s@);
            encode_utf8_decode_utf8(s@);
        }
        StringHandle { bytes }
    }

    /// Length-query collaborator: the byte length of the contents under the
    /// given encoding, excluding any terminator. Only the UTF-8 encoding is
    /// supported by this model; any other identifier reports length zero, as
    /// the foreign query does for an inapplicable encoding.
    pub fn length_of_bytes(&self, encoding: usize) -> (n: usize)
        ensures
            encoding == NSUTF8_STRING_ENCODING ==> n == encode_utf8(self@).len(),
            encoding != NSUTF8_STRING_ENCODING ==> n == 0,
    {
        if encoding == NSUTF8_STRING_ENCODING {
            proof {
                use_type_invariant(self);
                decode_utf8_encode_utf8(self.bytes@);
            }
            self.bytes.len()
        } else {
            0
        }
    }

    /// Fill collaborator: render the contents into `buffer` under the given
    /// encoding, writing at most `max_length` bytes — the content followed by
    /// a single terminator byte — and report success. The operation fails,
    /// leaving the buffer untouched, when the encoding is unsupported, when
    /// the content plus terminator does not fit in `max_length`, or when
    /// `max_length` overstates the buffer's size.
    pub fn get_c_string(&self, buffer: &mut Vec<u8>, max_length: usize, encoding: usize) -> (ok:
        bool)
        ensures
            ok <==> (encoding == NSUTF8_STRING_ENCODING && encode_utf8(self@).len() < max_length
                && max_length <= old(buffer)@.len()),
            ok ==> final(buffer)@ == filled_bytes(self@, old(buffer)@),
            !ok ==> final(buffer)@ == old(buffer)@,
    {
        proof {
            use_type_invariant(self);
            decode_utf8_encode_utf8(self.bytes@);
        }
        let n: usize = self.bytes.len();
        if encoding != NSUTF8_STRING_ENCODING {
            return false;
        }
        if !(n < max_length && max_length <= buffer.len()) {
            return false;
        }
        let mut filled: Vec<u8> = Vec::new();
        let mut i: usize = 0;
        while i < n
            invariant
                i <= n,
                n == self.bytes@.len(),
                filled@ == self.bytes@.take(i as int),
            decreases n - i,
        {
            filled.push(self.bytes[i]);
            proof {
                assert(filled@ =~= self.bytes@.take(i + 1));
            }
            i = i + 1;
        }
        filled.push(0u8);
        proof {
            assert(filled@ =~= self.bytes@ + seq![0u8] + buffer@.skip(n + 1).take(0));
        }
        let mut j: usize = n + 1;
        while j < buffer.len()
            invariant
                n + 1 <= j <= buffer@.len(),
                n == self.bytes@.len(),
                filled@ == self.bytes@ + seq![0u8] + buffer@.skip(n + 1).take(j - n - 1),
            decreases buffer@.len() - j,
        {
            filled.push(buffer[j]);
            proof {
                assert(filled@ =~= self.bytes@ + seq![0u8] + buffer@.skip(n + 1).take(
                    j + 1 - n - 1));
            }
            j = j + 1;
        }
        proof {
            assert(filled@ =~= filled_bytes(self@, buffer@));
        }
        *buffer = filled;
        true
    }

    /// Borrowed-view accessor, the simplest read of the contents: it yields a
    /// copy of the contents, but the view it reads through is backed by a
    /// temporary object that the runtime autoreleases. The temporary is
    /// reclaimed only when an enclosing release boundary drains — with no
    /// boundary in place, it accumulates: the leak this library demonstrates.
    pub fn as_str_view(&self, ledger: &mut AutoreleaseLedger) -> (s: String)
        requires
            old(ledger).pending() < usize::MAX,
        ensures
            s@ == self@,
            final(ledger).pending() == old(ledger).pending() + 1,
    {
        ledger.autorelease();
        proof {
            use_type_invariant(self);
        }
        let copied = decode_bytes(&self.bytes);
        match copied {
            Some(s) => s,
            None => String::new(),
        }
    }
}

/// Relies on `String::from_utf8` (std): decodes the bytes when they are a
/// valid UTF-8 encoding, and reports `None` otherwise.
#[verifier::external_body]
pub(crate) fn decode_bytes(bytes: &Vec<u8>) -> (r: Option<String>)
    ensures
        r is Some <==> valid_utf8(bytes@),
        r matches Some(s) ==> s@ == decode_utf8(bytes@),
{
    String::from_utf8(bytes.clone()).ok()
}

} // verus!
