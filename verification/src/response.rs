use vstd::prelude::*;
use crate::utf8::check_utf8;
use crate::utf8::is_utf8;

verus! {

/// Why a response buffer was rejected.
#[derive(Debug, Copy, Clone, PartialEq, Eq, Structural)]
pub enum ErrorKind {
    /// The raw buffer is not a NUL-terminated UTF-8 byte string; the frame
    /// itself is broken, before any grammar is considered.
    MalformedResponse,
    /// The buffer was well framed but its text does not match the grammar of
    /// the command the caller expected an answer to.
    ResponseParse,
}

/// A buffer framed like a C string: non-empty, ending in the one NUL byte it
/// holds, with no NUL anywhere before the terminator.
pub open spec fn nul_framed(s: Seq<u8>) -> bool {
    &&& s.len() >= 1
    &&& s[s.len() - 1] == 0u8
    &&& forall|i: int| 0 <= i < s.len() - 1 ==> s[i] != 0u8
}

/// The text of a framed buffer: every byte before the NUL terminator.
pub open spec fn text_of(s: Seq<u8>) -> Seq<u8> {
    s.take(s.len() - 1)
}

/// A response buffer is well formed when it is NUL-framed and its text is
/// valid UTF-8.
pub open spec fn well_formed_response(s: Seq<u8>) -> bool {
    nul_framed(s) && is_utf8(text_of(s))
}

/// Extracts the text bytes of a response buffer, rejecting as malformed any
/// buffer that is not a NUL-terminated UTF-8 byte string. Every parser in
/// this crate applies this step before its own grammar.
pub fn response_text(response: &[u8]) -> (r: Result<Vec<u8>, ErrorKind>)
    ensures
        match r {
            Ok(text) => well_formed_response(response@) && text@ == text_of(response@),
            Err(e) => !well_formed_response(response@) && e == ErrorKind::MalformedResponse,
        },
{
    let n = response.len();
    if n == 0 {
        return Err(ErrorKind::MalformedResponse);
    }
    if response[n - 1] != 0 {
        return Err(ErrorKind::MalformedResponse);
    }
    let mut text: Vec<u8> = Vec::new();
    let mut i: usize = 0;
    while i < n - 1
        invariant
            1 <= n == response@.len(),
            response@[n - 1] == 0u8,
            i <= n - 1,
            text@ == response@.take(i as int),
            forall|j: int| 0 <= j < i ==> response@[j] != 0u8,
        decreases n - 1 - i,
    {
        let b = response[i];
        if b == 0 {
            return Err(ErrorKind::MalformedResponse);
        }
        text.push(b);
        proof {
            assert(text@ =~= response@.take(i + 1));
        }
        i = i + 1;
    }
    if check_utf8(&text) {
        Ok(text)
    } else {
        Err(ErrorKind::MalformedResponse)
    }
}

} // verus!
