//! The encoded result handed to the caller: one owned, NUL-terminated buffer
//! per call. Releasing it consumes the handle, so it is released exactly once.
use vstd::prelude::*;

verus! {

/// Bytes that end in a single NUL and hold no other.
pub open spec fn nul_terminated(bytes: Seq<u8>) -> bool {
    &&& bytes.len() > 0
    &&& bytes.last() == 0u8
    &&& forall|i: int| 0 <= i < bytes.len() - 1 ==> bytes[i] != 0u8
}

/// An encoded result, framed with its terminating NUL. Not `Clone`: the one
/// handle owns the buffer.
pub struct ResultBuffer {
    bytes: Vec<u8>,
}

impl View for ResultBuffer {
    type V = Seq<u8>;

    /// The framed bytes, terminator included.
    closed spec fn view(&self) -> Seq<u8> {
        self.bytes@
    }
}

impl ResultBuffer {
    #[verifier::type_invariant]
    spec fn framed(&self) -> bool {
        nul_terminated(self.bytes@)
    }

    /// Frames encoded text for the caller. Text that holds a NUL byte cannot be
    /// framed and is refused.
    pub fn frame(text: Vec<u8>) -> (r: Option<ResultBuffer>)
        ensures
            r is Some <==> (forall|i: int| 0 <= i < text@.len() ==> text@[i] != 0u8),
            r is Some ==> r->Some_0@ == text@.push(0u8),
    {
        let mut i: usize = 0;
        while i < text.len()
            invariant
                0 <= i <= text@.len(),
                forall|j: int| 0 <= j < i ==> text@[j] != 0u8,
            decreases text@.len() - i,
        {
            if text[i] == 0 {
                return None;
            }
            i = i + 1;
        }
        let mut bytes = text;
        bytes.push(0);
        assert(nul_terminated(bytes@));
        Some(ResultBuffer { bytes })
    }

    /// The framed bytes, terminator included.
    pub fn as_bytes(&self) -> (r: &[u8])
        ensures
            r@ == self@,
            nul_terminated(r@),
    {
        proof {
            use_type_invariant(self);
        }
        self.bytes.as_slice()
    }

    /// Gives up the handle for the framed bytes, terminator included.
    pub fn into_bytes(self) -> (r: Vec<u8>)
        ensures
            r@ == self@,
            nul_terminated(r@),
    {
        proof {
            use_type_invariant(&self);
        }
        self.bytes
    }

    /// Releases the buffer. The handle is consumed, so a second release or a
    /// use after release does not compile.
    pub fn release(self) {
    }
}

} // verus!
