//! The output buffer: the text of one frame, gathered before it is sent to
//! the terminal in one piece.

use vstd::prelude::*;
use vstd::string::{StringExecFns, StringSliceAdditionalSpecFns};
use vstd::utf8::{decode_utf8, valid_utf8};

verus! {

/// The error of `core::str::from_utf8`.
#[verifier::external_type_specification]
#[verifier::external_body]
pub struct ExUtf8Error(core::str::Utf8Error);

/// `core::str::from_utf8` succeeds exactly on the byte strings that are
/// valid UTF-8, and then gives the string slice with those bytes.
pub assume_specification[ core::str::from_utf8 ](v: &[u8]) -> (res: Result<
    &str,
    core::str::Utf8Error,
>)
    ensures
        res is Ok <==> valid_utf8(v@),
        res matches Ok(s) ==> s.spec_bytes() == v@,
;

/// Bytes that are not valid UTF-8 were written to the buffer.
#[derive(Clone, Copy, Debug, PartialEq, Eq, Structural)]
pub struct InvalidData;

pub struct Buf {
    content: String,
}

impl View for Buf {
    type V = Seq<char>;

    /// The text gathered so far.
    closed spec fn view(&self) -> Seq<char> {
        self.content@
    }
}

impl Buf {
    pub fn new() -> (buf: Self)
        ensures
            buf@ == Seq::<char>::empty(),
    {
        Self { content: String::new() }
    }

    pub fn push_chr(&mut self, chr: char)
        ensures
            final(self)@ == old(self)@.push(chr),
    {
        self.content.push(chr)
    }

    pub fn push_str(&mut self, str: &str)
        ensures
            final(self)@ == old(self)@ + str@,
    {
        self.content.append(str)
    }

    /// Appends the characters of `chars`.
    pub fn push_chars(&mut self, chars: &Vec<char>)
        ensures
            final(self)@ == old(self)@ + chars@,
    {
        let mut i: usize = 0;
        while i < chars.len()
            invariant
                i <= chars.len(),
                self@ == old(self)@ + chars@.take(i as int),
            decreases chars.len() - i,
        {
            self.content.push(chars[i]);
            i += 1;
            assert(chars@.take(i as int) =~= chars@.take(i - 1).push(chars@[i - 1]));
        }
        assert(chars@.take(chars@.len() as int) =~= chars@);
    }

    /// Appends the text that `ext_buf` encodes and returns the number of
    /// bytes taken, which is all of them; refuses bytes that are not valid
    /// UTF-8 and then leaves the buffer as it is.
    pub fn write(&mut self, ext_buf: &[u8]) -> (res: Result<usize, InvalidData>)
        ensures
            match res {
                Ok(n) => {
                    &&& valid_utf8(ext_buf@)
                    &&& n == ext_buf@.len()
                    &&& final(self)@ == old(self)@ + decode_utf8(ext_buf@)
                },
                Err(_) => !valid_utf8(ext_buf@) && *final(self) == *old(self),
            },
    {
        match core::str::from_utf8(ext_buf) {
            Ok(s) => {
                proof {
                    vstd::utf8::encode_utf8_decode_utf8(s@);
                }
                self.content.append(s);
                Ok(ext_buf.len())
            },
            Err(_) => Err(InvalidData),
        }
    }

    /// Empties the buffer and hands out what it held, for the caller to send
    /// to the terminal.
    pub fn flush(&mut self) -> (frame: String)
        ensures
            frame@ == old(self)@,
            final(self)@ == Seq::<char>::empty(),
    {
        let mut frame = String::new();
        core::mem::swap(&mut frame, &mut self.content);
        frame
    }
}

} // verus!
