use crate::error::Error;
use crate::text::decode_text;
use vstd::prelude::*;
use vstd::utf8::{decode_utf8, valid_utf8};

verus! {

/// The native success code.
pub const NIX_OK: i32 = 0;

/// The distinguished native code meaning "requested key or attribute absent",
/// distinct from generic failure.
pub const NIX_ERR_KEY: i32 = -3;

/// What the wrapper reads back from a native error context after a call: the
/// error code, and — when the code is not the success code — a copy of the
/// message taken immediately, since the native message is valid only until
/// the context is reused or freed.
pub struct Context {
    pub code: i32,
    pub msg: Vec<u8>,
}

impl Context {
    /// Record a code and the message bytes copied out of a native context.
    pub fn new(code: i32, msg: Vec<u8>) -> (c: Context)
        ensures
            c.code == code,
            c.msg@ == msg@,
    {
        Context { code, msg }
    }

    /// Turn the recorded outcome of the most recent native call into a
    /// result: ok exactly on the success code, otherwise the decoded message
    /// as a native-call error — or a decoding error when the message bytes
    /// are not valid text.
    pub fn check_err(&self) -> (r: Result<(), Error>)
        ensures
            r is Ok <==> self.code == NIX_OK,
            self.code != NIX_OK && valid_utf8(self.msg@) ==> (r matches Err(
                Error::NativeCall(code, message),
            ) && code == self.code && message@ == decode_utf8(self.msg@)),
            self.code != NIX_OK && !valid_utf8(self.msg@) ==> r == Err::<(), Error>(
                Error::TextDecoding,
            ),
    {
        if self.code == NIX_OK {
            Ok(())
        } else {
            match decode_text(self.msg.as_slice()) {
                Ok(message) => Err(Error::NativeCall(self.code, message)),
                Err(e) => Err(e),
            }
        }
    }

    /// True exactly when the recorded code is the distinguished "key not
    /// found" code, so callers can treat an absent key as a normal outcome
    /// instead of a hard failure.
    pub fn is_key_error(&self) -> (r: bool)
        ensures
            r == (self.code == NIX_ERR_KEY),
    {
        self.code == NIX_ERR_KEY
    }
}

} // verus!
