//! Where a run writes: the listing on one stream, diagnostics on the other.

use vstd::prelude::*;
use vstd::string::StringSliceAdditionalSpecFns;

verus! {

/// Collects what a run prints, rendered as bytes and kept apart by stream.
pub struct WriterWorld {
    stdout: Vec<u8>,
    stderr: Vec<u8>,
}

/// A line of text framed by the escape sequence that opens it.
pub open spec fn framed(open: &str, text: Seq<char>) -> Seq<u8> {
    open.spec_bytes() + vstd::utf8::encode_utf8(text) + "\x1b[0m\n".spec_bytes()
}

impl WriterWorld {
    /// The bytes written to the output stream so far.
    pub closed spec fn out(&self) -> Seq<u8> {
        self.stdout@
    }

    /// The bytes written to the diagnostic stream so far.
    pub closed spec fn err(&self) -> Seq<u8> {
        self.stderr@
    }

    /// A world that continues the two given streams.
    pub fn new(stdout: Vec<u8>, stderr: Vec<u8>) -> (world: Self)
        ensures
            world.out() == stdout@,
            world.err() == stderr@,
    {
        WriterWorld { stdout, stderr }
    }

    /// Hands back both streams with everything written to them.
    pub fn outputs(self) -> (streams: (Vec<u8>, Vec<u8>))
        ensures
            streams.0@ == self.out(),
            streams.1@ == self.err(),
    {
        (self.stdout, self.stderr)
    }

    /// Writes bytes to the output stream as they are.
    pub fn output(&mut self, bytes: &[u8])
        ensures
            final(self).out() == old(self).out() + bytes@,
            final(self).err() == old(self).err(),
    {
        self.stdout.extend_from_slice(bytes);
    }

    /// Writes bytes to the diagnostic stream as they are.
    pub fn stderr_raw_bytes(&mut self, bytes: &[u8])
        ensures
            final(self).err() == old(self).err() + bytes@,
            final(self).out() == old(self).out(),
    {
        self.stderr.extend_from_slice(bytes);
    }

    fn line(&mut self, open: &str, text: &str)
        ensures
            final(self).err() == old(self).err() + framed(open, text@),
            final(self).out() == old(self).out(),
    {
        self.stderr.extend_from_slice(open.as_bytes());
        self.stderr.extend_from_slice(text.as_bytes());
        self.stderr.extend_from_slice("\x1b[0m\n".as_bytes());
    }

    /// Writes a warning: bold yellow, one line.
    pub fn warning(&mut self, text: &str)
        ensures
            final(self).err() == old(self).err() + framed("\x1b[0;1;33m", text@),
            final(self).out() == old(self).out(),
    {
        self.line("\x1b[0;1;33m", text);
    }

    /// Writes an error: bold red, one line.
    pub fn error(&mut self, text: &str)
        ensures
            final(self).err() == old(self).err() + framed("\x1b[0;1;31m", text@),
            final(self).out() == old(self).out(),
    {
        self.line("\x1b[0;1;31m", text);
    }

    /// Writes the header of a failed file: red, one line.
    pub fn check_failed(&mut self, text: &str)
        ensures
            final(self).err() == old(self).err() + framed("\x1b[0;31m", text@),
            final(self).out() == old(self).out(),
    {
        self.line("\x1b[0;31m", text);
    }

    /// Writes one cause under a failed file: yellow, indented by an arrow.
    pub fn check_failed_info(&mut self, text: &str)
        ensures
            final(self).err() == old(self).err() + framed("\x1b[0;33m > ", text@),
            final(self).out() == old(self).out(),
    {
        self.line("\x1b[0;33m > ", text);
    }
}

} // verus!
