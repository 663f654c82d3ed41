use vstd::prelude::*;

verus! {

/// An output stream of a device, known to the library by the address of
/// libsoundio's stream object.
#[derive(Debug)]
pub struct OutStream {
    stream: usize,
}

impl OutStream {
    /// The address of the libsoundio stream object.
    pub closed spec fn handle_spec(&self) -> usize {
        self.stream
    }

    /// Wraps the libsoundio stream object found at `stream`.
    pub fn new(stream: usize) -> (s: OutStream)
        ensures
            s.handle_spec() == stream,
    {
        OutStream { stream }
    }

    /// Returns the address of the libsoundio stream object.
    pub fn handle(&self) -> (h: usize)
        ensures
            h == self.handle_spec(),
    {
        self.stream
    }
}

} // verus!
