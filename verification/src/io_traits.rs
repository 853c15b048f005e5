//! Output sinks for chat sessions: a terminal-backed sink and an in-memory
//! buffer sink. A sub-agent runs against the buffer sink so that its whole
//! transcript is captured without touching the parent terminal. Writes to
//! either handle of the buffer sink land in one buffer, in write order, so
//! that downstream parsing sees a single transcript.

use vstd::prelude::*;

verus! {

#[verifier::external_type_specification]
#[verifier::external_body]
pub struct ExStdout(std::io::Stdout);

#[verifier::external_type_specification]
#[verifier::external_body]
pub struct ExStderr(std::io::Stderr);

/// An error carried out of a failed terminal write, as display text.
#[derive(Debug)]
pub struct OutputError {
    pub message: String,
}

/// Capability for handling output in chat sessions: one handle for
/// structured/result output and one for interactive/display output.
pub trait ChatOutput {
    type OutWriter;
    type ErrWriter;

    /// Get the writer for structured output (tool results, conversation data).
    fn stdout(&mut self) -> &mut Self::OutWriter;

    /// Get the writer for UI/display output (prompts, errors, formatting).
    fn stderr(&mut self) -> &mut Self::ErrWriter;
}

/// Standard terminal-based I/O implementation.
pub struct StandardIO {
    pub stdout: std::io::Stdout,
    pub stderr: std::io::Stderr,
}

impl ChatOutput for StandardIO {
    type ErrWriter = std::io::Stderr;

    type OutWriter = std::io::Stdout;

    fn stdout(&mut self) -> (r: &mut std::io::Stdout)
        ensures
            *r == old(self).stdout,
            *final(self) == (StandardIO { stdout: *final(r), stderr: old(self).stderr }),
    {
        &mut self.stdout
    }

    fn stderr(&mut self) -> (r: &mut std::io::Stderr)
        ensures
            *r == old(self).stderr,
            *final(self) == (StandardIO { stdout: old(self).stdout, stderr: *final(r) }),
    {
        &mut self.stderr
    }
}

/// Buffered I/O implementation for non-interactive sessions. Both handles
/// alias the same buffer: relative write order is preserved across handles.
pub struct BufferedIO {
    pub buffer: Vec<u8>,
}

impl BufferedIO {
    pub fn new() -> (r: Self)
        ensures
            r.buffer@ == Seq::<u8>::empty(),
    {
        Self { buffer: Vec::new() }
    }
}

impl Default for BufferedIO {
    fn default() -> (r: Self)
        ensures
            r.buffer@ == Seq::<u8>::empty(),
    {
        Self::new()
    }
}

impl ChatOutput for BufferedIO {
    type ErrWriter = Vec<u8>;

    type OutWriter = Vec<u8>;

    fn stdout(&mut self) -> (r: &mut Vec<u8>)
        ensures
            *r == old(self).buffer,
            *final(self) == (BufferedIO { buffer: *final(r) }),
    {
        &mut self.buffer
    }

    fn stderr(&mut self) -> (r: &mut Vec<u8>)
        ensures
            *r == old(self).buffer,
            *final(self) == (BufferedIO { buffer: *final(r) }),
    {
        &mut self.buffer
    }
}

/// Relies on `<std::io::Stdout as std::io::Write>::write`: a successful write
/// consumes at most `data.len()` bytes and returns how many were written.
#[verifier::external_body]
fn stdout_write(w: &mut std::io::Stdout, data: &[u8]) -> (r: Result<usize, OutputError>)
    ensures
        r matches Ok(n) ==> n <= data@.len(),
{
    match std::io::Write::write(w, data) {
        Ok(n) => Ok(n),
        Err(e) => Err(OutputError { message: format!("{}", e) }),
    }
}

/// Relies on `<std::io::Stderr as std::io::Write>::write`: a successful write
/// consumes at most `data.len()` bytes and returns how many were written.
#[verifier::external_body]
fn stderr_write(w: &mut std::io::Stderr, data: &[u8]) -> (r: Result<usize, OutputError>)
    ensures
        r matches Ok(n) ==> n <= data@.len(),
{
    match std::io::Write::write(w, data) {
        Ok(n) => Ok(n),
        Err(e) => Err(OutputError { message: format!("{}", e) }),
    }
}

/// A sink selected per task: the parent terminal, or a capture buffer.
pub enum ChatIO {
    StdIO(StandardIO),
    BufferedIO(BufferedIO),
}

impl ChatIO {
    /// Write to the structured-output handle of whichever sink this is.
    /// On the buffer variant the data is appended whole.
    pub fn write_stdout(&mut self, data: &[u8]) -> (r: Result<usize, OutputError>)
        ensures
            *old(self) matches ChatIO::BufferedIO(b) ==> (*final(self) matches ChatIO::BufferedIO(
                b2,
            ) && b2.buffer@ == b.buffer@ + data@ && (r matches Ok(n) && n == data@.len())),
            *old(self) is StdIO ==> (*final(self) is StdIO && (r matches Ok(n) ==> n
                <= data@.len())),
    {
        match self {
            ChatIO::BufferedIO(buffered_io) => {
                buffered_io.buffer.extend_from_slice(data);
                Ok(data.len())
            },
            ChatIO::StdIO(std_io) => stdout_write(&mut std_io.stdout, data),
        }
    }

    /// Write to the display handle of whichever sink this is. On the buffer
    /// variant both handles alias one buffer, so the data is appended there.
    pub fn write_stderr(&mut self, data: &[u8]) -> (r: Result<usize, OutputError>)
        ensures
            *old(self) matches ChatIO::BufferedIO(b) ==> (*final(self) matches ChatIO::BufferedIO(
                b2,
            ) && b2.buffer@ == b.buffer@ + data@ && (r matches Ok(n) && n == data@.len())),
            *old(self) is StdIO ==> (*final(self) is StdIO && (r matches Ok(n) ==> n
                <= data@.len())),
    {
        match self {
            ChatIO::BufferedIO(buffered_io) => {
                buffered_io.buffer.extend_from_slice(data);
                Ok(data.len())
            },
            ChatIO::StdIO(std_io) => stderr_write(&mut std_io.stderr, data),
        }
    }
}

} // verus!
