//! The kernel's log: where it goes and what a line of it looks like.

use vstd::prelude::*;
use vstd::string::StringSliceAdditionalSpecFns;

verus! {

/// The escape sequence that ends a coloured stretch of text.
pub const RESET_STR: &'static str = "\x1b[39m";

/// A place that takes the bytes of the log. It must not block for good and
/// must not trap.
pub trait LogSink: Send + Sync {
    fn write(&self, buffer: &[u8]);
}

/// How much a message matters.
#[allow(non_camel_case_types)]
#[derive(Clone, Copy, Debug, PartialEq, Eq, Structural)]
pub enum Level {
    DEBUG,
    INFO,
    WARNING,
    ERROR,
}

/// Why nothing was logged.
#[derive(Clone, Copy, Debug, PartialEq, Eq, Structural)]
pub enum LogError {
    /// No sink has been installed.
    NoSink,
}

/// The log: at most one sink, installed once the platform has one.
pub struct Log {
    sink: Option<&'static dyn LogSink>,
}

impl Level {
    /// The escape sequence that colours the level's tag.
    pub open spec fn spec_color_code(&self) -> &'static str {
        match self {
            Level::DEBUG => "\x1b[36m",
            Level::INFO => "\x1b[32m",
            Level::WARNING => "\x1b[33m",
            Level::ERROR => "\x1b[31m",
        }
    }

    /// The level's name as it stands in the tag.
    pub open spec fn spec_prefix(&self) -> &'static str {
        match self {
            Level::DEBUG => "DEBUG",
            Level::INFO => "INFO",
            Level::WARNING => "WARNING",
            Level::ERROR => "ERROR",
        }
    }

    #[verifier::when_used_as_spec(spec_color_code)]
    pub fn color_code(&self) -> (code: &'static str)
        ensures
            code == self.spec_color_code(),
    {
        match self {
            Level::DEBUG => "\x1b[36m",
            Level::INFO => "\x1b[32m",
            Level::WARNING => "\x1b[33m",
            Level::ERROR => "\x1b[31m",
        }
    }

    #[verifier::when_used_as_spec(spec_prefix)]
    pub fn prefix(&self) -> (name: &'static str)
        ensures
            name == self.spec_prefix(),
    {
        match self {
            Level::DEBUG => "DEBUG",
            Level::INFO => "INFO",
            Level::WARNING => "WARNING",
            Level::ERROR => "ERROR",
        }
    }
}

/// A line of the log: the level's name in square brackets and in the level's
/// colour, a space, then the message.
pub open spec fn record(level: Level, message: Seq<u8>) -> Seq<u8> {
    level.spec_color_code().spec_bytes() + "[".spec_bytes() + level.spec_prefix().spec_bytes()
        + "]".spec_bytes() + RESET_STR.spec_bytes() + " ".spec_bytes() + message
}

/// Appends `bytes` to `line`.
fn append(line: &mut Vec<u8>, bytes: &[u8])
    ensures
        final(line)@ == old(line)@ + bytes@,
{
    let mut i: usize = 0;
    while i < bytes.len()
        invariant
            i <= bytes@.len(),
            line@ == old(line)@ + bytes@.subrange(0, i as int),
        decreases bytes@.len() - i,
    {
        line.push(bytes[i]);
        i += 1;
        assert(line@ =~= old(line)@ + bytes@.subrange(0, i as int));
    }
    assert(bytes@.subrange(0, i as int) =~= bytes@);
}

/// Makes a line of the log out of a message.
pub fn format_record(level: Level, message: &[u8]) -> (line: Vec<u8>)
    ensures
        line@ == record(level, message@),
{
    let mut line: Vec<u8> = Vec::new();
    append(&mut line, level.color_code().as_bytes());
    append(&mut line, "[".as_bytes());
    append(&mut line, level.prefix().as_bytes());
    append(&mut line, "]".as_bytes());
    append(&mut line, RESET_STR.as_bytes());
    append(&mut line, " ".as_bytes());
    append(&mut line, message);
    assert(line@ =~= record(level, message@));
    line
}

impl Log {
    /// Whether a sink has been installed.
    pub closed spec fn spec_has_sink(&self) -> bool {
        self.sink is Some
    }

    /// A log that goes nowhere yet.
    pub fn new() -> (log: Log)
        ensures
            !log.spec_has_sink(),
    {
        Log { sink: None }
    }

    /// Installs `sink`, in place of any earlier one.
    pub fn set_sink(&mut self, sink: &'static dyn LogSink)
        ensures
            final(self).spec_has_sink(),
    {
        self.sink = Some(sink);
    }

    /// Whether a sink has been installed.
    #[verifier::when_used_as_spec(spec_has_sink)]
    pub fn has_sink(&self) -> (installed: bool)
        ensures
            installed == self.spec_has_sink(),
    {
        self.sink.is_some()
    }

    /// Hands `buffer` to the sink. Fails where there is none.
    pub fn write(&self, buffer: &[u8]) -> (done: Result<(), LogError>)
        ensures
            done is Ok <==> self.spec_has_sink(),
            done is Err ==> done == Err::<(), LogError>(LogError::NoSink),
    {
        if let Some(sink) = self.sink {
            sink.write(buffer);
            Ok(())
        } else {
            Err(LogError::NoSink)
        }
    }

    /// Hands the bytes of `s` to the sink. Fails where there is none.
    pub fn write_str(&self, s: &str) -> (done: Result<(), LogError>)
        ensures
            done is Ok <==> self.spec_has_sink(),
            done is Err ==> done == Err::<(), LogError>(LogError::NoSink),
    {
        self.write(s.as_bytes())
    }
}

} // verus!
