//! Log lines for the native loggers: the level, the place in the source and
//! the text, prepared as the native log calls take them.

use crate::atmictx::AtmiCtx;
use crate::text::{c_string, has_nul, terminated};
use vstd::prelude::*;
use vstd::string::*;
use vstd::utf8::encode_utf8;

verus! {

/// How much a log line matters, from what is always written down to a dump.
#[derive(Copy, Clone, Debug, PartialEq, Eq, Structural)]
pub enum LogLevel {
    Always,
    Error,
    Warn,
    Info,
    Debug,
    Dump,
}

impl LogLevel {
    /// The number by which the native loggers know the level.
    pub open spec fn number(self) -> i32 {
        match self {
            LogLevel::Always => 1,
            LogLevel::Error => 2,
            LogLevel::Warn => 3,
            LogLevel::Info => 4,
            LogLevel::Debug => 5,
            LogLevel::Dump => 6,
        }
    }

    pub fn code(self) -> (n: i32)
        ensures
            n == self.number(),
    {
        match self {
            LogLevel::Always => 1,
            LogLevel::Error => 2,
            LogLevel::Warn => 3,
            LogLevel::Info => 4,
            LogLevel::Debug => 5,
            LogLevel::Dump => 6,
        }
    }
}

impl From<LogLevel> for i32 {
    fn from(l: LogLevel) -> (n: i32) {
        l.code()
    }
}

impl vstd::std_specs::convert::FromSpecImpl<LogLevel> for i32 {
    open spec fn obeys_from_spec() -> bool {
        true
    }

    open spec fn from_spec(l: LogLevel) -> i32 {
        l.number()
    }
}

/// The native logger that a line goes to.
#[derive(Copy, Clone, Debug, PartialEq, Eq, Structural)]
pub enum Logger {
    /// The logger of the application.
    Tp,
    /// The logger of the transaction-processing core.
    Ndrx,
    /// The logger of the structured-buffer library.
    Ubf,
}

/// One call of a native logger. `file` and `message` are terminated byte
/// strings.
#[derive(Debug, PartialEq, Eq)]
pub struct LogCall {
    pub logger: Logger,
    pub level: i32,
    pub file: Vec<u8>,
    pub line: i64,
    pub message: Vec<u8>,
}

pub struct LogCallView {
    pub logger: Logger,
    pub level: i32,
    pub file: Seq<u8>,
    pub line: i64,
    pub message: Seq<u8>,
}

impl View for LogCall {
    type V = LogCallView;

    open spec fn view(&self) -> LogCallView {
        LogCallView {
            logger: self.logger,
            level: self.level,
            file: self.file@,
            line: self.line,
            message: self.message@,
        }
    }
}

/// `bytes` with every zero byte left out.
pub open spec fn without_nul(bytes: Seq<u8>) -> Seq<u8> {
    bytes.filter(|b: u8| b != 0u8)
}

proof fn lemma_without_nul_push(bytes: Seq<u8>, b: u8)
    ensures
        without_nul(bytes.push(b)) == if b != 0u8 {
            without_nul(bytes).push(b)
        } else {
            without_nul(bytes)
        },
{
    reveal(Seq::filter);
    assert(bytes.push(b).drop_last() =~= bytes);
}

/// The call that logs `msg` at `level` for the place `file`:`line`, if there
/// is one. The text is logged without the zero bytes that it may hold. A
/// file name that holds a zero byte names no place: nothing is logged then.
pub open spec fn log_call(
    logger: Logger,
    level: LogLevel,
    file: Seq<char>,
    line: u32,
    msg: Seq<char>,
) -> Option<LogCallView> {
    if has_nul(encode_utf8(file)) {
        None
    } else {
        Some(
            LogCallView {
                logger,
                level: level.number(),
                file: terminated(encode_utf8(file)),
                line: line as i64,
                message: terminated(without_nul(encode_utf8(msg))),
            },
        )
    }
}

/// Copies `bytes` without its zero bytes and puts the terminator at the end.
fn sanitized(bytes: &[u8]) -> (out: Vec<u8>)
    ensures
        out@ == terminated(without_nul(bytes@)),
{
    let mut out: Vec<u8> = Vec::new();
    let mut i: usize = 0;
    proof {
        reveal(Seq::filter);
        assert(bytes@.take(0) =~= Seq::<u8>::empty());
    }
    while i < bytes.len()
        invariant
            i <= bytes.len(),
            out@ == without_nul(bytes@.take(i as int)),
        decreases bytes.len() - i,
    {
        let b: u8 = bytes[i];
        proof {
            lemma_without_nul_push(bytes@.take(i as int), b);
            assert(bytes@.take(i as int).push(b) =~= bytes@.take(i + 1));
        }
        if b != 0 {
            out.push(b);
        }
        i += 1;
    }
    proof {
        assert(bytes@.take(i as int) =~= bytes@);
    }
    out.push(0u8);
    out
}

fn call_logex(logger: Logger, level: LogLevel, file: &str, line: u32, msg: &str) -> (r: Option<
    LogCall,
>)
    ensures
        match log_call(logger, level, file@, line, msg@) {
            Some(call) => r matches Some(c) && c@ == call,
            None => r is None,
        },
{
    let c_file = match c_string(file) {
        Ok(bytes) => bytes,
        Err(_) => {
            return None;
        },
    };
    let c_msg = sanitized(msg.as_bytes());
    Some(LogCall { logger, level: level.code(), file: c_file, line: line as i64, message: c_msg })
}

impl AtmiCtx {
    /// Prepares a line for the application's logger; see `log_call`.
    #[inline]
    pub fn tplog_str(&self, level: LogLevel, file: &'static str, line: u32, msg: &str) -> (r:
        Option<LogCall>)
        ensures
            match log_call(Logger::Tp, level, file@, line, msg@) {
                Some(call) => r matches Some(c) && c@ == call,
                None => r is None,
            },
    {
        call_logex(Logger::Tp, level, file, line, msg)
    }

    /// Prepares a line for the logger of the transaction-processing core;
    /// see `log_call`.
    #[inline]
    pub fn ndrxlog_str(&self, level: LogLevel, file: &'static str, line: u32, msg: &str) -> (r:
        Option<LogCall>)
        ensures
            match log_call(Logger::Ndrx, level, file@, line, msg@) {
                Some(call) => r matches Some(c) && c@ == call,
                None => r is None,
            },
    {
        call_logex(Logger::Ndrx, level, file, line, msg)
    }

    /// Prepares a line for the logger of the structured-buffer library; see
    /// `log_call`.
    #[inline]
    pub fn ubflog_str(&self, level: LogLevel, file: &'static str, line: u32, msg: &str) -> (r:
        Option<LogCall>)
        ensures
            match log_call(Logger::Ubf, level, file@, line, msg@) {
                Some(call) => r matches Some(c) && c@ == call,
                None => r is None,
            },
    {
        call_logex(Logger::Ubf, level, file, line, msg)
    }
}

} // verus!
