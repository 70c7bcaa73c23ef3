//! The error values of the three subsystems. Each carries a numeric code and a
//! diagnostic text; the subsystems are kept apart by type, so a code is never
//! read in the wrong namespace.

use crate::text::{append_decimal, decimal};
use vstd::prelude::*;
use vstd::string::*;

verus! {

/// What an error value is, as far as contracts are concerned.
pub struct ErrorView {
    pub code: u32,
    pub message: Seq<char>,
}

/// The text form shared by all error values: the code in decimal between
/// `[code ` and `] `, then the diagnostic.
pub open spec fn rendered(code: u32, message: Seq<char>) -> Seq<char> {
    "[code "@ + decimal(code as nat) + "] "@ + message
}

fn render_parts(code: u32, message: &str) -> (s: String)
    ensures
        s@ == rendered(code, message@),
{
    let mut s = String::from_str("[code ");
    append_decimal(&mut s, code as u64);
    s.append("] ");
    s.append(message);
    s
}

/// An error of the session and transport subsystem.
#[derive(Debug, Clone, PartialEq, Eq)]
pub struct AtmiError {
    pub code: u32,
    pub message: String,
}

impl View for AtmiError {
    type V = ErrorView;

    open spec fn view(&self) -> ErrorView {
        ErrorView { code: self.code, message: self.message@ }
    }
}

impl AtmiError {
    pub const TPMINVAL: u32 = 0;

    pub const TPEABORT: u32 = 1;

    pub const TPEBADDESC: u32 = 2;

    pub const TPEBLOCK: u32 = 3;

    pub const TPEINVAL: u32 = 4;

    pub const TPELIMIT: u32 = 5;

    pub const TPENOENT: u32 = 6;

    pub const TPEOS: u32 = 7;

    pub const TPEPERM: u32 = 8;

    pub const TPEPROTO: u32 = 9;

    pub const TPESVCERR: u32 = 10;

    pub const TPESVCFAIL: u32 = 11;

    pub const TPESYSTEM: u32 = 12;

    pub const TPETIME: u32 = 13;

    pub const TPETRAN: u32 = 14;

    pub const TPGOTSIG: u32 = 15;

    pub const TPERMERR: u32 = 16;

    pub const TPEITYPE: u32 = 17;

    pub const TPEOTYPE: u32 = 18;

    pub const TPERELEASE: u32 = 19;

    pub const TPEHAZARD: u32 = 20;

    pub const TPEHEURISTIC: u32 = 21;

    pub const TPEEVENT: u32 = 22;

    pub const TPEMATCH: u32 = 23;

    pub const TPEDIAGNOSTIC: u32 = 24;

    pub const TPEMIB: u32 = 25;

    pub const TPERFU26: u32 = 26;

    pub const TPERFU27: u32 = 27;

    pub const TPERFU28: u32 = 28;

    pub const TPERFU29: u32 = 29;

    pub const TPINITFAIL: u32 = 30;

    pub const TPMAXVAL: u32 = 31;

    /// An error with the given code and diagnostic.
    pub fn new(code: u32, message: &str) -> (e: Self)
        ensures
            e@ == (ErrorView { code, message: message@ }),
    {
        AtmiError { code, message: message.to_owned() }
    }

    /// The text form of the error, `[code N] diagnostic`.
    pub fn render(&self) -> (s: String)
        ensures
            s@ == rendered(self.code, self.message@),
    {
        render_parts(self.code, self.message.as_str())
    }
}

pub type AtmiResult<T> = Result<T, AtmiError>;

/// An error of the structured-buffer subsystem.
#[derive(Debug, Clone, PartialEq, Eq)]
pub struct UbfError {
    pub code: u32,
    pub message: String,
}

impl View for UbfError {
    type V = ErrorView;

    open spec fn view(&self) -> ErrorView {
        ErrorView { code: self.code, message: self.message@ }
    }
}

impl UbfError {
    pub const BMINVAL: u32 = 0;

    pub const BERFU0: u32 = 1;

    pub const BALIGNERR: u32 = 2;

    pub const BNOTFLD: u32 = 3;

    pub const BNOSPACE: u32 = 4;

    pub const BNOTPRES: u32 = 5;

    pub const BBADFLD: u32 = 6;

    pub const BTYPERR: u32 = 7;

    pub const BEUNIX: u32 = 8;

    pub const BBADNAME: u32 = 9;

    pub const BMALLOC: u32 = 10;

    pub const BSYNTAX: u32 = 11;

    pub const BFTOPEN: u32 = 12;

    pub const BFTSYNTAX: u32 = 13;

    pub const BEINVAL: u32 = 14;

    pub const BERFU1: u32 = 15;

    pub const BBADTBL: u32 = 16;

    pub const BBADVIEW: u32 = 17;

    pub const BVFSYNTAX: u32 = 18;

    pub const BVFOPEN: u32 = 19;

    pub const BBADACM: u32 = 20;

    pub const BNOCNAME: u32 = 21;

    pub const BEBADOP: u32 = 22;

    pub const BMAXVAL: u32 = 22;

    /// An error with the given code and diagnostic.
    pub fn new(code: u32, message: &str) -> (e: Self)
        ensures
            e@ == (ErrorView { code, message: message@ }),
    {
        UbfError { code, message: message.to_owned() }
    }

    /// The text form of the error, `[code N] diagnostic`.
    pub fn render(&self) -> (s: String)
        ensures
            s@ == rendered(self.code, self.message@),
    {
        render_parts(self.code, self.message.as_str())
    }

    /// Whether this is the capacity error: the only failure of a field change
    /// that growing the buffer can cure.
    pub fn is_no_space(&self) -> (b: bool)
        ensures
            b == (self.code == Self::BNOSPACE),
    {
        self.code == Self::BNOSPACE
    }
}

pub type UbfResult<T> = Result<T, UbfError>;

/// An error of the generic support subsystem.
#[derive(Debug, Clone, PartialEq, Eq)]
pub struct NstdError {
    pub code: u32,
    pub message: String,
}

impl View for NstdError {
    type V = ErrorView;

    open spec fn view(&self) -> ErrorView {
        ErrorView { code: self.code, message: self.message@ }
    }
}

impl NstdError {
    /// An error with the given code and diagnostic.
    pub fn new(code: u32, message: &str) -> (e: Self)
        ensures
            e@ == (ErrorView { code, message: message@ }),
    {
        NstdError { code, message: message.to_owned() }
    }

    /// The text form of the error, `[code N] diagnostic`.
    pub fn render(&self) -> (s: String)
        ensures
            s@ == rendered(self.code, self.message@),
    {
        render_parts(self.code, self.message.as_str())
    }
}

pub type NstdResult<T> = Result<T, NstdError>;

} // verus!
