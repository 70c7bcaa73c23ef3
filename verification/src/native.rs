//! The vocabulary shared with the native layer: the calls this library asks
//! its caller to make, and the numbers the native layer answers with.
//!
//! Nothing here calls the native layer. Every operation of the library comes
//! in two halves: one that decides which native call is due and returns it as
//! a value of one of the types below, and one that takes what the native
//! layer answered and decides the outcome.

use vstd::prelude::*;

verus! {

/// The status with which a native call reports success.
pub const EXSUCCEED: i32 = 0;

/// The status with which a native call reports failure.
pub const EXFAIL: i32 = -1;

/// Field type tag: short integer.
pub const BFLD_SHORT: i32 = 0;

/// Field type tag: wide integer.
pub const BFLD_LONG: i32 = 1;

/// Field type tag: single byte or character.
pub const BFLD_CHAR: i32 = 2;

/// Field type tag: single-precision float.
pub const BFLD_FLOAT: i32 = 3;

/// Field type tag: double-precision float.
pub const BFLD_DOUBLE: i32 = 4;

/// Field type tag: terminated text.
pub const BFLD_STRING: i32 = 5;

/// Field type tag: byte array.
pub const BFLD_CARRAY: i32 = 6;

/// Field type tag: nested opaque buffer.
pub const BFLD_PTR: i32 = 9;

/// Field type tag: nested structured buffer.
pub const BFLD_UBF: i32 = 10;

/// A call that changes the state of a session.
#[derive(Debug, Clone, Copy, PartialEq, Eq, Structural)]
pub enum SessionCall {
    /// Establish the session with the processing environment.
    Init,
    /// End the session.
    Term,
}

/// A request for a new buffer. Both names are terminated byte strings.
#[derive(Debug, PartialEq, Eq)]
pub struct AllocCall {
    pub type_: Vec<u8>,
    pub subtype: Vec<u8>,
    pub size: usize,
}

pub struct AllocCallView {
    pub type_: Seq<u8>,
    pub subtype: Seq<u8>,
    pub size: usize,
}

impl View for AllocCall {
    type V = AllocCallView;

    open spec fn view(&self) -> AllocCallView {
        AllocCallView { type_: self.type_@, subtype: self.subtype@, size: self.size }
    }
}

/// A request to resize the buffer at `ptr` to `size` bytes.
#[derive(Debug, Clone, Copy, PartialEq, Eq, Structural)]
pub struct ReallocCall {
    pub ptr: usize,
    pub size: usize,
}

/// A request for the size of the structured buffer whose header is at `ubfh`.
#[derive(Debug, Clone, Copy, PartialEq, Eq, Structural)]
pub struct SizeofCall {
    pub ubfh: usize,
}

/// A request to write the field `(bfldid, occ)` of the structured buffer
/// whose header is at `ubfh`. The payload is the one that the operation
/// prepared when it began.
#[derive(Debug, Clone, Copy, PartialEq, Eq, Structural)]
pub struct ChangeCall {
    pub ubfh: usize,
    pub bfldid: i32,
    pub occ: i32,
}

/// A request to free the buffer at `ptr`.
#[derive(Debug, Clone, Copy, PartialEq, Eq, Structural)]
pub struct FreeCall {
    pub ptr: usize,
}

} // verus!
