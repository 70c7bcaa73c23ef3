//! The structured buffer: an opaque buffer read as a set of typed fields, the
//! tagged values that are written into it, and the protocol that changes a
//! field and grows the buffer when it is too small.

use crate::atmictx::AtmiCtx;
use crate::errors::{AtmiError, AtmiResult, ErrorView, UbfError, UbfResult};
use crate::native::{
    FreeCall, ReallocCall, SizeofCall, BFLD_CARRAY, BFLD_CHAR, BFLD_DOUBLE, BFLD_FLOAT, BFLD_LONG, BFLD_PTR,
    BFLD_SHORT, BFLD_STRING, BFLD_UBF,
};
use crate::text::{append_decimal, c_string, decimal, first_nul, has_nul, terminated};
use crate::typed_buf::{BufferView, TypedBuffer};
use vstd::prelude::*;
use vstd::string::*;
use vstd::utf8::encode_utf8;

verus! {

/// The value of one field. The two float variants carry the IEEE 754 bit
/// pattern of the number; the two buffer variants borrow the nested buffer,
/// which therefore outlives the call that writes it.
#[derive(Debug)]
pub enum UbfValue<'ctx> {
    Short(i16),
    Long(i64),
    Char(i8),
    Float(u32),
    Double(u64),
    String(String),
    Carray(Vec<u8>),
    Ptr(&'ctx TypedBuffer<'ctx>),
    Ubf(&'ctx TypedUbf<'ctx>),
}

/// Where the native layer reads a field's payload from.
#[derive(Debug, PartialEq, Eq)]
pub enum Source {
    /// The null address.
    Null,
    /// The address of the payload held in the value itself: the number of a
    /// numeric variant, the bytes of a byte array.
    Value,
    /// The address of these bytes, which end in the terminator.
    Text(Vec<u8>),
    /// This address in native memory.
    Native(usize),
}

pub enum SourceView {
    Null,
    Value,
    Text(Seq<u8>),
    Native(usize),
}

impl View for Source {
    type V = SourceView;

    open spec fn view(&self) -> SourceView {
        match *self {
            Source::Null => SourceView::Null,
            Source::Value => SourceView::Value,
            Source::Text(bytes) => SourceView::Text(bytes@),
            Source::Native(addr) => SourceView::Native(addr),
        }
    }
}

/// One field's payload as the native change call takes it: where to read,
/// the explicit length (zero where the type implies it) and the type tag.
#[derive(Debug, PartialEq, Eq)]
pub struct FieldArg {
    pub source: Source,
    pub len: i32,
    pub ftype: i32,
}

pub struct FieldArgView {
    pub source: SourceView,
    pub len: i32,
    pub ftype: i32,
}

impl View for FieldArg {
    type V = FieldArgView;

    open spec fn view(&self) -> FieldArgView {
        FieldArgView { source: self.source@, len: self.len, ftype: self.ftype }
    }
}

/// The error of a text value that holds the terminator at `position`.
pub open spec fn nul_in_text(position: int) -> ErrorView {
    ErrorView {
        code: UbfError::BEUNIX,
        message: "nul byte found in provided data at position: "@ + decimal(position as nat),
    }
}

/// The error of a byte array whose length no field length can express.
pub open spec fn carray_too_long() -> ErrorView {
    ErrorView { code: UbfError::BEINVAL, message: "carray is longer than a field can hold"@ }
}

/// The error of a field operation on a handle that holds no buffer.
pub open spec fn null_ubf() -> ErrorView {
    ErrorView { code: UbfError::BNOTFLD, message: "buffer is null"@ }
}

/// The error of a growth step whose doubled size no buffer can have.
pub open spec fn cannot_double() -> ErrorView {
    ErrorView { code: UbfError::BMALLOC, message: "buffer size cannot be doubled"@ }
}

/// The structured-buffer error that stands for a failed growth: the code of
/// a failed allocation with the diagnostic of the session-subsystem error.
pub open spec fn growth_failure(cause: ErrorView) -> ErrorView {
    ErrorView { code: UbfError::BMALLOC, message: cause.message }
}

impl<'ctx> UbfValue<'ctx> {
    /// How the value is handed to the native change call, or the error that
    /// keeps it from being handed over at all.
    ///
    /// Numbers and characters are read in place and need no length. Text is
    /// copied into a terminated byte string, which it cannot be if it holds
    /// the terminator itself. A byte array is read in place with its length;
    /// an empty one is the null address with length zero. A nested buffer is
    /// its native address.
    pub open spec fn marshaled(self) -> Result<FieldArgView, ErrorView> {
        match self {
            UbfValue::Short(_) => Ok(
                FieldArgView { source: SourceView::Value, len: 0, ftype: BFLD_SHORT },
            ),
            UbfValue::Long(_) => Ok(
                FieldArgView { source: SourceView::Value, len: 0, ftype: BFLD_LONG },
            ),
            UbfValue::Char(_) => Ok(
                FieldArgView { source: SourceView::Value, len: 0, ftype: BFLD_CHAR },
            ),
            UbfValue::Float(_) => Ok(
                FieldArgView { source: SourceView::Value, len: 0, ftype: BFLD_FLOAT },
            ),
            UbfValue::Double(_) => Ok(
                FieldArgView { source: SourceView::Value, len: 0, ftype: BFLD_DOUBLE },
            ),
            UbfValue::String(s) => {
                let bytes = encode_utf8(s@);
                if has_nul(bytes) {
                    Err(nul_in_text(first_nul(bytes)))
                } else {
                    Ok(
                        FieldArgView {
                            source: SourceView::Text(terminated(bytes)),
                            len: 0,
                            ftype: BFLD_STRING,
                        },
                    )
                }
            },
            UbfValue::Carray(v) => {
                if v@.len() == 0 {
                    Ok(FieldArgView { source: SourceView::Null, len: 0, ftype: BFLD_CARRAY })
                } else if v@.len() > i32::MAX {
                    Err(carray_too_long())
                } else {
                    Ok(
                        FieldArgView {
                            source: SourceView::Value,
                            len: v@.len() as i32,
                            ftype: BFLD_CARRAY,
                        },
                    )
                }
            },
            UbfValue::Ptr(buf) => Ok(
                FieldArgView { source: SourceView::Native(buf@.addr), len: 0, ftype: BFLD_PTR },
            ),
            UbfValue::Ubf(ubf) => Ok(
                FieldArgView { source: SourceView::Native(ubf@.addr), len: 0, ftype: BFLD_UBF },
            ),
        }
    }

    /// Prepares the value for the native change call. Of the values that a
    /// field length can express, only text that holds the character NUL is
    /// refused.
    pub fn marshal(&self) -> (r: UbfResult<FieldArg>)
        ensures
            match self.marshaled() {
                Ok(arg) => r matches Ok(a) && a@ == arg,
                Err(error) => r matches Err(e) && e@ == error,
            },
            self matches UbfValue::String(s) ==> (r is Err <==> s@.contains('\0')),
    {
        match self {
            UbfValue::Short(_) => Ok(
                FieldArg { source: Source::Value, len: 0, ftype: BFLD_SHORT },
            ),
            UbfValue::Long(_) => Ok(FieldArg { source: Source::Value, len: 0, ftype: BFLD_LONG }),
            UbfValue::Char(_) => Ok(FieldArg { source: Source::Value, len: 0, ftype: BFLD_CHAR }),
            UbfValue::Float(_) => Ok(
                FieldArg { source: Source::Value, len: 0, ftype: BFLD_FLOAT },
            ),
            UbfValue::Double(_) => Ok(
                FieldArg { source: Source::Value, len: 0, ftype: BFLD_DOUBLE },
            ),
            UbfValue::String(s) => {
                match c_string(s.as_str()) {
                    Ok(bytes) => Ok(
                        FieldArg { source: Source::Text(bytes), len: 0, ftype: BFLD_STRING },
                    ),
                    Err(position) => {
                        let mut message = String::from_str(
                            "nul byte found in provided data at position: ",
                        );
                        append_decimal(&mut message, position as u64);
                        Err(UbfError { code: UbfError::BEUNIX, message })
                    },
                }
            },
            UbfValue::Carray(v) => {
                if v.len() == 0 {
                    Ok(FieldArg { source: Source::Null, len: 0, ftype: BFLD_CARRAY })
                } else if v.len() > i32::MAX as usize {
                    Err(UbfError::new(UbfError::BEINVAL, "carray is longer than a field can hold"))
                } else {
                    Ok(FieldArg { source: Source::Value, len: v.len() as i32, ftype: BFLD_CARRAY })
                }
            },
            UbfValue::Ptr(buf) => Ok(
                FieldArg { source: Source::Native(buf.as_ptr()), len: 0, ftype: BFLD_PTR },
            ),
            UbfValue::Ubf(ubf) => Ok(
                FieldArg { source: Source::Native(ubf.as_ptr()), len: 0, ftype: BFLD_UBF },
            ),
        }
    }
}

/// A handle on a native buffer of the structured type.
#[derive(Debug)]
pub struct TypedUbf<'ctx> {
    inner: TypedBuffer<'ctx>,
}

impl<'ctx> View for TypedUbf<'ctx> {
    type V = BufferView;

    closed spec fn view(&self) -> BufferView {
        self.inner@
    }
}

/// The size that a status of the native size query stands for: a status from
/// zero up is the size, anything else reports failure.
pub open spec fn reported_size(rc: i64) -> Option<usize> {
    if 0 <= rc <= usize::MAX {
        Some(rc as usize)
    } else {
        None
    }
}

impl<'ctx> TypedUbf<'ctx> {
    /// A handle on the structured buffer at `raw`, owned by `ctx`. The caller
    /// vouches that `raw` is null or a buffer of the structured type that the
    /// native layer allocated for this session and that nothing else will
    /// release.
    pub fn from_raw(ctx: &'ctx AtmiCtx, raw: usize) -> (u: Self)
        requires
            raw != 0 ==> ctx@.state is Initialized,
        ensures
            u@ == (BufferView { addr: raw, owner: ctx@ }),
    {
        TypedUbf { inner: TypedBuffer::from_raw(ctx, raw) }
    }

    /// Reads an opaque buffer as a structured one. Nothing is checked or
    /// copied: the caller vouches that the buffer was allocated with the
    /// structured type.
    pub fn from_typed(buf: TypedBuffer<'ctx>) -> (u: Self)
        ensures
            u@ == buf@,
    {
        TypedUbf { inner: buf }
    }

    /// Gives the buffer back as an opaque one.
    pub fn into_inner(self) -> (buf: TypedBuffer<'ctx>)
        ensures
            buf@ == self@,
    {
        self.inner
    }

    /// Gives up the handle and returns the address. Nothing is released.
    pub fn into_raw(self) -> (p: usize)
        ensures
            p == self@.addr,
    {
        self.inner.into_raw()
    }

    /// The address of the buffer's header.
    pub fn as_ubfh(&self) -> (p: usize)
        ensures
            p == self@.addr,
    {
        self.inner.as_ptr()
    }

    pub fn as_ptr(&self) -> (p: usize)
        ensures
            p == self@.addr,
    {
        self.inner.as_ptr()
    }

    pub fn is_null(&self) -> (b: bool)
        ensures
            b == self@.is_null(),
    {
        self.inner.is_null()
    }

    /// The session that owns the buffer.
    pub fn ctx(&self) -> (c: &'ctx AtmiCtx)
        ensures
            c@ == self@.owner,
    {
        self.inner.ctx()
    }

    /// The buffer as an opaque one, for reading.
    pub fn as_typed(&self) -> (buf: &TypedBuffer<'ctx>)
        ensures
            buf@ == self@,
    {
        &self.inner
    }

    /// Hands the buffer over to another session; see
    /// `TypedBuffer::move_to_context`.
    pub fn move_to_context<'new>(self, new_ctx: &'new AtmiCtx) -> (u: TypedUbf<'new>)
        requires
            self@.addr != 0 ==> new_ctx@.state is Initialized,
        ensures
            u@ == self@.moved(new_ctx@),
    {
        let ptr = self.into_raw();
        TypedUbf::from_raw(new_ctx, ptr)
    }

    /// Asks to resize the buffer; see `TypedBuffer::tprealloc`.
    pub fn tprealloc(&self, new_size: usize) -> (r: AtmiResult<ReallocCall>)
        ensures
            !self@.is_null() ==> r == Ok::<ReallocCall, AtmiError>(
                ReallocCall { ptr: self@.addr, size: new_size },
            ),
            self@.is_null() ==> (r matches Err(e) && e@ == crate::typed_buf::null_buffer()),
    {
        self.inner.tprealloc(new_size)
    }

    /// Takes the answer to a resize; see `TypedBuffer::tprealloc_reply`.
    pub fn tprealloc_reply(&mut self, new_ptr: usize, last: AtmiError) -> (r: AtmiResult<()>)
        ensures
            final(self)@ == old(self)@.regrown(new_ptr),
            !old(self)@.is_null() && new_ptr != 0 ==> r == Ok::<(), AtmiError>(()),
            !old(self)@.is_null() && new_ptr == 0 ==> r == Err::<(), AtmiError>(last),
            old(self)@.is_null() ==> (r matches Err(e) && e@ == crate::typed_buf::null_buffer()),
    {
        self.inner.tprealloc_reply(new_ptr, last)
    }

    /// Releases the buffer; see `TypedBuffer::release`.
    pub fn release(&mut self) -> (call: Option<FreeCall>)
        ensures
            call == old(self)@.free_call(),
            final(self)@ == old(self)@.released(),
    {
        self.inner.release()
    }

    /// Asks for the size of the buffer in bytes. The answer is the native
    /// call to make, whose status goes to `bsizeof_reply`. A handle that
    /// holds no buffer is refused.
    pub fn bsizeof(&self) -> (r: UbfResult<SizeofCall>)
        ensures
            !self@.is_null() ==> r == Ok::<SizeofCall, UbfError>(SizeofCall { ubfh: self@.addr }),
            self@.is_null() ==> (r matches Err(e) && e@ == null_ubf()),
    {
        if self.inner.is_null() {
            Err(UbfError::new(UbfError::BNOTFLD, "buffer is null"))
        } else {
            Ok(SizeofCall { ubfh: self.inner.as_ptr() })
        }
    }

    /// Takes the status `rc` that the native size query returned, and the
    /// error `last` that the native layer held right after it. A status from
    /// zero up is the size; any other status means failure, and `last` is
    /// the error.
    pub fn bsizeof_reply(&self, rc: i64, last: UbfError) -> (r: UbfResult<usize>)
        ensures
            match reported_size(rc) {
                Some(size) => r == Ok::<usize, UbfError>(size),
                None => r == Err::<usize, UbfError>(last),
            },
    {
        if 0 <= rc && rc as u64 <= usize::MAX as u64 {
            Ok(rc as usize)
        } else {
            Err(last)
        }
    }
}

} // verus!
