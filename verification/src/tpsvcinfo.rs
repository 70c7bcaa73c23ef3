//! What a service routine is told about the request it serves.

use crate::atmictx::{AtmiCtx, SessionView};
use crate::text::{find_nul, first_nul};
use crate::typed_buf::{BufferView, TypedBuffer};
use vstd::prelude::*;
use vstd::slice::*;
use vstd::string::*;
use vstd::utf8::{decode_utf8, valid_utf8};

verus! {

/// The identifier of the client that sent a request, as the native layer
/// keeps it.
#[derive(Debug, PartialEq, Eq)]
pub struct ClientId {
    pub clientdata: Vec<u8>,
}

/// The fields of the native service record, as plain values. The two names
/// are the record's character arrays, byte for byte.
#[derive(Debug)]
pub struct SvcInfoRecord {
    pub name: Vec<u8>,
    pub data: usize,
    pub len: i64,
    pub flags: i64,
    pub cd: i32,
    pub appkey: i64,
    pub cltid: ClientId,
    pub fname: Vec<u8>,
}

/// What a service record is, as far as contracts are concerned.
pub struct SvcInfoView {
    pub name: Seq<u8>,
    pub data: usize,
    pub len: i64,
    pub flags: i64,
    pub cd: i32,
    pub appkey: i64,
    pub cltid: Seq<u8>,
    pub fname: Seq<u8>,
    pub owner: SessionView,
}

/// The text that a character array holds: its bytes up to the first
/// terminator, read as UTF-8, or nothing where they are not UTF-8.
pub open spec fn array_text(bytes: Seq<u8>) -> Seq<char> {
    let head = bytes.take(first_nul(bytes));
    if valid_utf8(head) {
        decode_utf8(head)
    } else {
        Seq::empty()
    }
}

/// `core::str::from_utf8`: the bytes read as text. It succeeds exactly on
/// well-formed UTF-8, and the text is then the one that these bytes encode.
#[verifier::external_body]
fn utf8_text<'a>(bytes: &'a [u8]) -> (r: Option<&'a str>)
    ensures
        r is Some <==> valid_utf8(bytes@),
        r matches Some(s) ==> s.spec_bytes() == bytes@,
{
    match core::str::from_utf8(bytes) {
        Ok(s) => Some(s),
        Err(_) => None,
    }
}

fn text_of<'a>(bytes: &'a Vec<u8>) -> (s: &'a str)
    ensures
        s@ == array_text(bytes@),
{
    let all = bytes.as_slice();
    let end = match find_nul(all) {
        Some(p) => p,
        None => all.len(),
    };
    proof {
        crate::text::lemma_first_nul(bytes@);
    }
    let head = slice_subrange(all, 0, end);
    assert(head@ =~= bytes@.take(first_nul(bytes@)));
    match utf8_text(head) {
        Some(s) => {
            proof {
                vstd::utf8::encode_utf8_decode_utf8(s@);
            }
            s
        },
        None => {
            proof {
                reveal_strlit("");
            }
            assert(""@ =~= Seq::<char>::empty());
            ""
        },
    }
}

/// The record of the request that a service routine serves. The record and
/// the request's buffer belong to the native layer.
#[derive(Debug)]
pub struct TpSvcInfo<'ctx> {
    raw: SvcInfoRecord,
    ctx: &'ctx AtmiCtx,
}

impl<'ctx> View for TpSvcInfo<'ctx> {
    type V = SvcInfoView;

    closed spec fn view(&self) -> SvcInfoView {
        SvcInfoView {
            name: self.raw.name@,
            data: self.raw.data,
            len: self.raw.len,
            flags: self.raw.flags,
            cd: self.raw.cd,
            appkey: self.raw.appkey,
            cltid: self.raw.cltid.clientdata@,
            fname: self.raw.fname@,
            owner: self.ctx@,
        }
    }
}

impl<'ctx> TpSvcInfo<'ctx> {
    /// A request that carries a buffer is served under an initialized
    /// session.
    #[verifier::type_invariant]
    pub open spec fn inv(self) -> bool {
        self@.data != 0 ==> self@.owner.state is Initialized
    }

    /// The record `raw` of a request served under `ctx`. The caller vouches
    /// that the record is the one that the native layer handed to the
    /// service routine.
    pub fn from_raw(ctx: &'ctx AtmiCtx, raw: SvcInfoRecord) -> (info: Self)
        requires
            raw.data != 0 ==> ctx@.state is Initialized,
        ensures
            info@ == (SvcInfoView {
                name: raw.name@,
                data: raw.data,
                len: raw.len,
                flags: raw.flags,
                cd: raw.cd,
                appkey: raw.appkey,
                cltid: raw.cltid.clientdata@,
                fname: raw.fname@,
                owner: ctx@,
            }),
    {
        TpSvcInfo { raw, ctx }
    }

    /// Name of the service.
    pub fn name(&self) -> (s: &str)
        ensures
            s@ == array_text(self@.name),
    {
        text_of(&self.raw.name)
    }

    /// Name of the advertised function.
    pub fn fname(&self) -> (s: &str)
        ensures
            s@ == array_text(self@.fname),
    {
        text_of(&self.raw.fname)
    }

    /// Length of the request's buffer.
    pub fn len(&self) -> (n: i64)
        ensures
            n == self@.len,
    {
        self.raw.len
    }

    pub fn set_len(&mut self, len: i64)
        ensures
            final(self)@ == (SvcInfoView { len, ..old(self)@ }),
    {
        proof {
            use_type_invariant(&*self);
        }
        self.raw.len = len;
    }

    pub fn flags(&self) -> (f: i64)
        ensures
            f == self@.flags,
    {
        self.raw.flags
    }

    pub fn set_flags(&mut self, flags: i64)
        ensures
            final(self)@ == (SvcInfoView { flags, ..old(self)@ }),
    {
        proof {
            use_type_invariant(&*self);
        }
        self.raw.flags = flags;
    }

    /// The descriptor of the conversation, for a conversational service.
    pub fn cd(&self) -> (cd: i32)
        ensures
            cd == self@.cd,
    {
        self.raw.cd
    }

    pub fn appkey(&self) -> (k: i64)
        ensures
            k == self@.appkey,
    {
        self.raw.appkey
    }

    pub fn cltid(&self) -> (id: &ClientId)
        ensures
            id.clientdata@ == self@.cltid,
    {
        &self.raw.cltid
    }

    /// A handle on the request's buffer. The buffer stays the native layer's:
    /// the handle is for reading and writing the request, and is given up
    /// with `into_raw`, not released.
    pub fn data(&self) -> (buf: TypedBuffer<'ctx>)
        ensures
            buf@ == (BufferView { addr: self@.data, owner: self@.owner }),
    {
        proof {
            use_type_invariant(self);
        }
        TypedBuffer::from_raw(self.ctx, self.raw.data)
    }
}

} // verus!
