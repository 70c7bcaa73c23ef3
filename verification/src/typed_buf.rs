//! The opaque buffer: a handle on one native allocation, owned by one session.

use crate::atmictx::{AtmiCtx, SessionView};
use crate::errors::{AtmiError, AtmiResult, ErrorView};
use crate::native::{FreeCall, ReallocCall};
use vstd::prelude::*;
use vstd::string::*;

verus! {

/// What a buffer handle is, as far as contracts are concerned.
pub struct BufferView {
    /// The native address; zero stands for "no buffer".
    pub addr: usize,
    /// The session that owns the buffer.
    pub owner: SessionView,
}

impl BufferView {
    /// A handle on a live buffer belongs to an initialized session, through
    /// which the buffer can be released.
    pub open spec fn wf(self) -> bool {
        self.addr != 0 ==> self.owner.state is Initialized
    }

    pub open spec fn is_null(self) -> bool {
        self.addr == 0
    }

    /// The handle after the native layer answered a resize with `new_ptr`.
    pub open spec fn regrown(self, new_ptr: usize) -> BufferView {
        if self.addr != 0 && new_ptr != 0 {
            BufferView { addr: new_ptr, ..self }
        } else {
            self
        }
    }

    /// The native call that releasing the handle leads to, if any.
    pub open spec fn free_call(self) -> Option<FreeCall> {
        if self.addr != 0 {
            Some(FreeCall { ptr: self.addr })
        } else {
            None
        }
    }

    /// The handle after it was released.
    pub open spec fn released(self) -> BufferView {
        BufferView { addr: 0, ..self }
    }

    /// The handle after it was moved to the session `to`.
    pub open spec fn moved(self, to: SessionView) -> BufferView {
        BufferView { owner: to, ..self }
    }

    /// The handle after `event`.
    pub open spec fn after(self, event: HandleEvent) -> BufferView {
        match event {
            HandleEvent::Release => self.released(),
            HandleEvent::Regrow(new_ptr) => self.regrown(new_ptr),
            HandleEvent::Move(to) => self.moved(to),
        }
    }

    /// The call that frees a buffer, where `event` leads to one.
    pub open spec fn freed_by(self, event: HandleEvent) -> Option<FreeCall> {
        match event {
            HandleEvent::Release => self.free_call(),
            _ => None,
        }
    }

    /// All the calls that free a buffer over a history of the handle, in
    /// the order in which they are asked for.
    pub open spec fn frees(self, events: Seq<HandleEvent>) -> Seq<FreeCall>
        decreases events.len(),
    {
        if events.len() == 0 {
            Seq::empty()
        } else {
            let rest = self.after(events[0]).frees(events.drop_first());
            match self.freed_by(events[0]) {
                Some(call) => seq![call] + rest,
                None => rest,
            }
        }
    }
}

/// What can happen to a handle in the course of its life.
pub enum HandleEvent {
    /// The buffer is released.
    Release,
    /// The native layer answers a resize with this address.
    Regrow(usize),
    /// The buffer is moved to this session.
    Move(SessionView),
}

impl HandleEvent {
    /// Whether the event may happen to the handle `b`: a live buffer moves
    /// only to an initialized session.
    pub open spec fn allowed(self, b: BufferView) -> bool {
        self matches HandleEvent::Move(to) ==> (b.addr != 0 ==> to.state is Initialized)
    }
}

/// The argument error of an operation refused because the handle holds no
/// buffer.
pub open spec fn null_buffer() -> ErrorView {
    ErrorView { code: AtmiError::TPEINVAL, message: "buffer is null"@ }
}

/// A handle on a native buffer, tied to the session that owns it.
///
/// The handle borrows its session. For as long as a handle lives, the session
/// can therefore neither be terminated nor change its state in any other
/// way, and a handle cannot outlive its session. A handle is not copied:
/// whoever holds it is the one owner of the buffer.
#[derive(Debug)]
pub struct TypedBuffer<'ctx> {
    ptr: usize,
    ctx: &'ctx AtmiCtx,
}

impl<'ctx> View for TypedBuffer<'ctx> {
    type V = BufferView;

    closed spec fn view(&self) -> BufferView {
        BufferView { addr: self.ptr, owner: self.ctx@ }
    }
}

impl<'ctx> TypedBuffer<'ctx> {
    /// Every handle is well formed.
    #[verifier::type_invariant]
    pub open spec fn inv(self) -> bool {
        self@.wf()
    }

    /// A handle on the buffer at `raw`, owned by `ctx`. The caller vouches
    /// that `raw` is null or a buffer that the native layer allocated for
    /// this session and that nothing else will release.
    pub fn from_raw(ctx: &'ctx AtmiCtx, raw: usize) -> (b: Self)
        requires
            raw != 0 ==> ctx@.state is Initialized,
        ensures
            b@ == (BufferView { addr: raw, owner: ctx@ }),
    {
        TypedBuffer { ptr: raw, ctx }
    }

    /// Gives up the handle and returns the address. Nothing is released: the
    /// buffer is from now on the caller's to look after.
    pub fn into_raw(self) -> (p: usize)
        ensures
            p == self@.addr,
    {
        self.ptr
    }

    pub fn as_ptr(&self) -> (p: usize)
        ensures
            p == self@.addr,
    {
        self.ptr
    }

    pub fn is_null(&self) -> (b: bool)
        ensures
            b == self@.is_null(),
    {
        self.ptr == 0
    }

    /// The session that owns the buffer.
    pub fn ctx(&self) -> (c: &'ctx AtmiCtx)
        ensures
            c@ == self@.owner,
    {
        self.ctx
    }

    /// Hands the buffer over to another session. The address is kept and no
    /// native call is due. The old handle is used up, so the buffer cannot be
    /// released through it. The caller vouches that the native layer lets
    /// the buffer be used under `new_ctx`.
    pub fn move_to_context<'new>(self, new_ctx: &'new AtmiCtx) -> (b: TypedBuffer<'new>)
        requires
            self@.addr != 0 ==> new_ctx@.state is Initialized,
        ensures
            b@ == self@.moved(new_ctx@),
    {
        let ptr = self.into_raw();
        TypedBuffer::from_raw(new_ctx, ptr)
    }

    /// Asks to resize the buffer to `new_size` bytes. The answer is the
    /// native call to make, whose result goes to `tprealloc_reply`. A handle
    /// that holds no buffer is refused as an invalid argument.
    pub fn tprealloc(&self, new_size: usize) -> (r: AtmiResult<ReallocCall>)
        ensures
            !self@.is_null() ==> r == Ok::<ReallocCall, AtmiError>(
                ReallocCall { ptr: self@.addr, size: new_size },
            ),
            self@.is_null() ==> (r matches Err(e) && e@ == null_buffer()),
    {
        if self.ptr == 0 {
            Err(AtmiError::new(AtmiError::TPEINVAL, "buffer is null"))
        } else {
            Ok(ReallocCall { ptr: self.ptr, size: new_size })
        }
    }

    /// Takes the address `new_ptr` that the native resize returned, and the
    /// error `last` that the native layer held right after it. A non-null
    /// address is the buffer's new place. A null address means failure: the
    /// handle is left exactly as it was and `last` is the error. A handle
    /// that holds no buffer stays so and the reply is refused.
    pub fn tprealloc_reply(&mut self, new_ptr: usize, last: AtmiError) -> (r: AtmiResult<()>)
        ensures
            final(self)@ == old(self)@.regrown(new_ptr),
            !old(self)@.is_null() && new_ptr != 0 ==> r == Ok::<(), AtmiError>(()),
            !old(self)@.is_null() && new_ptr == 0 ==> r == Err::<(), AtmiError>(last),
            old(self)@.is_null() ==> (r matches Err(e) && e@ == null_buffer()),
    {
        proof {
            use_type_invariant(&*self);
        }
        if self.ptr == 0 {
            Err(AtmiError::new(AtmiError::TPEINVAL, "buffer is null"))
        } else if new_ptr == 0 {
            Err(last)
        } else {
            self.ptr = new_ptr;
            Ok(())
        }
    }

    /// Releases the buffer. For a handle that holds one, the answer is the
    /// native call that frees it, and the handle holds none from then on.
    /// For a handle that holds none there is nothing to do.
    pub fn release(&mut self) -> (call: Option<FreeCall>)
        ensures
            call == old(self)@.free_call(),
            final(self)@ == old(self)@.released(),
    {
        if self.ptr == 0 {
            None
        } else {
            let ptr = self.ptr;
            self.ptr = 0;
            Some(FreeCall { ptr })
        }
    }
}

/// Whatever happens to a well-formed handle, it stays well formed.
pub proof fn lemma_handle_stays_well_formed(b: BufferView, event: HandleEvent)
    requires
        b.wf(),
        event.allowed(b),
    ensures
        b.after(event).wf(),
{
}

/// A handle that holds no buffer never asks for a buffer to be freed, whatever
/// happens to it.
pub proof fn lemma_null_frees_nothing(b: BufferView, events: Seq<HandleEvent>)
    requires
        b.is_null(),
    ensures
        b.frees(events) == Seq::<FreeCall>::empty(),
    decreases events.len(),
{
    if events.len() > 0 {
        lemma_null_frees_nothing(b.after(events[0]), events.drop_first());
    }
}

/// A buffer is freed at most once. Over any history of releases, resizes and
/// moves, in any order, a handle asks at most once for a buffer to be freed;
/// once it has, it holds no buffer and asks for nothing more.
pub proof fn lemma_freed_at_most_once(b: BufferView, events: Seq<HandleEvent>)
    ensures
        b.frees(events).len() <= 1,
    decreases events.len(),
{
    if events.len() > 0 {
        let next = b.after(events[0]);
        if b.freed_by(events[0]) is Some {
            lemma_null_frees_nothing(next, events.drop_first());
        } else {
            lemma_freed_at_most_once(next, events.drop_first());
        }
    }
}

/// Moving a buffer to another session frees nothing and keeps its address:
/// the one call that frees it is asked for by whoever releases it afterwards.
pub proof fn lemma_move_then_release(b: BufferView, to: SessionView)
    ensures
        b.freed_by(HandleEvent::Move(to)) is None,
        b.moved(to).addr == b.addr,
        b.moved(to).owner == to,
        b.moved(to).free_call() == b.free_call(),
        b.frees(seq![HandleEvent::Move(to), HandleEvent::Release]) == (if b.is_null() {
            Seq::<FreeCall>::empty()
        } else {
            seq![FreeCall { ptr: b.addr }]
        }),
{
    let events = seq![HandleEvent::Move(to), HandleEvent::Release];
    let tail = events.drop_first();
    assert(tail =~= seq![HandleEvent::Release]);
    assert(tail.drop_first() =~= Seq::<HandleEvent>::empty());
    let moved = b.moved(to);
    assert(moved.released().frees(tail.drop_first()) =~= Seq::<FreeCall>::empty());
    assert(moved.frees(tail) =~= (if b.is_null() {
        Seq::<FreeCall>::empty()
    } else {
        seq![FreeCall { ptr: b.addr }]
    }));
}

} // verus!
