//! The session: one client's connection to the processing environment.

use crate::errors::{AtmiError, AtmiResult, ErrorView, UbfError};
use crate::native::{AllocCall, AllocCallView, SessionCall, EXSUCCEED};
use crate::text::{c_string, has_nul, terminated};
use crate::typed_buf::{BufferView, TypedBuffer};
use crate::typed_ubf::TypedUbf;
use vstd::prelude::*;
use vstd::string::*;
use vstd::utf8::encode_utf8;

verus! {

/// Where a session stands in its life.
#[derive(Debug, Clone, Copy, PartialEq, Eq, Structural)]
pub enum SessionState {
    /// Created, not yet established with the environment.
    Uninitialized,
    /// Established: buffers can be allocated and calls made.
    Initialized,
    /// Ended. A terminated session is never established again.
    Terminated,
}

/// Which threads may use a session.
#[derive(Debug, Clone, Copy, PartialEq, Eq, Structural)]
pub enum Affinity {
    /// The session stays on the thread that created it.
    Confined,
    /// The session may be handed to another thread, never shared.
    Movable,
}

/// What a session is, as far as contracts are concerned.
pub struct SessionView {
    pub state: SessionState,
    /// The native context handle; present exactly for a movable session.
    pub handle: Option<usize>,
}

impl SessionView {
    /// A native context handle, where there is one, is not null.
    pub open spec fn wf(self) -> bool {
        self.handle matches Some(h) ==> h != 0
    }

    /// Which threads may use the session: one with a native context of its
    /// own may move, any other stays where it was created.
    pub open spec fn affinity(self) -> Affinity {
        if self.handle is Some {
            Affinity::Movable
        } else {
            Affinity::Confined
        }
    }

    /// The session after the native layer answered an initialization with `rc`.
    pub open spec fn initialized_by(self, rc: i32) -> SessionView {
        if self.state is Uninitialized && rc == EXSUCCEED {
            SessionView { state: SessionState::Initialized, ..self }
        } else {
            self
        }
    }

    /// The native call that a request to terminate leads to, if any.
    pub open spec fn terminate_call(self) -> Option<SessionCall> {
        if self.state is Initialized {
            Some(SessionCall::Term)
        } else {
            None
        }
    }

    /// The session after the native layer answered a termination with `rc`.
    pub open spec fn terminated_by(self, rc: i32) -> SessionView {
        if self.state is Initialized && rc == EXSUCCEED {
            SessionView { state: SessionState::Terminated, ..self }
        } else {
            self
        }
    }

    /// The native call that a request for a buffer leads to, or the error
    /// that the request is refused with: only an initialized session
    /// allocates, and neither name may hold the terminator.
    pub open spec fn alloc_call(self, type_: Seq<char>, subtype: Seq<char>, size: usize) -> Result<
        AllocCallView,
        ErrorView,
    > {
        if !(self.state is Initialized) {
            Err(wrong_state())
        } else if has_nul(encode_utf8(type_)) {
            Err(nul_in_type())
        } else if has_nul(encode_utf8(subtype)) {
            Err(nul_in_subtype())
        } else {
            Ok(
                AllocCallView {
                    type_: terminated(encode_utf8(type_)),
                    subtype: terminated(encode_utf8(subtype)),
                    size,
                },
            )
        }
    }

    /// The session after its owner let go of it.
    pub open spec fn closed(self) -> SessionView {
        if self.state is Initialized {
            SessionView { state: SessionState::Terminated, ..self }
        } else {
            self
        }
    }
}

/// The protocol error of an operation refused because of the session's state.
pub open spec fn wrong_state() -> ErrorView {
    ErrorView {
        code: AtmiError::TPEPROTO,
        message: "session state does not allow this call"@,
    }
}

/// The system error of a movable session refused for want of a native context.
pub open spec fn no_context() -> ErrorView {
    ErrorView {
        code: AtmiError::TPESYSTEM,
        message: "Failed to allocate new context - see ULOG for details"@,
    }
}

/// A client session. Its state changes only through the operations below.
#[derive(Debug)]
pub struct AtmiCtx {
    state: SessionState,
    handle: Option<usize>,
}

impl View for AtmiCtx {
    type V = SessionView;

    closed spec fn view(&self) -> SessionView {
        SessionView { state: self.state, handle: self.handle }
    }
}

/// The argument error of a buffer type that holds the terminator.
pub open spec fn nul_in_type() -> ErrorView {
    ErrorView { code: AtmiError::TPEINVAL, message: "type_ contains NUL byte"@ }
}

/// The argument error of a buffer subtype that holds the terminator.
pub open spec fn nul_in_subtype() -> ErrorView {
    ErrorView { code: AtmiError::TPEINVAL, message: "subtype contains NUL byte"@ }
}

/// The name of the structured buffer type, as a terminated byte string.
pub open spec fn ubf_type_name() -> Seq<u8> {
    seq![0x55u8, 0x42u8, 0x46u8, 0u8]
}

/// The empty subtype, as a terminated byte string.
pub open spec fn no_subtype() -> Seq<u8> {
    seq![0u8]
}

fn refuse_state() -> (e: AtmiError)
    ensures
        e@ == wrong_state(),
{
    AtmiError::new(AtmiError::TPEPROTO, "session state does not allow this call")
}

impl AtmiCtx {
    /// Every session is well formed.
    #[verifier::type_invariant]
    pub open spec fn inv(self) -> bool {
        self@.wf()
    }

    /// A new session confined to the calling thread, not yet initialized.
    pub fn new() -> (r: Result<Self, AtmiError>)
        ensures
            r matches Ok(ctx) && ctx@ == (SessionView {
                state: SessionState::Uninitialized,
                handle: None,
            }),
    {
        Ok(AtmiCtx { state: SessionState::Uninitialized, handle: None })
    }

    /// A new movable session around the native context `handle`, not yet
    /// initialized. A null handle means that the native layer could not
    /// provide a context, which is a system error.
    pub fn with_context(handle: usize) -> (r: Result<Self, AtmiError>)
        ensures
            handle != 0 ==> (r matches Ok(ctx) && ctx@ == (SessionView {
                state: SessionState::Uninitialized,
                handle: Some(handle),
            })),
            handle == 0 ==> (r matches Err(e) && e@ == no_context()),
    {
        if handle == 0 {
            Err(
                AtmiError::new(
                    AtmiError::TPESYSTEM,
                    "Failed to allocate new context - see ULOG for details",
                ),
            )
        } else {
            Ok(AtmiCtx { state: SessionState::Uninitialized, handle: Some(handle) })
        }
    }

    pub fn state(&self) -> (s: SessionState)
        ensures
            s == self@.state,
    {
        self.state
    }

    pub fn is_initialized(&self) -> (b: bool)
        ensures
            b == (self@.state is Initialized),
    {
        match self.state {
            SessionState::Initialized => true,
            _ => false,
        }
    }

    /// The native context handle of a movable session, which is never null.
    pub fn handle(&self) -> (h: Option<usize>)
        ensures
            h == self@.handle,
            self@.wf(),
    {
        proof {
            use_type_invariant(self);
        }
        self.handle
    }

    pub fn affinity(&self) -> (a: Affinity)
        ensures
            a == self@.affinity(),
    {
        match self.handle {
            Some(_) => Affinity::Movable,
            None => Affinity::Confined,
        }
    }

    /// Asks to initialize the session. Only a session that was never
    /// initialized can be; the answer is then the native call to make, whose
    /// status goes to `tpinit_reply`. Any other session is refused with a
    /// protocol error and no native call is due.
    pub fn tpinit(&self) -> (r: AtmiResult<SessionCall>)
        ensures
            self@.state is Uninitialized ==> r == Ok::<SessionCall, AtmiError>(SessionCall::Init),
            !(self@.state is Uninitialized) ==> (r matches Err(e) && e@ == wrong_state()),
    {
        match self.state {
            SessionState::Uninitialized => Ok(SessionCall::Init),
            _ => Err(refuse_state()),
        }
    }

    /// Takes the status `rc` that the native initialization returned, and the
    /// error `last` that the native layer held right after it. On success the
    /// session is initialized; on failure it stays as it was and `last` is the
    /// error. A session that was not awaiting initialization is left alone
    /// and the reply refused.
    pub fn tpinit_reply(&mut self, rc: i32, last: AtmiError) -> (r: AtmiResult<()>)
        ensures
            final(self)@ == old(self)@.initialized_by(rc),
            old(self)@.state is Uninitialized && rc == EXSUCCEED ==> r == Ok::<(), AtmiError>(()),
            old(self)@.state is Uninitialized && rc != EXSUCCEED ==> r == Err::<(), AtmiError>(
                last,
            ),
            !(old(self)@.state is Uninitialized) ==> (r matches Err(e) && e@ == wrong_state()),
    {
        proof {
            use_type_invariant(&*self);
        }
        match self.state {
            SessionState::Uninitialized => {
                if rc == EXSUCCEED {
                    self.state = SessionState::Initialized;
                    Ok(())
                } else {
                    Err(last)
                }
            },
            _ => Err(refuse_state()),
        }
    }

    /// Asks to terminate the session. For an initialized session the answer
    /// is the native call to make, whose status goes to `tpterm_reply`. A
    /// session that is already terminated needs no call: terminating it again
    /// succeeds at once. A session that was never initialized is refused with
    /// a protocol error.
    pub fn tpterm(&self) -> (r: AtmiResult<Option<SessionCall>>)
        ensures
            !(self@.state is Uninitialized) ==> r == Ok::<Option<SessionCall>, AtmiError>(
                self@.terminate_call(),
            ),
            self@.state is Uninitialized ==> (r matches Err(e) && e@ == wrong_state()),
    {
        match self.state {
            SessionState::Initialized => Ok(Some(SessionCall::Term)),
            SessionState::Terminated => Ok(None),
            SessionState::Uninitialized => Err(refuse_state()),
        }
    }

    /// Takes the status `rc` that the native termination returned, and the
    /// error `last` that the native layer held right after it. On success the
    /// session is terminated; on failure it stays initialized and `last` is
    /// the error. On a session that is already terminated this succeeds and
    /// changes nothing, whatever `rc` is.
    pub fn tpterm_reply(&mut self, rc: i32, last: AtmiError) -> (r: AtmiResult<()>)
        ensures
            final(self)@ == old(self)@.terminated_by(rc),
            old(self)@.state is Initialized && rc == EXSUCCEED ==> r == Ok::<(), AtmiError>(()),
            old(self)@.state is Initialized && rc != EXSUCCEED ==> r == Err::<(), AtmiError>(last),
            old(self)@.state is Terminated ==> r == Ok::<(), AtmiError>(()),
            old(self)@.state is Uninitialized ==> (r matches Err(e) && e@ == wrong_state()),
    {
        proof {
            use_type_invariant(&*self);
        }
        match self.state {
            SessionState::Initialized => {
                if rc == EXSUCCEED {
                    self.state = SessionState::Terminated;
                    Ok(())
                } else {
                    Err(last)
                }
            },
            SessionState::Terminated => Ok(()),
            SessionState::Uninitialized => Err(refuse_state()),
        }
    }

    /// Lets go of the session when its owner is done with it. A session that
    /// is still initialized is terminated: the answer is the native call to
    /// make, and whatever that call returns is of no consequence. Any other
    /// session is left as it is and needs no call.
    pub fn close(&mut self) -> (call: Option<SessionCall>)
        ensures
            call == old(self)@.terminate_call(),
            final(self)@ == old(self)@.closed(),
    {
        proof {
            use_type_invariant(&*self);
        }
        match self.state {
            SessionState::Initialized => {
                self.state = SessionState::Terminated;
                Some(SessionCall::Term)
            },
            _ => None,
        }
    }

    /// Asks for a buffer of type `type_` and subtype `subtype` with room for
    /// `size` bytes. The answer is the native call to make, whose result goes
    /// to `tpalloc_reply`. A session that is not initialized is refused with
    /// a protocol error, a name that holds the terminator with an argument
    /// error; no native call is due then.
    pub fn tpalloc(&self, type_: &str, subtype: &str, size: usize) -> (r: AtmiResult<AllocCall>)
        ensures
            match self@.alloc_call(type_@, subtype@, size) {
                Ok(call) => r matches Ok(c) && c@ == call,
                Err(error) => r matches Err(e) && e@ == error,
            },
    {
        if !self.is_initialized() {
            return Err(refuse_state());
        }
        let type_c = match c_string(type_) {
            Ok(bytes) => bytes,
            Err(_) => {
                return Err(AtmiError::new(AtmiError::TPEINVAL, "type_ contains NUL byte"));
            },
        };
        let subtype_c = match c_string(subtype) {
            Ok(bytes) => bytes,
            Err(_) => {
                return Err(AtmiError::new(AtmiError::TPEINVAL, "subtype contains NUL byte"));
            },
        };
        Ok(AllocCall { type_: type_c, subtype: subtype_c, size })
    }

    /// Takes the address `ptr` that the native allocation returned, and the
    /// error `last` that the native layer held right after it. A non-null
    /// address becomes a buffer owned by this session. A null address means
    /// failure: `last` is the error and there is no buffer. A session that is
    /// not initialized owns no buffers, so the reply is refused.
    pub fn tpalloc_reply<'ctx>(&'ctx self, ptr: usize, last: AtmiError) -> (r: AtmiResult<
        TypedBuffer<'ctx>,
    >)
        ensures
            !(self@.state is Initialized) ==> (r matches Err(e) && e@ == wrong_state()),
            self@.state is Initialized && ptr == 0 ==> (r matches Err(e) && e == last),
            self@.state is Initialized && ptr != 0 ==> (r matches Ok(b) && b@ == (BufferView {
                addr: ptr,
                owner: self@,
            })),
    {
        if !self.is_initialized() {
            Err(refuse_state())
        } else if ptr == 0 {
            Err(last)
        } else {
            Ok(TypedBuffer::from_raw(self, ptr))
        }
    }

    /// Asks for a structured buffer with room for `size` bytes: a buffer of
    /// the structured type with no subtype. The result of the native call
    /// goes to `tpalloc_ubf_reply`. A session that is not initialized is
    /// refused with a protocol error.
    pub fn tpalloc_ubf(&self, size: usize) -> (r: AtmiResult<AllocCall>)
        ensures
            self@.state is Initialized ==> (r matches Ok(c) && c@ == (AllocCallView {
                type_: ubf_type_name(),
                subtype: no_subtype(),
                size,
            })),
            !(self@.state is Initialized) ==> (r matches Err(e) && e@ == wrong_state()),
    {
        if !self.is_initialized() {
            return Err(refuse_state());
        }
        let type_c: Vec<u8> = vec![0x55u8, 0x42u8, 0x46u8, 0u8];
        let subtype_c: Vec<u8> = vec![0u8];
        assert(type_c@ =~= ubf_type_name());
        assert(subtype_c@ =~= no_subtype());
        Ok(AllocCall { type_: type_c, subtype: subtype_c, size })
    }

    /// Takes the answer to a request for a structured buffer; as
    /// `tpalloc_reply`, with the buffer read as a structured one.
    pub fn tpalloc_ubf_reply<'ctx>(&'ctx self, ptr: usize, last: AtmiError) -> (r: AtmiResult<
        TypedUbf<'ctx>,
    >)
        ensures
            !(self@.state is Initialized) ==> (r matches Err(e) && e@ == wrong_state()),
            self@.state is Initialized && ptr == 0 ==> (r matches Err(e) && e == last),
            self@.state is Initialized && ptr != 0 ==> (r matches Ok(u) && u@ == (BufferView {
                addr: ptr,
                owner: self@,
            })),
    {
        match self.tpalloc_reply(ptr, last) {
            Ok(buf) => Ok(TypedUbf::from_typed(buf)),
            Err(e) => Err(e),
        }
    }

    /// The session-subsystem error for the error number `code` and its
    /// description `message`, both as read from the native layer.
    pub fn atmi_last_error(&self, code: i32, message: &str) -> (e: AtmiError)
        ensures
            e@ == (ErrorView { code: code as u32, message: message@ }),
    {
        AtmiError::new(#[verifier::truncate] (code as u32), message)
    }

    /// The structured-buffer error for the error number `code` and its
    /// description `message`, both as read from the native layer.
    pub fn ubf_last_error(&self, code: i32, message: &str) -> (e: UbfError)
        ensures
            e@ == (ErrorView { code: code as u32, message: message@ }),
    {
        UbfError::new(#[verifier::truncate] (code as u32), message)
    }
}

/// Terminating twice: once a termination has succeeded, a further request to
/// terminate asks for no native call, and its reply succeeds and leaves the
/// session terminated, whatever status is handed in.
pub proof fn lemma_terminate_is_idempotent(s: SessionView, rc: i32)
    requires
        s.state is Initialized,
    ensures
        s.terminated_by(EXSUCCEED).state is Terminated,
        s.terminated_by(EXSUCCEED).terminate_call() is None,
        s.terminated_by(EXSUCCEED).terminated_by(rc) == s.terminated_by(EXSUCCEED),
        s.terminated_by(EXSUCCEED).closed() == s.terminated_by(EXSUCCEED),
{
}

/// No operation leads out of the terminated state or back to the
/// uninitialized one.
pub proof fn lemma_session_never_goes_back(s: SessionView, rc: i32)
    ensures
        s.state is Terminated ==> s.initialized_by(rc) == s && s.terminated_by(rc) == s
            && s.closed() == s,
        s.state is Initialized ==> !(s.initialized_by(rc).state is Uninitialized) && !(
        s.terminated_by(rc).state is Uninitialized) && !(s.closed().state is Uninitialized),
{
}

} // verus!
