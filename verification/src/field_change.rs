//! Changing one field of a structured buffer.
//!
//! The change is a small protocol with the native layer. The field is written
//! by the native change call. If that call reports that the buffer has no
//! space left, and the caller allowed growth, the buffer's size is asked for,
//! the buffer is resized to twice that size, and the same change call is made
//! again, as often as it takes. Any other failure of the change call ends the
//! operation at once, and so does a failure to learn the size or to resize.
//!
//! The protocol is written as a step function: from the phase the operation
//! is in and the reply of the native layer to the next phase or the result.
//! The caller makes the native calls and hands each reply back.

use crate::errors::{AtmiError, ErrorView, UbfError, UbfResult};
use crate::native::{ChangeCall, ReallocCall, SizeofCall, EXSUCCEED};
use crate::typed_ubf::{
    cannot_double, growth_failure, null_ubf, reported_size, FieldArg, TypedUbf, UbfValue,
};
use vstd::prelude::*;
use vstd::string::*;

verus! {

/// The native call that an operation is waiting on.
#[derive(Debug, Clone, Copy, PartialEq, Eq, Structural)]
pub enum Phase {
    /// The change call.
    Mutating,
    /// The size query that precedes a growth step.
    Sizing,
    /// The resize to `requested` bytes.
    Growing { requested: usize },
}

/// A field change under way.
#[derive(Debug)]
pub struct FieldChange {
    /// The field's identifier.
    pub bfldid: i32,
    /// The occurrence of the field that is written.
    pub occ: i32,
    /// The payload, as the change call takes it.
    pub arg: FieldArg,
    /// Whether the buffer may be grown when it is too small.
    pub realloc: bool,
    pub phase: Phase,
}

/// A native call that a field change asks for.
#[derive(Debug, Clone, Copy, PartialEq, Eq, Structural)]
pub enum UbfCall {
    /// Write the field.
    Change(ChangeCall),
    /// Report the size of the buffer.
    Sizeof(SizeofCall),
    /// Resize the buffer.
    Realloc(ReallocCall),
}

/// What the native layer answered: the value that the call returned, and the
/// error that the native layer held right after the call. The error is
/// looked at only where the returned value reports failure.
#[derive(Debug)]
pub enum UbfReply {
    /// The answer to a change call.
    Changed { rc: i32, last: UbfError },
    /// The answer to a size query.
    Sized { status: i64, last: UbfError },
    /// The answer to a resize: the buffer's new address, null on failure.
    Grown { ptr: usize, cause: AtmiError },
}

/// Where a field change stands after a reply.
#[derive(Debug)]
pub enum Progress {
    /// Another native call is due.
    Pending(FieldChange),
    /// The operation is over, with this result.
    Done(UbfResult<()>),
}

/// `Progress` without the parts of the operation that no step changes.
pub enum Outcome {
    Pending(Phase),
    Done(Result<(), ErrorView>),
}

impl Progress {
    pub open spec fn outcome(self) -> Outcome {
        match self {
            Progress::Pending(op) => Outcome::Pending(op.phase),
            Progress::Done(Ok(_)) => Outcome::Done(Ok(())),
            Progress::Done(Err(e)) => Outcome::Done(Err(e@)),
        }
    }
}

/// Whether `reply` answers the call that is due in `phase`.
pub open spec fn answers(reply: UbfReply, phase: Phase) -> bool {
    match (phase, reply) {
        (Phase::Mutating, UbfReply::Changed { .. }) => true,
        (Phase::Sizing, UbfReply::Sized { .. }) => true,
        (Phase::Growing { .. }, UbfReply::Grown { .. }) => true,
        _ => false,
    }
}

/// The native call that is due in `phase` for the buffer at `addr`.
pub open spec fn pending_call(phase: Phase, bfldid: i32, occ: i32, addr: usize) -> UbfCall {
    match phase {
        Phase::Mutating => UbfCall::Change(ChangeCall { ubfh: addr, bfldid, occ }),
        Phase::Sizing => UbfCall::Sizeof(SizeofCall { ubfh: addr }),
        Phase::Growing { requested } => UbfCall::Realloc(
            ReallocCall { ptr: addr, size: requested },
        ),
    }
}

/// One step of the protocol: the buffer's address and the operation's
/// standing after `reply` was taken in `phase`, for a buffer at `addr` and an
/// operation that may grow the buffer if `realloc` is set.
///
/// A handle that holds no buffer ends the operation. A reply that does not
/// answer the call that is due changes nothing: the same call stays due.
pub open spec fn step(phase: Phase, realloc: bool, addr: usize, reply: UbfReply) -> (
    usize,
    Outcome,
) {
    if addr == 0 {
        (addr, Outcome::Done(Err(null_ubf())))
    } else {
        match (phase, reply) {
            (Phase::Mutating, UbfReply::Changed { rc, last }) => {
                if rc == EXSUCCEED {
                    (addr, Outcome::Done(Ok(())))
                } else if last.code == UbfError::BNOSPACE && realloc {
                    (addr, Outcome::Pending(Phase::Sizing))
                } else {
                    (addr, Outcome::Done(Err(last@)))
                }
            },
            (Phase::Sizing, UbfReply::Sized { status, last }) => {
                match reported_size(status) {
                    None => (addr, Outcome::Done(Err(last@))),
                    Some(size) => {
                        if 2 * size > usize::MAX {
                            (addr, Outcome::Done(Err(cannot_double())))
                        } else {
                            (
                                addr,
                                Outcome::Pending(Phase::Growing { requested: (2 * size) as usize }),
                            )
                        }
                    },
                }
            },
            (Phase::Growing { requested }, UbfReply::Grown { ptr, cause }) => {
                if ptr == 0 {
                    (addr, Outcome::Done(Err(growth_failure(cause@))))
                } else {
                    (ptr, Outcome::Pending(Phase::Mutating))
                }
            },
            _ => (addr, Outcome::Pending(phase)),
        }
    }
}

impl FieldChange {
    /// The native call that the operation is waiting on.
    pub fn call(&self, ubf: &TypedUbf) -> (c: UbfCall)
        ensures
            c == pending_call(self.phase, self.bfldid, self.occ, ubf@.addr),
    {
        match self.phase {
            Phase::Mutating => UbfCall::Change(
                ChangeCall { ubfh: ubf.as_ubfh(), bfldid: self.bfldid, occ: self.occ },
            ),
            Phase::Sizing => UbfCall::Sizeof(SizeofCall { ubfh: ubf.as_ubfh() }),
            Phase::Growing { requested } => UbfCall::Realloc(
                ReallocCall { ptr: ubf.as_ptr(), size: requested },
            ),
        }
    }
}

/// The size to ask for when a buffer of `size` bytes is grown: twice the
/// size, unless no buffer can be that large.
fn doubled(size: usize) -> (r: UbfResult<usize>)
    ensures
        2 * size <= usize::MAX ==> r == Ok::<usize, UbfError>((2 * size) as usize),
        2 * size > usize::MAX ==> (r matches Err(e) && e@ == cannot_double()),
{
    if size > usize::MAX / 2 {
        Err(UbfError::new(UbfError::BMALLOC, "buffer size cannot be doubled"))
    } else {
        Ok(size * 2)
    }
}

/// Turns the session-subsystem error of a failed resize into the
/// structured-buffer error of a failed growth, keeping its diagnostic.
fn grow_failed(cause: AtmiError) -> (e: UbfError)
    ensures
        e@ == growth_failure(cause@),
{
    UbfError { code: UbfError::BMALLOC, message: cause.message }
}

impl<'ctx> TypedUbf<'ctx> {
    /// Begins to change the field `(bfldid, occ)` to `v`. With `realloc` set
    /// the buffer is grown as often as the change call finds it too small.
    ///
    /// The value is prepared first: one that cannot be handed to the native
    /// layer is an error here, before any native call. So is a handle that
    /// holds no buffer. Otherwise the answer is the operation, waiting on
    /// its first change call; `FieldChange::call` tells which call is due and
    /// `bchg_reply` takes the reply.
    pub fn bchg(&self, bfldid: i32, occ: i32, v: &UbfValue, realloc: bool) -> (r: UbfResult<
        FieldChange,
    >)
        ensures
            match v.marshaled() {
                Err(error) => r matches Err(e) && e@ == error,
                Ok(arg) => if self@.is_null() {
                    r matches Err(e) && e@ == null_ubf()
                } else {
                    r matches Ok(op) && op.bfldid == bfldid && op.occ == occ && op.arg@ == arg
                        && op.realloc == realloc && op.phase == Phase::Mutating
                },
            },
    {
        let arg = v.marshal()?;
        if self.is_null() {
            return Err(UbfError::new(UbfError::BNOTFLD, "buffer is null"));
        }
        Ok(FieldChange { bfldid, occ, arg, realloc, phase: Phase::Mutating })
    }

    /// Takes the reply to the call that `op` was waiting on and decides how
    /// the operation goes on, as `step` says. Only a successful resize
    /// changes the handle: the buffer is then at its new address.
    pub fn bchg_reply(&mut self, op: FieldChange, reply: UbfReply) -> (r: Progress)
        ensures
            final(self)@.owner == old(self)@.owner,
            (final(self)@.addr, r.outcome()) == step(
                op.phase,
                op.realloc,
                old(self)@.addr,
                reply,
            ),
            r matches Progress::Pending(next) ==> next == (FieldChange {
                phase: next.phase,
                ..op
            }),
    {
        if self.is_null() {
            return Progress::Done(Err(UbfError::new(UbfError::BNOTFLD, "buffer is null")));
        }
        let mut op = op;
        match (op.phase, reply) {
            (Phase::Mutating, UbfReply::Changed { rc, last }) => {
                if rc == EXSUCCEED {
                    Progress::Done(Ok(()))
                } else if last.code == UbfError::BNOSPACE && op.realloc {
                    op.phase = Phase::Sizing;
                    Progress::Pending(op)
                } else {
                    Progress::Done(Err(last))
                }
            },
            (Phase::Sizing, UbfReply::Sized { status, last }) => {
                match self.bsizeof_reply(status, last) {
                    Err(e) => Progress::Done(Err(e)),
                    Ok(size) => match doubled(size) {
                        Err(e) => Progress::Done(Err(e)),
                        Ok(requested) => {
                            op.phase = Phase::Growing { requested };
                            Progress::Pending(op)
                        },
                    },
                }
            },
            (Phase::Growing { requested }, UbfReply::Grown { ptr, cause }) => {
                match self.tprealloc_reply(ptr, cause) {
                    Err(e) => Progress::Done(Err(grow_failed(e))),
                    Ok(_) => {
                        op.phase = Phase::Mutating;
                        Progress::Pending(op)
                    },
                }
            },
            (_, _) => Progress::Pending(op),
        }
    }
}

} // verus!
