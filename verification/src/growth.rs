//! What holds of a field change over whole runs of the protocol: when it
//! grows the buffer, and that it comes to an end where memory is bounded.

use crate::errors::UbfError;
use crate::field_change::{answers, step, Outcome, Phase, UbfReply};
use crate::native::EXSUCCEED;
use crate::typed_ubf::reported_size;
use vstd::arithmetic::power2::{lemma_pow2_unfold, pow2};
use vstd::prelude::*;

verus! {

/// The protocol run from `phase` over `replies`, each reply taken in turn for
/// as long as the operation is under way. Replies that come after the
/// operation is over are not looked at.
pub open spec fn run(phase: Phase, realloc: bool, addr: usize, replies: Seq<UbfReply>) -> (
    usize,
    Outcome,
)
    decreases replies.len(),
{
    if replies.len() == 0 {
        (addr, Outcome::Pending(phase))
    } else {
        let first = step(phase, realloc, addr, replies[0]);
        match first.1 {
            Outcome::Pending(next) => run(next, realloc, first.0, replies.drop_first()),
            Outcome::Done(_) => first,
        }
    }
}

/// Whether `reply` is a change call failing for want of space.
pub open spec fn is_capacity_failure(reply: UbfReply) -> bool {
    reply matches UbfReply::Changed { rc, last } && rc != EXSUCCEED && last.code
        == UbfError::BNOSPACE
}

/// Whether `reply` is a change call failing for any other reason, or a size
/// query failing.
pub open spec fn is_other_failure(reply: UbfReply) -> bool {
    match reply {
        UbfReply::Changed { rc, last } => rc != EXSUCCEED && last.code != UbfError::BNOSPACE,
        UbfReply::Sized { status, .. } => reported_size(status) is None,
        UbfReply::Grown { .. } => false,
    }
}

/// Whether `reply` may come from a native layer that never lets a buffer
/// grow beyond `limit` bytes, where the buffer in hand was last resized to
/// `granted` bytes: the reply answers the call that is due, a size that it
/// reports is no smaller than what was granted, and a resize beyond the
/// limit fails.
pub open spec fn permits(limit: nat, granted: nat, phase: Phase, reply: UbfReply) -> bool {
    &&& answers(reply, phase)
    &&& match (phase, reply) {
        (Phase::Sizing, UbfReply::Sized { status, .. }) => reported_size(status) is Some ==> status
            >= granted,
        (Phase::Growing { requested }, UbfReply::Grown { ptr, .. }) => requested > limit ==> ptr
            == 0,
        _ => true,
    }
}

/// The size that the buffer was last resized to, after `reply`. A resize that
/// succeeds makes the buffer as large as was asked for, and never empty.
pub open spec fn granted_after(granted: nat, phase: Phase, reply: UbfReply) -> nat {
    match (phase, reply) {
        (Phase::Growing { requested }, UbfReply::Grown { ptr, .. }) => {
            if ptr == 0 {
                granted
            } else if requested == 0 {
                1
            } else {
                requested as nat
            }
        },
        _ => granted,
    }
}

/// Whether every reply that a run with growth allowed takes from `replies`
/// is one that a native layer bounded by `limit` permits.
pub open spec fn bounded(
    limit: nat,
    granted: nat,
    phase: Phase,
    addr: usize,
    replies: Seq<UbfReply>,
) -> bool
    decreases replies.len(),
{
    replies.len() > 0 ==> {
        let first = step(phase, true, addr, replies[0]);
        &&& permits(limit, granted, phase, replies[0])
        &&& match first.1 {
            Outcome::Pending(next) => bounded(
                limit,
                granted_after(granted, phase, replies[0]),
                next,
                first.0,
                replies.drop_first(),
            ),
            Outcome::Done(_) => true,
        }
    }
}

/// The number of replies within which a run under a bounded native layer is
/// over.
pub open spec fn budget(limit: nat, granted: nat, phase: Phase) -> int {
    3 * (limit + 2 - granted) - match phase {
        Phase::Mutating => 0int,
        Phase::Sizing => 1int,
        Phase::Growing { .. } => 2int,
    }
}

proof fn lemma_bounded_run_ends(
    limit: nat,
    granted: nat,
    phase: Phase,
    addr: usize,
    replies: Seq<UbfReply>,
)
    requires
        granted <= limit + 1,
        phase matches Phase::Growing { requested } ==> requested >= 2 * granted,
        bounded(limit, granted, phase, addr, replies),
        replies.len() >= budget(limit, granted, phase),
    ensures
        run(phase, true, addr, replies).1 is Done,
    decreases replies.len(),
{
    let first = step(phase, true, addr, replies[0]);
    if let Outcome::Pending(next) = first.1 {
        lemma_bounded_run_ends(
            limit,
            granted_after(granted, phase, replies[0]),
            next,
            first.0,
            replies.drop_first(),
        );
    }
}

proof fn lemma_capacity_failures_end_in_growth_failure(
    phase: Phase,
    addr: usize,
    replies: Seq<UbfReply>,
)
    requires
        addr != 0,
        forall|i: int| 0 <= i < replies.len() ==> !is_other_failure(#[trigger] replies[i]),
    ensures
        run(phase, true, addr, replies).1 matches Outcome::Done(Err(e)) ==> e.code
            == UbfError::BMALLOC,
    decreases replies.len(),
{
    if replies.len() > 0 {
        let first = step(phase, true, addr, replies[0]);
        assert(!is_other_failure(replies[0]));
        if let Outcome::Pending(next) = first.1 {
            let rest = replies.drop_first();
            assert forall|i: int| 0 <= i < rest.len() implies !is_other_failure(
                #[trigger] rest[i],
            ) by {
                assert(rest[i] == replies[i + 1]);
            }
            lemma_capacity_failures_end_in_growth_failure(next, first.0, rest);
        }
    }
}

/// The number of resizes that succeed in a run with growth allowed.
pub open spec fn doublings(phase: Phase, addr: usize, replies: Seq<UbfReply>) -> nat
    decreases replies.len(),
{
    if replies.len() == 0 {
        0
    } else {
        let first = step(phase, true, addr, replies[0]);
        match first.1 {
            Outcome::Pending(next) => {
                let grown: nat = if phase is Growing && next is Mutating {
                    1
                } else {
                    0
                };
                grown + doublings(next, first.0, replies.drop_first())
            },
            Outcome::Done(_) => 0,
        }
    }
}

/// The largest size that a native layer bounded by `limit` lets a buffer
/// have: the limit, and one byte at the least.
pub open spec fn largest(limit: nat) -> nat {
    if limit == 0 {
        1
    } else {
        limit
    }
}

/// Twice the size that the buffer is known to have, and one at the least.
spec fn weight(granted: nat) -> nat {
    if granted == 0 {
        1
    } else {
        2 * granted
    }
}

proof fn lemma_doublings_are_few(
    limit: nat,
    granted: nat,
    phase: Phase,
    addr: usize,
    replies: Seq<UbfReply>,
)
    requires
        granted <= largest(limit),
        phase matches Phase::Growing { requested } ==> requested >= 2 * granted,
        bounded(limit, granted, phase, addr, replies),
    ensures
        pow2(doublings(phase, addr, replies)) * weight(granted) <= 2 * largest(limit),
    decreases replies.len(),
{
    assert(pow2(0) == 1) by {
        vstd::arithmetic::power2::lemma2_to64();
    }
    assert(pow2(0) * weight(granted) == weight(granted)) by (nonlinear_arith)
        requires
            pow2(0) == 1,
    ;
    if replies.len() > 0 {
        let first = step(phase, true, addr, replies[0]);
        if let Outcome::Pending(next) = first.1 {
            let rest = replies.drop_first();
            let after = granted_after(granted, phase, replies[0]);
            lemma_doublings_are_few(limit, after, next, first.0, rest);
            let more = doublings(next, first.0, rest);
            if phase is Growing && next is Mutating {
                lemma_pow2_unfold(more + 1);
                assert(pow2(more + 1) * weight(granted) <= pow2(more) * weight(after))
                    by (nonlinear_arith)
                    requires
                        pow2(more + 1) == 2 * pow2(more),
                        weight(after) >= 2 * weight(granted),
                ;
            }
        }
    }
}

/// Growth is geometric. Every resize that succeeds at least doubles the
/// buffer, so under a native layer that never lets the buffer grow beyond
/// `limit` bytes a change makes no more successful resizes than it takes to
/// double one byte up to the limit, and one more: with `n` of them, `2^n` is
/// at most twice the limit. This holds whatever size the buffer starts with.
pub proof fn lemma_growth_is_geometric(limit: nat, addr: usize, replies: Seq<UbfReply>)
    requires
        bounded(limit, 0, Phase::Mutating, addr, replies),
    ensures
        pow2(doublings(Phase::Mutating, addr, replies)) <= 2 * largest(limit),
{
    lemma_doublings_are_few(limit, 0, Phase::Mutating, addr, replies);
}

/// Growth comes to an end. Take a change with growth allowed on a live
/// buffer, and a native layer that never lets the buffer grow beyond `limit`
/// bytes. Then the operation is over within `3 * (limit + 2)` replies, so
/// after at most `limit + 2` doublings. If want of space is all that ever
/// goes wrong with the change call and the size query, the operation ends in
/// success or in the error that stands for a failed growth.
pub proof fn lemma_growth_terminates(limit: nat, addr: usize, replies: Seq<UbfReply>)
    requires
        addr != 0,
        bounded(limit, 0, Phase::Mutating, addr, replies),
        replies.len() >= 3 * (limit + 2),
    ensures
        run(Phase::Mutating, true, addr, replies).1 is Done,
        (forall|i: int| 0 <= i < replies.len() ==> !is_other_failure(#[trigger] replies[i]))
            ==> (run(Phase::Mutating, true, addr, replies).1 matches Outcome::Done(r) && (r is Ok
            || r->Err_0.code == UbfError::BMALLOC)),
{
    lemma_bounded_run_ends(limit, 0, Phase::Mutating, addr, replies);
    if forall|i: int| 0 <= i < replies.len() ==> !is_other_failure(#[trigger] replies[i]) {
        lemma_capacity_failures_end_in_growth_failure(Phase::Mutating, addr, replies);
    }
}

/// No growth without a capacity error. Where growth is not allowed, or no
/// change call fails for want of space, a run never leaves the phase of the
/// change call: no size is asked for, no resize is made and the buffer stays
/// where it is. This holds of every prefix of a run too, since the premise
/// does.
pub proof fn lemma_no_growth_without_capacity_failure(
    realloc: bool,
    addr: usize,
    replies: Seq<UbfReply>,
)
    requires
        realloc ==> forall|i: int|
            0 <= i < replies.len() ==> !is_capacity_failure(#[trigger] replies[i]),
    ensures
        run(Phase::Mutating, realloc, addr, replies).0 == addr,
        run(Phase::Mutating, realloc, addr, replies).1 matches Outcome::Pending(phase) ==> phase
            == Phase::Mutating,
    decreases replies.len(),
{
    if replies.len() > 0 {
        let first = step(Phase::Mutating, realloc, addr, replies[0]);
        assert(realloc ==> !is_capacity_failure(replies[0]));
        if let Outcome::Pending(next) = first.1 {
            let rest = replies.drop_first();
            assert forall|i: int| 0 <= i < rest.len() && realloc implies !is_capacity_failure(
                #[trigger] rest[i],
            ) by {
                assert(rest[i] == replies[i + 1]);
            }
            lemma_no_growth_without_capacity_failure(realloc, addr, rest);
        }
    }
}

/// A change call that fails for another reason than want of space ends the
/// operation with that very error, whether or not growth is allowed.
pub proof fn lemma_other_failure_is_final(realloc: bool, addr: usize, reply: UbfReply)
    requires
        addr != 0,
        reply matches UbfReply::Changed { rc, last } && rc != EXSUCCEED && last.code
            != UbfError::BNOSPACE,
    ensures
        step(Phase::Mutating, realloc, addr, reply) == (
            addr,
            Outcome::Done(Err(reply->Changed_last@)),
        ),
{
}

} // verus!
