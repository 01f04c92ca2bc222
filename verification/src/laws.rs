//! What holds of every cursor, stated over the model and proved.

use crate::model::ReadBufView;
use vstd::prelude::*;

verus! {

/// One step that a cursor can be asked to take.
///
/// The three `Write` steps stand for what a caller does through a slice
/// that the cursor has handed out: it replaces bytes and cannot change
/// their number.
pub enum Op {
    /// `set_filled(n)`.
    SetFilled(nat),
    /// `add_filled(n)`.
    AddFilled(nat),
    /// `clear()`.
    Clear,
    /// `initialize_unfilled_to(n)`, and `initialize_unfilled()` with what
    /// remains for `n`.
    InitializeUnfilledTo(nat),
    /// `append(bytes)`.
    Append(Seq<u8>),
    /// A write through `filled_mut()` that leaves these bytes.
    WriteFilled(Seq<u8>),
    /// A write through `initialized_mut()` that leaves these bytes.
    WriteInitialized(Seq<u8>),
    /// A write through the slice of `initialize_unfilled_to` that leaves
    /// these bytes.
    WriteUnfilled(Seq<u8>),
}

impl ReadBufView {
    /// Whether the step may be asked of this cursor.
    pub open spec fn permits(self, op: Op) -> bool {
        match op {
            Op::SetFilled(n) => self.can_set_filled(n),
            Op::AddFilled(n) => self.can_add_filled(n),
            Op::Clear => true,
            Op::InitializeUnfilledTo(n) => self.can_initialize_unfilled_to(n),
            Op::Append(bytes) => self.can_append(bytes),
            Op::WriteFilled(bytes) => bytes.len() == self.filled,
            Op::WriteInitialized(bytes) => bytes.len() == self.initialized.len(),
            Op::WriteUnfilled(bytes) => self.filled + bytes.len() <= self.initialized.len(),
        }
    }

    /// The cursor after the step.
    pub open spec fn apply(self, op: Op) -> Self {
        match op {
            Op::SetFilled(n) => self.set_filled(n),
            Op::AddFilled(n) => self.add_filled(n),
            Op::Clear => self.clear(),
            Op::InitializeUnfilledTo(n) => self.initialize_unfilled_to(n),
            Op::Append(bytes) => self.append(bytes),
            Op::WriteFilled(bytes) => self.write_filled(bytes),
            Op::WriteInitialized(bytes) => self.write_initialized(bytes),
            Op::WriteUnfilled(bytes) => self.write_unfilled(bytes),
        }
    }

    /// Whether the steps may be asked one after the other.
    pub open spec fn permits_all(self, ops: Seq<Op>) -> bool
        decreases ops.len(),
    {
        ops.len() == 0 || (self.permits(ops[0]) && self.apply(ops[0]).permits_all(
            ops.drop_first(),
        ))
    }

    /// The cursor after the steps.
    pub open spec fn run(self, ops: Seq<Op>) -> Self
        decreases ops.len(),
    {
        if ops.len() == 0 {
            self
        } else {
            self.apply(ops[0]).run(ops.drop_first())
        }
    }
}

/// A permitted step keeps the marks in order and the capacity as it is, and
/// does not make the initialized part shorter.
pub proof fn lemma_step(v: ReadBufView, op: Op)
    requires
        v.inv(),
        v.permits(op),
    ensures
        v.apply(op).inv(),
        v.apply(op).capacity == v.capacity,
        v.apply(op).initialized.len() >= v.initialized.len(),
{
}

/// After any sequence of permitted steps the marks are in order:
/// `filled <= initialized <= capacity`, with the capacity that the cursor
/// began with.
pub proof fn lemma_steps_keep_order(v: ReadBufView, ops: Seq<Op>)
    requires
        v.inv(),
        v.permits_all(ops),
    ensures
        v.run(ops).inv(),
        v.run(ops).capacity == v.capacity,
    decreases ops.len(),
{
    if ops.len() > 0 {
        lemma_step(v, ops[0]);
        lemma_steps_keep_order(v.apply(ops[0]), ops.drop_first());
    }
}

/// No sequence of permitted steps makes the initialized part shorter.
pub proof fn lemma_initialized_never_shrinks(v: ReadBufView, ops: Seq<Op>)
    requires
        v.inv(),
        v.permits_all(ops),
    ensures
        v.run(ops).initialized.len() >= v.initialized.len(),
    decreases ops.len(),
{
    if ops.len() > 0 {
        lemma_step(v, ops[0]);
        lemma_initialized_never_shrinks(v.apply(ops[0]), ops.drop_first());
    }
}

/// Asking for the first `n` unfilled bytes makes the initialized part reach
/// just behind them, if it did not: the bytes that were initialized stay,
/// and the new ones are zero.
pub proof fn lemma_zero_fill(v: ReadBufView, n: nat)
    requires
        v.inv(),
        v.can_initialize_unfilled_to(n),
    ensures
        v.initialize_unfilled_to(n).initialized.len() == if v.filled + n > v.initialized.len() {
            v.filled + n
        } else {
            v.initialized.len()
        },
        v.initialize_unfilled_to(n).initialized.take(v.initialized.len() as int) == v.initialized,
        forall|i: int|
            v.initialized.len() <= i < v.filled + n ==> v.initialize_unfilled_to(n).initialized[i]
                == 0,
{
    assert(v.initialize_unfilled_to(n).initialized.take(v.initialized.len() as int)
        =~= v.initialized);
}

/// Asking a second time for as many unfilled bytes or fewer writes no zero
/// and changes nothing, and hands out what the first call's slice was left
/// holding.
pub proof fn lemma_initialize_again(v: ReadBufView, n: nat, left: Seq<u8>, m: nat)
    requires
        v.inv(),
        v.can_initialize_unfilled_to(n),
        left.len() == n,
        m <= n,
    ensures
        ({
            let first = v.initialize_unfilled_to(n).write_unfilled(left);
            &&& first.can_initialize_unfilled_to(m)
            &&& first.zero_fill(m) == 0
            &&& first.initialize_unfilled_to(m) == first
            &&& first.initialize_unfilled_to(m).unfilled(m) == left.take(m as int)
        }),
{
    let first = v.initialize_unfilled_to(n).write_unfilled(left);
    assert(first.initialize_unfilled_to(m).initialized =~= first.initialized);
    assert(first.unfilled(m) =~= left.take(m as int));
}

/// After `append(bytes)` the filled part is what it was with `bytes` behind
/// it, once, and the initialized part reaches at least as far.
pub proof fn lemma_append_round_trip(v: ReadBufView, bytes: Seq<u8>)
    requires
        v.inv(),
        v.can_append(bytes),
    ensures
        v.append(bytes).inv(),
        v.append(bytes).filled == v.filled + bytes.len(),
        v.append(bytes).filled_bytes() == v.filled_bytes() + bytes,
        v.append(bytes).filled_bytes().skip(v.filled as int) == bytes,
        v.append(bytes).initialized.len() == if v.filled + bytes.len() > v.initialized.len() {
            v.filled + bytes.len()
        } else {
            v.initialized.len()
        },
{
    assert(v.append(bytes).filled_bytes() =~= v.filled_bytes() + bytes);
    assert(v.append(bytes).filled_bytes().skip(v.filled as int) =~= bytes);
}

/// `append(bytes)` moves both marks forward by the length of `bytes`,
/// unless it writes over bytes that were initialized and not filled: those
/// are initialized already, and the initialized mark moves less.
pub proof fn lemma_append_advances_both(v: ReadBufView, bytes: Seq<u8>)
    requires
        v.inv(),
        v.can_append(bytes),
        v.filled == v.initialized.len() || bytes.len() == 0,
    ensures
        v.append(bytes).filled == v.filled + bytes.len(),
        v.append(bytes).initialized.len() == v.initialized.len() + bytes.len(),
{
}

/// Where the operations stop: the filled mark cannot go one byte behind the
/// initialized part, nor forward on a cursor with nothing initialized, and
/// no more unfilled bytes can be asked for than remain. Up to these bounds
/// everything is permitted.
pub proof fn lemma_boundaries(v: ReadBufView)
    requires
        v.inv(),
    ensures
        v.can_set_filled(v.initialized.len()),
        !v.can_set_filled(v.initialized.len() + 1),
        v.initialized.len() == 0 ==> !v.can_add_filled(1),
        v.can_initialize_unfilled_to(v.remaining()),
        !v.can_initialize_unfilled_to(v.remaining() + 1),
        forall|bytes: Seq<u8>| bytes.len() == v.remaining() + 1 ==> !v.can_append(bytes),
{
}

} // verus!
