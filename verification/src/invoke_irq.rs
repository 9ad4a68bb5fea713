//! The commit steps of the interrupt invocations.
//!
//! Binding an interrupt line to a handler touches the interrupt table and
//! the capability slots. Each function here decides what is done to them and
//! in which order, and hands that back as a list of [`IrqOperation`]s. What
//! the list does to the table and the slots is stated over [`IrqView`].

use vstd::prelude::*;
use crate::capability::{Capability, SlotId};
use crate::error::ExceptionResult;

verus! {

/// State of an interrupt line.
#[derive(Clone, Copy, Debug, PartialEq, Eq, Structural)]
pub enum IrqState {
    /// No handler is bound to the line.
    Inactive,
    /// The line signals the handler bound to it.
    Signal,
}

/// One step on the interrupt table or on a capability slot.
#[derive(Clone, Copy, Debug, PartialEq, Eq, Structural)]
pub enum IrqOperation {
    /// Put interrupt line `irq` into `state`.
    SetState { irq: usize, state: IrqState },
    /// Delete what `slot` holds and leave it empty.
    DeleteOne { slot: SlotId },
    /// Put `cap` into the empty slot `dest`, derived from the capability in
    /// `source`.
    Insert { cap: Capability, source: SlotId, dest: SlotId },
}

/// What a slot holds: nothing, or one capability and the slot that it was
/// derived from.
pub enum SlotContent {
    Empty,
    Occupied { cap: Capability, source: SlotId },
}

/// The interrupt table and the slots, as the operations see them. A line
/// that `states` does not list is inactive, a slot that `slots` does not
/// list is empty.
pub struct IrqView {
    pub states: Map<usize, IrqState>,
    pub slots: Map<SlotId, SlotContent>,
}

impl IrqView {
    /// The state of interrupt line `irq`.
    pub open spec fn state(self, irq: usize) -> IrqState {
        if self.states.dom().contains(irq) {
            self.states[irq]
        } else {
            IrqState::Inactive
        }
    }

    /// What `slot` holds.
    pub open spec fn content(self, slot: SlotId) -> SlotContent {
        if self.slots.dom().contains(slot) {
            self.slots[slot]
        } else {
            SlotContent::Empty
        }
    }

    /// The view after every operation of `operations`, first to last.
    pub open spec fn after(self, operations: Seq<IrqOperation>) -> IrqView
        decreases operations.len(),
    {
        if operations.len() == 0 {
            self
        } else {
            operations[0].apply(self).after(operations.skip(1))
        }
    }

    /// Every operation of `operations` is permitted in the view that it
    /// meets.
    pub open spec fn permits(self, operations: Seq<IrqOperation>) -> bool
        decreases operations.len(),
    {
        operations.len() > 0 ==> operations[0].permitted(self) && operations[0].apply(
            self,
        ).permits(operations.skip(1))
    }
}

impl IrqOperation {
    /// An insertion needs an empty slot; the other operations need nothing.
    pub open spec fn permitted(self, view: IrqView) -> bool {
        self matches IrqOperation::Insert { dest, .. } ==> view.content(dest) is Empty
    }

    /// The view after the operation.
    pub open spec fn apply(self, view: IrqView) -> IrqView {
        match self {
            IrqOperation::SetState { irq, state } => IrqView {
                states: view.states.insert(irq, state),
                ..view
            },
            IrqOperation::DeleteOne { slot } => IrqView {
                slots: view.slots.insert(slot, SlotContent::Empty),
                ..view
            },
            IrqOperation::Insert { cap, source, dest } => IrqView {
                slots: view.slots.insert(dest, SlotContent::Occupied { cap, source }),
                ..view
            },
        }
    }
}

/// The steps that bind interrupt line `irq`: the line is set to signal, then
/// a new handler capability for it goes into `handler_slot`, derived from
/// `control_slot`.
pub open spec fn irq_control_operations(
    irq: usize,
    handler_slot: SlotId,
    control_slot: SlotId,
) -> Seq<IrqOperation> {
    seq![
        IrqOperation::SetState { irq, state: IrqState::Signal },
        IrqOperation::Insert {
            cap: Capability::IrqHandler { irq },
            source: control_slot,
            dest: handler_slot,
        },
    ]
}

/// The steps that set the handler of interrupt line `irq`: the line's fixed
/// slot is emptied, then `cap` goes into it, derived from `source`.
pub open spec fn set_irq_handler_operations(
    irq: usize,
    cap: Capability,
    source: SlotId,
) -> Seq<IrqOperation> {
    seq![
        IrqOperation::DeleteOne { slot: SlotId::IrqHandler { irq } },
        IrqOperation::Insert { cap, source, dest: SlotId::IrqHandler { irq } },
    ]
}

/// The step that clears the handler of interrupt line `irq`: the line's
/// fixed slot is emptied.
pub open spec fn clear_irq_handler_operations(irq: usize) -> Seq<IrqOperation> {
    seq![IrqOperation::DeleteOne { slot: SlotId::IrqHandler { irq } }]
}

/// Binds interrupt line `irq` to a new handler capability in `handler_slot`.
///
/// This is the commit step: it validates nothing and always succeeds. That
/// `irq` is a line of the table and not yet bound, and that `handler_slot`
/// is empty, is for the caller to have made sure of.
pub fn invoke_irq_control(irq: usize, handler_slot: SlotId, control_slot: SlotId) -> (done: (
    ExceptionResult,
    Vec<IrqOperation>,
))
    ensures
        done.0 == ExceptionResult::NoException,
        done.1@ == irq_control_operations(irq, handler_slot, control_slot),
{
    let mut operations = Vec::new();
    operations.push(IrqOperation::SetState { irq, state: IrqState::Signal });
    operations.push(
        IrqOperation::Insert {
            cap: Capability::IrqHandler { irq },
            source: control_slot,
            dest: handler_slot,
        },
    );
    (ExceptionResult::NoException, operations)
}

/// Makes `cap`, which is held in `slot`, the handler of interrupt line
/// `irq`, in place of the handler that the line had.
pub fn invoke_set_irq_handler(irq: usize, cap: &Capability, slot: SlotId) -> (operations: Vec<
    IrqOperation,
>)
    ensures
        operations@ == set_irq_handler_operations(irq, *cap, slot),
{
    let irq_slot = SlotId::IrqHandler { irq };
    let mut operations = Vec::new();
    operations.push(IrqOperation::DeleteOne { slot: irq_slot });
    operations.push(IrqOperation::Insert { cap: *cap, source: slot, dest: irq_slot });
    operations
}

/// Takes the handler of interrupt line `irq` away.
pub fn invoke_clear_irq_handler(irq: usize) -> (operations: Vec<IrqOperation>)
    ensures
        operations@ == clear_irq_handler_operations(irq),
{
    let mut operations = Vec::new();
    operations.push(IrqOperation::DeleteOne { slot: SlotId::IrqHandler { irq } });
    operations
}

/// Binding a line whose handler slot is empty is permitted step by step. It
/// leaves the line signalling and the handler slot holding a handler
/// capability for the line, derived from the control slot. No other line and
/// no other slot changes.
pub proof fn lemma_irq_control_binds(
    view: IrqView,
    irq: usize,
    handler_slot: SlotId,
    control_slot: SlotId,
)
    requires
        view.content(handler_slot) is Empty,
    ensures
        view.permits(irq_control_operations(irq, handler_slot, control_slot)),
        ({
            let after = view.after(irq_control_operations(irq, handler_slot, control_slot));
            &&& after.state(irq) == IrqState::Signal
            &&& after.content(handler_slot) == (SlotContent::Occupied {
                cap: Capability::IrqHandler { irq },
                source: control_slot,
            })
            &&& forall|other: usize| other != irq ==> after.state(other) == view.state(other)
            &&& forall|other: SlotId|
                other != handler_slot ==> after.content(other) == view.content(other)
        }),
{
    let operations = irq_control_operations(irq, handler_slot, control_slot);
    lemma_after_two(view, operations);
}

/// Setting a handler is permitted step by step, whatever the line's fixed
/// slot holds. The slot is empty before the capability goes in, and in the
/// end it holds exactly that capability, derived from the source slot. No
/// other slot and no line's state changes.
pub proof fn lemma_set_irq_handler_replaces(
    view: IrqView,
    irq: usize,
    cap: Capability,
    source: SlotId,
)
    ensures
        view.permits(set_irq_handler_operations(irq, cap, source)),
        ({
            let operations = set_irq_handler_operations(irq, cap, source);
            let fixed = SlotId::IrqHandler { irq };
            let after = view.after(operations);
            &&& operations[0].apply(view).content(fixed) is Empty
            &&& after == operations[1].apply(operations[0].apply(view))
            &&& after.content(fixed) == (SlotContent::Occupied { cap, source })
            &&& forall|other: SlotId| other != fixed ==> after.content(other) == view.content(other)
            &&& after.states == view.states
        }),
{
    let operations = set_irq_handler_operations(irq, cap, source);
    lemma_after_two(view, operations);
}

/// Clearing a handler leaves the line's fixed slot empty. No other slot and
/// no line's state changes.
pub proof fn lemma_clear_irq_handler_empties(view: IrqView, irq: usize)
    ensures
        view.permits(clear_irq_handler_operations(irq)),
        ({
            let fixed = SlotId::IrqHandler { irq };
            let after = view.after(clear_irq_handler_operations(irq));
            &&& after.content(fixed) is Empty
            &&& forall|other: SlotId| other != fixed ==> after.content(other) == view.content(other)
            &&& after.states == view.states
        }),
{
    let operations = clear_irq_handler_operations(irq);
    let emptied = operations[0].apply(view);
    assert(operations.skip(1).len() == 0);
    assert(emptied.after(operations.skip(1)) == emptied);
    assert(emptied.permits(operations.skip(1)));
}

proof fn lemma_after_two(view: IrqView, operations: Seq<IrqOperation>)
    requires
        operations.len() == 2,
    ensures
        view.after(operations) == operations[1].apply(operations[0].apply(view)),
        view.permits(operations) <==> operations[0].permitted(view) && operations[1].permitted(
            operations[0].apply(view),
        ),
{
    let first = operations[0].apply(view);
    let rest = operations.skip(1);
    assert(rest.len() == 1);
    assert(rest[0] == operations[1]);
    let second = rest[0].apply(first);
    assert(rest.skip(1).len() == 0);
    assert(second.after(rest.skip(1)) == second);
    assert(second.permits(rest.skip(1)));
    assert(first.after(rest) == second);
    assert(first.permits(rest) <==> rest[0].permitted(first));
}

} // verus!
