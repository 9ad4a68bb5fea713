use invocation::capability::{Capability, SlotId};
use invocation::error::ExceptionResult;
use invocation::invoke_irq::{
    invoke_clear_irq_handler, invoke_irq_control, invoke_set_irq_handler, IrqOperation, IrqState,
};

#[test]
fn irq_control_marks_the_line_then_inserts_a_handler_capability() {
    let (result, operations) = invoke_irq_control(9, SlotId::At(0x100), SlotId::At(0x200));
    assert_eq!(result, ExceptionResult::NoException);
    assert_eq!(
        operations,
        vec![
            IrqOperation::SetState { irq: 9, state: IrqState::Signal },
            IrqOperation::Insert {
                cap: Capability::IrqHandler { irq: 9 },
                source: SlotId::At(0x200),
                dest: SlotId::At(0x100),
            },
        ]
    );
}

#[test]
fn irq_control_always_succeeds() {
    for irq in [0usize, 1, 63, usize::MAX] {
        let (result, operations) = invoke_irq_control(irq, SlotId::At(0), SlotId::At(0));
        assert_eq!(result, ExceptionResult::NoException);
        assert_eq!(operations.len(), 2);
        assert_eq!(operations[0], IrqOperation::SetState { irq, state: IrqState::Signal });
    }
}

#[test]
fn set_irq_handler_empties_the_fixed_slot_before_it_inserts() {
    let cap = Capability::Notification { pointer: 0x7000, can_send: true, badge: 1 };
    let operations = invoke_set_irq_handler(5, &cap, SlotId::At(0x300));
    assert_eq!(
        operations,
        vec![
            IrqOperation::DeleteOne { slot: SlotId::IrqHandler { irq: 5 } },
            IrqOperation::Insert {
                cap,
                source: SlotId::At(0x300),
                dest: SlotId::IrqHandler { irq: 5 },
            },
        ]
    );
}

#[test]
fn set_irq_handler_inserts_exactly_the_capability_given() {
    for cap in [
        Capability::Null,
        Capability::Notification { pointer: 8, can_send: false, badge: 0 },
        Capability::IrqHandler { irq: 2 },
    ] {
        let operations = invoke_set_irq_handler(2, &cap, SlotId::IrqHandler { irq: 1 });
        assert_eq!(operations.len(), 2);
        assert_eq!(
            operations[1],
            IrqOperation::Insert {
                cap,
                source: SlotId::IrqHandler { irq: 1 },
                dest: SlotId::IrqHandler { irq: 2 },
            }
        );
    }
}

#[test]
fn clear_irq_handler_empties_the_fixed_slot() {
    assert_eq!(
        invoke_clear_irq_handler(5),
        vec![IrqOperation::DeleteOne { slot: SlotId::IrqHandler { irq: 5 } }]
    );
    assert_eq!(
        invoke_clear_irq_handler(0),
        vec![IrqOperation::DeleteOne { slot: SlotId::IrqHandler { irq: 0 } }]
    );
}
