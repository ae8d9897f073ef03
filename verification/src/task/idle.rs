//! The idle protocol, and why it cannot halt the processor on pending work.
//!
//! When the scheduler finds its ready queue empty it wants to halt until
//! the next interrupt. Between the look at the queue and the halt an
//! interrupt may record a wakeup; were it handled in that gap, the
//! processor would halt on a non-empty queue with nothing left to end the
//! halt. The protocol therefore disables interrupts before it looks, and,
//! if it has found nothing, re-enables them and halts in one step that no
//! interrupt can split.
//!
//! This file models the processor far enough to state that. An interrupt
//! raised while interrupts are disabled stays pending and is handled when
//! they are enabled again; handling it records its wakeup on the ready
//! queue and ends a halt.

use super::executor::{idle_action, IdleAction};
use vstd::prelude::*;

verus! {

/// The processor and the ready queue as the idle protocol sees them.
pub struct Machine {
    /// Whether interrupts are enabled.
    pub enabled: bool,
    /// Whether the processor is halted, waiting for an interrupt.
    pub halted: bool,
    /// The wakeups of interrupts that were raised and not yet handled.
    pub pending: Seq<u64>,
    /// The ready queue.
    pub ready: Seq<u64>,
}

impl Machine {
    /// The state after the pending interrupts were handled: their wakeups
    /// are on the ready queue, and a halt has ended if there was one to
    /// handle.
    pub open spec fn deliver(self) -> Machine {
        Machine {
            ready: self.ready + self.pending,
            pending: Seq::empty(),
            halted: self.halted && self.pending.len() == 0,
            ..self
        }
    }

    /// The state after an interrupt was raised whose handler wakes task
    /// `id`: handled at once with interrupts enabled, pending otherwise.
    pub open spec fn raise(self, id: u64) -> Machine {
        let raised = Machine { pending: self.pending.push(id), ..self };
        if self.enabled {
            raised.deliver()
        } else {
            raised
        }
    }

    /// The state after one interrupt for each of `ids` was raised, in
    /// order.
    pub open spec fn raise_all(self, ids: Seq<u64>) -> Machine
        decreases ids.len(),
    {
        if ids.len() == 0 {
            self
        } else {
            self.raise_all(ids.drop_last()).raise(ids.last())
        }
    }

    /// The state after interrupts were disabled.
    pub open spec fn disable(self) -> Machine {
        Machine { enabled: false, ..self }
    }

    /// The state after interrupts were re-enabled.
    pub open spec fn enable(self) -> Machine {
        (Machine { enabled: true, ..self }).deliver()
    }

    /// The state after interrupts were re-enabled and the processor halted
    /// in one step: a pending interrupt is handled only now, and ends the
    /// halt at once.
    pub open spec fn enable_and_halt(self) -> Machine {
        (Machine { enabled: true, halted: true, ..self }).deliver()
    }

    /// The state after the scheduler did what it had decided.
    pub open spec fn perform(self, action: IdleAction) -> Machine {
        match action {
            IdleAction::EnableAndHalt => self.enable_and_halt(),
            IdleAction::Enable => self.enable(),
        }
    }

    /// The state after the whole idle protocol, with interrupts raised at
    /// each of its boundaries: `early` before interrupts are disabled,
    /// `masked` between that and the look at the ready queue, and `late`
    /// between the look and the last step.
    pub open spec fn sleep_if_idle(self, early: Seq<u64>, masked: Seq<u64>, late: Seq<u64>)
        -> Machine {
        let looked = self.raise_all(early).disable().raise_all(masked);
        looked.raise_all(late).perform(idle_action(looked.ready.len()))
    }

    /// Whether the scheduler is running as it is between two protocols:
    /// not halted, interrupts enabled and none pending.
    pub open spec fn running(self) -> bool {
        self.enabled && !self.halted && self.pending.len() == 0
    }

    /// Whether the processor is halted although a wakeup is recorded or an
    /// interrupt is pending.
    pub open spec fn stranded(self) -> bool {
        self.halted && (self.ready.len() > 0 || self.pending.len() > 0)
    }
}

/// With interrupts enabled and none pending, raised interrupts are handled
/// as they come: their wakeups reach the ready queue in order.
pub proof fn lemma_raise_all_enabled(machine: Machine, ids: Seq<u64>)
    requires
        machine.enabled,
        machine.pending.len() == 0,
    ensures
        machine.raise_all(ids) == (Machine {
            ready: machine.ready + ids,
            halted: machine.halted && ids.len() == 0,
            ..machine
        }),
    decreases ids.len(),
{
    if ids.len() > 0 {
        lemma_raise_all_enabled(machine, ids.drop_last());
        let before = machine.raise_all(ids.drop_last());
        assert(before.ready + seq![ids.last()] =~= machine.ready + ids);
        assert(machine.pending =~= Seq::<u64>::empty());
    }
}

/// With interrupts disabled, raised interrupts stay pending, in order, and
/// nothing else changes.
pub proof fn lemma_raise_all_disabled(machine: Machine, ids: Seq<u64>)
    requires
        !machine.enabled,
    ensures
        machine.raise_all(ids) == (Machine { pending: machine.pending + ids, ..machine }),
    decreases ids.len(),
{
    if ids.len() > 0 {
        lemma_raise_all_disabled(machine, ids.drop_last());
        assert((machine.pending + ids.drop_last()).push(ids.last()) =~= machine.pending + ids);
    }
}

/// The idle protocol is free of the race between check and halt. Whatever
/// interrupts are raised at whatever boundary of the protocol, every
/// wakeup is on the ready queue afterwards, in the order raised; the
/// processor is halted only if no wakeup is recorded and none is pending;
/// and it is halted exactly if there was nothing ready and no interrupt
/// came.
pub proof fn lemma_idle_protocol_strands_no_wakeup(
    start: Machine,
    early: Seq<u64>,
    masked: Seq<u64>,
    late: Seq<u64>,
)
    requires
        start.running(),
    ensures
        !start.sleep_if_idle(early, masked, late).stranded(),
        start.sleep_if_idle(early, masked, late).enabled,
        start.sleep_if_idle(early, masked, late).pending.len() == 0,
        start.sleep_if_idle(early, masked, late).ready == start.ready + early + masked + late,
        start.sleep_if_idle(early, masked, late).halted <==> start.ready.len() + early.len()
            + masked.len() + late.len() == 0,
{
    lemma_raise_all_enabled(start, early);
    let disabled = start.raise_all(early).disable();
    lemma_raise_all_disabled(disabled, masked);
    let looked = disabled.raise_all(masked);
    lemma_raise_all_disabled(looked, late);
}

} // verus!
