//! Bus transport.
//!
//! A transaction is framed by the chip-select line: the line goes low, the
//! device is given time to settle, the bytes are exchanged, the line is held
//! a little longer, goes high again, and is left high for a while before the
//! next transaction may start. [`Transaction`] decides these steps one at a
//! time; the platform carries each one out and reports back.

use vstd::prelude::*;

verus! {

/// Settle time after chip-select went low, before the first clock edge.
pub const SETUP_DELAY_US: u32 = 40;

/// Hold time after the last clock edge, before chip-select goes high.
pub const HOLD_DELAY_US: u32 = 40;

/// Idle time after chip-select went high, before it may go low again.
pub const IDLE_DELAY_US: u32 = 20;

/// A SPI device together with the nCS pin that selects it.
pub struct SpiDevice<SPI, NCS> {
    /// Underlying peripheral
    spi: SPI,
    /// nCS
    ncs: NCS,
}

impl<SPI, NCS> SpiDevice<SPI, NCS> {
    /// The peripheral that the device owns.
    pub closed spec fn peripheral(self) -> SPI {
        self.spi
    }

    /// The chip-select pin that the device owns.
    pub closed spec fn select_pin(self) -> NCS {
        self.ncs
    }

    /// Create a new SPI device
    ///
    /// The pin is expected to be high already: no transaction is under way.
    pub fn new(spi: SPI, ncs: NCS) -> (device: Self)
        ensures
            device.peripheral() == spi,
            device.select_pin() == ncs,
    {
        SpiDevice { spi, ncs }
    }

    /// The peripheral, to exchange bytes on.
    pub fn spi(&mut self) -> (spi: &mut SPI)
        ensures
            *spi == old(self).peripheral(),
            final(self).peripheral() == *final(spi),
            final(self).select_pin() == old(self).select_pin(),
        no_unwind
    {
        &mut self.spi
    }

    /// The chip-select pin, to drive low and high.
    pub fn ncs(&mut self) -> (ncs: &mut NCS)
        ensures
            *ncs == old(self).select_pin(),
            final(self).select_pin() == *final(ncs),
            final(self).peripheral() == old(self).peripheral(),
        no_unwind
    {
        &mut self.ncs
    }

    /// Give the peripheral and the pin back.
    pub fn destroy(self) -> (parts: (SPI, NCS))
        ensures
            parts.0 == self.peripheral(),
            parts.1 == self.select_pin(),
    {
        (self.spi, self.ncs)
    }
}

/// One step of a transaction, for the platform to carry out.
#[derive(Debug, Clone, Copy, PartialEq, Eq, Structural)]
pub enum BusAction {
    /// Drive chip-select low.
    Select,
    /// Block for this many microseconds.
    Delay(u32),
    /// Exchange the bytes of the transaction, full duplex.
    Exchange,
    /// Drive chip-select high.
    Release,
    /// The transaction is over and chip-select is high again. `failed` says
    /// whether the exchange reported a transport failure, which only now
    /// goes to the caller.
    Finish { failed: bool },
}

/// What the platform reports of the step it has just carried out.
#[derive(Debug, Clone, Copy, PartialEq, Eq, Structural)]
pub enum BusEvent {
    /// The step was carried out.
    Done,
    /// The exchange reported a transport failure.
    Failed,
}

/// Where a transaction stands: the step that the platform is carrying out.
#[derive(Debug, Clone, Copy, PartialEq, Eq, Structural)]
pub enum Stage {
    Selecting,
    SettlingIn,
    Exchanging,
    Holding,
    Releasing,
    Idling,
    Finished,
}

/// A transaction in progress.
#[derive(Debug, Clone, Copy, PartialEq, Eq, Structural)]
pub struct Transaction {
    /// The step under way.
    pub stage: Stage,
    /// Whether the exchange has failed.
    pub failed: bool,
}

impl Transaction {
    /// The step that the platform is asked to carry out at this stage.
    pub open spec fn action(self) -> BusAction {
        match self.stage {
            Stage::Selecting => BusAction::Select,
            Stage::SettlingIn => BusAction::Delay(SETUP_DELAY_US),
            Stage::Exchanging => BusAction::Exchange,
            Stage::Holding => BusAction::Delay(HOLD_DELAY_US),
            Stage::Releasing => BusAction::Release,
            Stage::Idling => BusAction::Delay(IDLE_DELAY_US),
            Stage::Finished => BusAction::Finish { failed: self.failed },
        }
    }

    /// The transaction after the platform has reported `event` of the step
    /// under way.
    ///
    /// Every stage is followed by the next one whatever was reported, so a
    /// failed exchange still has chip-select released. A failure counts only
    /// where it can arise, in the exchange. A finished transaction stays as
    /// it is.
    pub open spec fn after(self, event: BusEvent) -> Transaction {
        match self.stage {
            Stage::Selecting => Transaction { stage: Stage::SettlingIn, failed: self.failed },
            Stage::SettlingIn => Transaction { stage: Stage::Exchanging, failed: self.failed },
            Stage::Exchanging => Transaction {
                stage: Stage::Holding,
                failed: self.failed || event == BusEvent::Failed,
            },
            Stage::Holding => Transaction { stage: Stage::Releasing, failed: self.failed },
            Stage::Releasing => Transaction { stage: Stage::Idling, failed: self.failed },
            Stage::Idling => Transaction { stage: Stage::Finished, failed: self.failed },
            Stage::Finished => self,
        }
    }

    /// A transaction before its first step.
    pub open spec fn start() -> Transaction {
        Transaction { stage: Stage::Selecting, failed: false }
    }

    /// Starts a transaction. Returns it with its first step, which is to
    /// select the device.
    pub fn begin() -> (started: (Transaction, BusAction))
        ensures
            started.0 == Transaction::start(),
            started.1 == BusAction::Select,
    {
        (Transaction { stage: Stage::Selecting, failed: false }, BusAction::Select)
    }

    /// Takes the report of the step under way and returns the transaction as
    /// it then stands, with the step to carry out next.
    pub fn step(self, event: BusEvent) -> (next: (Transaction, BusAction))
        ensures
            next.0 == self.after(event),
            next.1 == next.0.action(),
    {
        let failed = self.failed;
        match self.stage {
            Stage::Selecting => (
                Transaction { stage: Stage::SettlingIn, failed },
                BusAction::Delay(SETUP_DELAY_US),
            ),
            Stage::SettlingIn => (Transaction { stage: Stage::Exchanging, failed }, BusAction::Exchange),
            Stage::Exchanging => {
                let failed = match event {
                    BusEvent::Failed => true,
                    BusEvent::Done => failed,
                };
                (Transaction { stage: Stage::Holding, failed }, BusAction::Delay(HOLD_DELAY_US))
            },
            Stage::Holding => (Transaction { stage: Stage::Releasing, failed }, BusAction::Release),
            Stage::Releasing => (
                Transaction { stage: Stage::Idling, failed },
                BusAction::Delay(IDLE_DELAY_US),
            ),
            Stage::Idling => (
                Transaction { stage: Stage::Finished, failed },
                BusAction::Finish { failed },
            ),
            Stage::Finished => (self, BusAction::Finish { failed }),
        }
    }
}

/// The steps of a whole transaction, in order, for an exchange that failed or
/// did not.
pub open spec fn transaction_steps(failed: bool) -> Seq<BusAction> {
    seq![
        BusAction::Select,
        BusAction::Delay(SETUP_DELAY_US),
        BusAction::Exchange,
        BusAction::Delay(HOLD_DELAY_US),
        BusAction::Release,
        BusAction::Delay(IDLE_DELAY_US),
        BusAction::Finish { failed },
    ]
}

/// The transaction as it stands after the first `n` reports of `events`.
pub open spec fn after_events(events: Seq<BusEvent>, n: nat) -> Transaction
    decreases n,
{
    if n == 0 {
        Transaction::start()
    } else {
        after_events(events, (n - 1) as nat).after(events[n - 1])
    }
}

/// Every transaction takes the same seven steps in the same order, whatever
/// the platform reports: chip-select is released, and left idle, before the
/// outcome is handed out, and the outcome is a failure exactly when the
/// exchange, the third step, was reported as failed.
pub proof fn lemma_transaction_order(events: Seq<BusEvent>, n: nat)
    requires
        n <= 6,
        n <= events.len(),
    ensures
        after_events(events, n).action() == transaction_steps(
            n > 2 && events[2] == BusEvent::Failed,
        )[n as int],
        n < 6 ==> !(after_events(events, n).action() is Finish),
{
    reveal_with_fuel(after_events, 7);
}

/// Once finished, a transaction asks for nothing more: every further report
/// leaves it finished, with the same outcome.
pub proof fn lemma_finished_stays(transaction: Transaction, event: BusEvent)
    requires
        transaction.stage == Stage::Finished,
    ensures
        transaction.after(event) == transaction,
{
}

} // verus!
