//! The command protocol layer: how commands and their data are framed on
//! the serial bus and its control pins.

use crate::command::Command;
use crate::error::Error;
use vstd::prelude::*;

verus! {

/// The electrical level of a pin.
#[derive(Clone, Copy, Debug, PartialEq, Eq, Structural)]
pub enum Level {
    Low,
    High,
}

/// One elementary operation on the bus or on a control pin.
#[derive(Clone, Copy, Debug, PartialEq, Eq, Structural)]
pub enum BusOp {
    /// Drive the chip select pin; the controller listens while it is low.
    ChipSelect(Level),
    /// Drive the data/command pin: low announces an opcode, high data.
    DataCommand(Level),
    /// Drive the reset pin; the controller is held in reset while it is low.
    Reset(Level),
    /// Shift one byte out on the serial bus.
    Write(u8),
    /// Let the given number of microseconds pass.
    DelayUs(u32),
    /// Block for as long as the busy pin is at the given level.
    WaitWhileBusy(Level),
}

/// One bus write per byte, in order.
pub open spec fn writes(bytes: Seq<u8>) -> Seq<BusOp> {
    Seq::new(bytes.len(), |i: int| BusOp::Write(bytes[i]))
}

/// `count` copies of `byte`.
pub open spec fn repeated(byte: u8, count: nat) -> Seq<u8> {
    Seq::new(count, |i: int| byte)
}

/// The frame of an opcode: select the chip, announce a command, write the
/// opcode, release the chip.
pub open spec fn command_frame(opcode: u8) -> Seq<BusOp> {
    seq![
        BusOp::ChipSelect(Level::Low),
        BusOp::DataCommand(Level::Low),
        BusOp::Write(opcode),
        BusOp::ChipSelect(Level::High),
    ]
}

/// The frame of a payload: select the chip, announce data, write the bytes
/// in order, release the chip.
pub open spec fn data_frame(payload: Seq<u8>) -> Seq<BusOp> {
    seq![BusOp::ChipSelect(Level::Low), BusOp::DataCommand(Level::High)] + writes(payload)
        + seq![BusOp::ChipSelect(Level::High)]
}

/// An opcode followed by its arguments.
pub open spec fn command_with_data(opcode: u8, payload: Seq<u8>) -> Seq<BusOp> {
    command_frame(opcode) + data_frame(payload)
}

/// The reset pulse: reset low for `low_us`, then high for `high_us`.
pub open spec fn reset_pulse(low_us: u32, high_us: u32) -> Seq<BusOp> {
    seq![
        BusOp::Reset(Level::Low),
        BusOp::DelayUs(low_us),
        BusOp::Reset(Level::High),
        BusOp::DelayUs(high_us),
    ]
}

/// The bus operations of a driver, in the order in which they are to be
/// carried out. Its view is that sequence.
pub struct DisplayInterface {
    ops: Vec<BusOp>,
}

impl View for DisplayInterface {
    type V = Seq<BusOp>;

    closed spec fn view(&self) -> Seq<BusOp> {
        self.ops@
    }
}

impl DisplayInterface {
    /// An interface on which nothing has happened yet.
    pub fn new() -> (r: DisplayInterface)
        ensures
            r@ == Seq::<BusOp>::empty(),
    {
        DisplayInterface { ops: Vec::new() }
    }

    /// The operations recorded so far.
    pub fn ops(&self) -> (r: &Vec<BusOp>)
        ensures
            r@ == self@,
    {
        &self.ops
    }

    /// Hands the recorded operations out.
    pub fn into_ops(self) -> (r: Vec<BusOp>)
        ensures
            r@ == self@,
    {
        self.ops
    }

    /// Sends a command without arguments.
    pub fn cmd(&mut self, command: Command)
        ensures
            final(self)@ == old(self)@ + command_frame(command.opcode()),
    {
        self.ops.push(BusOp::ChipSelect(Level::Low));
        self.ops.push(BusOp::DataCommand(Level::Low));
        self.ops.push(BusOp::Write(command.address()));
        self.ops.push(BusOp::ChipSelect(Level::High));
        assert(self.ops@ =~= old(self).ops@ + command_frame(command.opcode()));
    }

    /// Sends data that belongs to the command sent last.
    pub fn data(&mut self, data: &[u8])
        ensures
            final(self)@ == old(self)@ + data_frame(data@),
    {
        self.ops.push(BusOp::ChipSelect(Level::Low));
        self.ops.push(BusOp::DataCommand(Level::High));
        let ghost head: Seq<BusOp> = self.ops@;
        let n: usize = data.len();
        let mut i: usize = 0;
        while i < n
            invariant
                n == data@.len(),
                i <= n,
                self.ops@ == head + writes(data@.take(i as int)),
            decreases n - i,
        {
            self.ops.push(BusOp::Write(data[i]));
            i += 1;
            assert(self.ops@ =~= head + writes(data@.take(i as int)));
        }
        assert(data@.take(n as int) =~= data@);
        self.ops.push(BusOp::ChipSelect(Level::High));
        assert(self.ops@ =~= old(self).ops@ + data_frame(data@));
    }

    /// Sends a command and its arguments.
    pub fn cmd_with_data(&mut self, command: Command, data: &[u8])
        ensures
            final(self)@ == old(self)@ + command_with_data(command.opcode(), data@),
    {
        self.cmd(command);
        self.data(data);
        assert(self@ =~= old(self)@ + command_with_data(command.opcode(), data@));
    }

    /// Sends the same data byte `repetitions` times.
    pub fn data_x_times(&mut self, val: u8, repetitions: u32)
        ensures
            final(self)@ == old(self)@ + data_frame(repeated(val, repetitions as nat)),
    {
        self.ops.push(BusOp::ChipSelect(Level::Low));
        self.ops.push(BusOp::DataCommand(Level::High));
        let ghost head: Seq<BusOp> = self.ops@;
        let mut i: u32 = 0;
        while i < repetitions
            invariant
                i <= repetitions,
                self.ops@ == head + writes(repeated(val, i as nat)),
            decreases repetitions - i,
        {
            self.ops.push(BusOp::Write(val));
            i += 1;
            assert(self.ops@ =~= head + writes(repeated(val, i as nat)));
        }
        self.ops.push(BusOp::ChipSelect(Level::High));
        assert(self.ops@ =~= old(self).ops@ + data_frame(repeated(val, repetitions as nat)));
    }

    /// Resets the controller by a pulse on its reset pin: low for
    /// `low_us` microseconds, then high for `high_us`.
    pub fn reset(&mut self, low_us: u32, high_us: u32)
        ensures
            final(self)@ == old(self)@ + reset_pulse(low_us, high_us),
    {
        self.ops.push(BusOp::Reset(Level::Low));
        self.ops.push(BusOp::DelayUs(low_us));
        self.ops.push(BusOp::Reset(Level::High));
        self.ops.push(BusOp::DelayUs(high_us));
        assert(self.ops@ =~= old(self).ops@ + reset_pulse(low_us, high_us));
    }

    /// Waits until the controller has finished what it is doing. `busy`
    /// is the level at which the busy pin signals activity.
    pub fn wait_until_idle(&mut self, busy: Level)
        ensures
            final(self)@ == old(self)@.push(BusOp::WaitWhileBusy(busy)),
    {
        self.ops.push(BusOp::WaitWhileBusy(busy));
    }
}

/// What to do after one look at the busy pin.
#[derive(Clone, Copy, Debug, PartialEq, Eq, Structural)]
pub enum Poll {
    /// The controller is idle: the wait is over.
    Idle,
    /// The controller is busy: let this many microseconds pass, then look
    /// again.
    Delay(u32),
}

/// A wait for the busy pin with a deadline: the pin is polled at a fixed
/// interval until it reports idle or the time allowed is used up.
pub struct BusyWait {
    busy: Level,
    interval_us: u32,
    remaining_us: u32,
}

impl BusyWait {
    /// The level at which the pin signals activity.
    pub closed spec fn busy_level(self) -> Level {
        self.busy
    }

    /// The pause between two looks at the pin.
    pub closed spec fn interval(self) -> u32 {
        self.interval_us
    }

    /// The time that may still be spent pausing.
    pub closed spec fn remaining(self) -> u32 {
        self.remaining_us
    }

    /// The pause that follows a look at a busy pin: the interval, cut to
    /// the time that remains; an interval of zero spends all that remains
    /// at once.
    pub open spec fn next_delay(self) -> u32 {
        if self.interval() == 0 || self.interval() > self.remaining() {
            self.remaining()
        } else {
            self.interval()
        }
    }

    /// A wait that gives the controller `max_wait_us` microseconds to
    /// become idle and looks at the pin every `interval_us`.
    pub fn new(busy: Level, max_wait_us: u32, interval_us: u32) -> (r: BusyWait)
        ensures
            r.busy_level() == busy,
            r.interval() == interval_us,
            r.remaining() == max_wait_us,
    {
        BusyWait { busy, interval_us, remaining_us: max_wait_us }
    }

    /// Microseconds that may still be spent pausing.
    pub fn remaining_us(&self) -> (r: u32)
        ensures
            r == self.remaining(),
    {
        self.remaining_us
    }

    /// What a look at the pin leads to: the wait is over when the pin is
    /// not at the busy level; a busy pin costs one pause while time
    /// remains, and is a timeout once none does.
    pub open spec fn outcome(self, reading: Level) -> Result<Poll, Error> {
        if reading != self.busy_level() {
            Ok(Poll::Idle)
        } else if self.remaining() == 0 {
            Err(Error::PanelTimeout)
        } else {
            Ok(Poll::Delay(self.next_delay()))
        }
    }

    /// The time that remains after a look at the pin: a pause is taken out
    /// of it.
    pub open spec fn remaining_after(self, reading: Level) -> int {
        if reading == self.busy_level() {
            self.remaining() - self.next_delay()
        } else {
            self.remaining() as int
        }
    }

    /// Decides on how to go on after reading `reading` from the busy pin.
    pub fn poll(&mut self, reading: Level) -> (r: Result<Poll, Error>)
        ensures
            r == old(self).outcome(reading),
            final(self).remaining() == old(self).remaining_after(reading),
            final(self).busy_level() == old(self).busy_level(),
            final(self).interval() == old(self).interval(),
    {
        if reading != self.busy {
            Ok(Poll::Idle)
        } else if self.remaining_us == 0 {
            Err(Error::PanelTimeout)
        } else {
            let pause: u32 = if self.interval_us == 0 || self.interval_us > self.remaining_us {
                self.remaining_us
            } else {
                self.interval_us
            };
            self.remaining_us = self.remaining_us - pause;
            Ok(Poll::Delay(pause))
        }
    }

    /// A wait comes to an end: every pause is longer than zero and is
    /// taken out of the time that remains, so a pin that stays busy runs
    /// into the timeout.
    pub proof fn pause_uses_up_time(self, reading: Level)
        requires
            reading == self.busy_level(),
            self.remaining() > 0,
        ensures
            0 < self.next_delay() <= self.remaining(),
            self.outcome(reading) == Ok::<Poll, Error>(Poll::Delay(self.next_delay())),
            0 <= self.remaining_after(reading) < self.remaining(),
    {
    }
}

} // verus!
