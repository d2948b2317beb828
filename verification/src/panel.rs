//! A model of the controller's RAM, and what the driver's bus operations
//! do to it.
//!
//! The model covers what decides where a byte written to RAM ends up: the
//! chip select and data/command pins, the command that data belongs to,
//! the RAM window, and the address counters, which run along a row and
//! wrap to the next one at the end of the window.

use crate::command::Command;
use crate::epd::{plane_size, RefreshLut, HEIGHT, WIDTH};
use crate::model::{low_byte, ram_area, EpdModel};
use crate::interface::{
    command_frame, command_with_data, data_frame, writes, BusOp, Level,
};
use vstd::prelude::*;

verus! {

/// One bank of RAM: the byte at each address `(x, y)`, `x` counting bytes
/// along a row and `y` rows.
pub type Bank = Map<(int, int), u8>;

/// Number of bytes in a row of the panel.
#[verifier::inline]
pub open spec fn row_bytes() -> int {
    16
}

/// Whether the address `at` is among the first `count` addresses of the
/// panel, counted row by row from the origin.
pub open spec fn covered(at: (int, int), count: int) -> bool {
    0 <= at.0 < row_bytes() && 0 <= at.1 && at.1 * row_bytes() + at.0 < count
}

/// Whether the address `at` lies on the panel.
pub open spec fn on_panel(at: (int, int)) -> bool {
    0 <= at.0 < row_bytes() && 0 <= at.1 < HEIGHT
}

/// A bank after `bytes` have been stored in it row by row from the origin
/// of the panel; what lies behind them is as it was.
pub open spec fn stored(bank: Bank, bytes: Seq<u8>) -> Bank {
    Map::new(
        |at: (int, int)| bank.dom().contains(at) || covered(at, bytes.len() as int),
        |at: (int, int)|
            if covered(at, bytes.len() as int) {
                bytes[at.1 * row_bytes() + at.0]
            } else {
                bank[at]
            },
    )
}

/// Whether `command` is one of the two that write to a bank of RAM.
pub open spec fn writes_ram(command: Command) -> bool {
    command == Command::WriteRam || command == Command::WriteRamRed
}

/// The controller as far as writes to RAM depend on it.
pub struct Panel {
    /// The chip select pin is low: the controller listens.
    pub selected: bool,
    /// The data/command pin is high: bytes are data.
    pub data: bool,
    /// The command sent last.
    pub opcode: u8,
    /// How many data bytes have followed that command.
    pub received: nat,
    pub x_start: int,
    pub x_end: int,
    pub y_start: int,
    pub y_end: int,
    /// The X address counter.
    pub x: int,
    /// The Y address counter.
    pub y: int,
    /// The achromatic bank.
    pub black: Bank,
    /// The chromatic bank.
    pub red: Bank,
}

impl Panel {
    /// The address counters after a byte has been written: one step along
    /// the row, from the end of a row to the start of the next, and from
    /// the end of the window to its origin.
    pub open spec fn advance(self) -> Panel {
        if self.x != self.x_end {
            Panel { x: self.x + 1, ..self }
        } else if self.y != self.y_end {
            Panel { x: self.x_start, y: self.y + 1, ..self }
        } else {
            Panel { x: self.x_start, y: self.y_start, ..self }
        }
    }

    /// What a data byte does, given the command it belongs to and its
    /// position among that command's data.
    pub open spec fn receive(self, byte: u8) -> Panel {
        let n = self.received;
        let next = Panel { received: n + 1, ..self };
        if self.opcode == Command::SetRamXAddressStartEndPosition.opcode() {
            if n == 0 {
                Panel { x_start: byte as int, ..next }
            } else if n == 1 {
                Panel { x_end: byte as int, ..next }
            } else {
                next
            }
        } else if self.opcode == Command::SetRamYAddressStartEndPosition.opcode() {
            if n == 0 {
                Panel { y_start: byte as int, ..next }
            } else if n == 1 {
                Panel { y_start: self.y_start + 256 * byte, ..next }
            } else if n == 2 {
                Panel { y_end: byte as int, ..next }
            } else if n == 3 {
                Panel { y_end: self.y_end + 256 * byte, ..next }
            } else {
                next
            }
        } else if self.opcode == Command::SetRamXAddressCounter.opcode() {
            if n == 0 {
                Panel { x: byte as int, ..next }
            } else {
                next
            }
        } else if self.opcode == Command::SetRamYAddressCounter.opcode() {
            if n == 0 {
                Panel { y: byte as int, ..next }
            } else if n == 1 {
                Panel { y: self.y + 256 * byte, ..next }
            } else {
                next
            }
        } else if self.opcode == Command::WriteRam.opcode() {
            Panel { black: self.black.insert((self.x, self.y), byte), ..next }.advance()
        } else if self.opcode == Command::WriteRamRed.opcode() {
            Panel { red: self.red.insert((self.x, self.y), byte), ..next }.advance()
        } else {
            next
        }
    }

    /// What one bus operation does. A byte reaches the controller only
    /// while it is selected; the data/command pin tells an opcode from
    /// data. Pauses and the reset pin leave RAM and window alone.
    pub open spec fn step(self, op: BusOp) -> Panel {
        match op {
            BusOp::ChipSelect(level) => Panel { selected: level == Level::Low, ..self },
            BusOp::DataCommand(level) => Panel { data: level == Level::High, ..self },
            BusOp::Write(byte) => if !self.selected {
                self
            } else if !self.data {
                Panel { opcode: byte, received: 0, ..self }
            } else {
                self.receive(byte)
            },
            _ => self,
        }
    }

    /// What a sequence of bus operations does, carried out in order.
    pub open spec fn run(self, ops: Seq<BusOp>) -> Panel
        decreases ops.len(),
    {
        if ops.len() == 0 {
            self
        } else {
            self.run(ops.drop_last()).step(ops.last())
        }
    }

    /// What a sequence of data bytes does, received in order.
    pub open spec fn receive_all(self, bytes: Seq<u8>) -> Panel
        decreases bytes.len(),
    {
        if bytes.len() == 0 {
            self
        } else {
            self.receive_all(bytes.drop_last()).receive(bytes.last())
        }
    }

    /// Running one more operation is one more step.
    pub proof fn run_push(self, ops: Seq<BusOp>, op: BusOp)
        ensures
            self.run(ops.push(op)) == self.run(ops).step(op),
    {
        assert(ops.push(op).drop_last() =~= ops);
    }

    /// Running two sequences one after the other is running their
    /// concatenation.
    pub proof fn run_concat(self, first: Seq<BusOp>, second: Seq<BusOp>)
        ensures
            self.run(first + second) == self.run(first).run(second),
        decreases second.len(),
    {
        if second.len() == 0 {
            assert(first + second =~= first);
        } else {
            self.run_concat(first, second.drop_last());
            assert((first + second).drop_last() =~= first + second.drop_last());
        }
    }

    /// Data neither selects nor releases the chip and leaves the
    /// data/command pin alone.
    proof fn receive_all_keeps_pins(self, bytes: Seq<u8>)
        ensures
            self.receive_all(bytes).selected == self.selected,
            self.receive_all(bytes).data == self.data,
        decreases bytes.len(),
    {
        if bytes.len() != 0 {
            self.receive_all_keeps_pins(bytes.drop_last());
        }
    }

    /// While the chip is selected and the data/command pin is high, the
    /// bytes written are received as data.
    proof fn run_writes(self, bytes: Seq<u8>)
        requires
            self.selected,
            self.data,
        ensures
            self.run(writes(bytes)) == self.receive_all(bytes),
        decreases bytes.len(),
    {
        if bytes.len() != 0 {
            let head = bytes.drop_last();
            self.run_writes(head);
            self.receive_all_keeps_pins(head);
            assert(writes(bytes).drop_last() =~= writes(head));
            assert(writes(bytes).last() == BusOp::Write(bytes.last()));
        }
    }

    /// An opcode frame makes its opcode the command that data belongs to.
    pub proof fn run_command_frame(self, opcode: u8)
        ensures
            self.run(command_frame(opcode)) == (Panel {
                selected: false,
                data: false,
                opcode,
                received: 0,
                ..self
            }),
    {
        let a = BusOp::ChipSelect(Level::Low);
        let b = BusOp::DataCommand(Level::Low);
        let c = BusOp::Write(opcode);
        let d = BusOp::ChipSelect(Level::High);
        let empty = Seq::<BusOp>::empty();
        assert(command_frame(opcode) =~= empty.push(a).push(b).push(c).push(d));
        self.run_push(empty, a);
        self.run_push(empty.push(a), b);
        self.run_push(empty.push(a).push(b), c);
        self.run_push(empty.push(a).push(b).push(c), d);
    }

    /// A data frame hands its payload to the command sent last.
    pub proof fn run_data_frame(self, payload: Seq<u8>)
        ensures
            self.run(data_frame(payload)) == (Panel {
                selected: false,
                ..(Panel { selected: true, data: true, ..self }).receive_all(payload)
            }),
    {
        let a = BusOp::ChipSelect(Level::Low);
        let b = BusOp::DataCommand(Level::High);
        let d = BusOp::ChipSelect(Level::High);
        let empty = Seq::<BusOp>::empty();
        let head = empty.push(a).push(b);
        let listening = Panel { selected: true, data: true, ..self };
        assert(data_frame(payload) =~= (head + writes(payload)).push(d));
        self.run_push(empty, a);
        self.run_push(empty.push(a), b);
        assert(self.run(head) == listening);
        self.run_concat(head, writes(payload));
        listening.run_writes(payload);
        listening.receive_all_keeps_pins(payload);
        self.run_push(head + writes(payload), d);
    }

    /// A command with its arguments: the arguments are received by that
    /// command, counted from zero.
    pub proof fn run_command_with_data(self, opcode: u8, payload: Seq<u8>)
        ensures
            self.run(command_with_data(opcode, payload)) == (Panel {
                selected: false,
                ..(Panel { selected: true, data: true, opcode, received: 0, ..self }).receive_all(
                    payload,
                )
            }),
    {
        self.run_concat(command_frame(opcode), data_frame(payload));
        self.run_command_frame(opcode);
        self.run(command_frame(opcode)).run_data_frame(payload);
    }

    /// Receiving one more byte.
    proof fn receive_push(self, bytes: Seq<u8>, byte: u8)
        ensures
            self.receive_all(bytes.push(byte)) == self.receive_all(bytes).receive(byte),
    {
        assert(bytes.push(byte).drop_last() =~= bytes);
    }

    /// One byte received.
    proof fn receive_one(self, a: u8)
        ensures
            self.receive_all(seq![a]) == self.receive(a),
    {
        let empty = Seq::<u8>::empty();
        assert(seq![a] =~= empty.push(a));
        self.receive_push(empty, a);
    }

    /// Two bytes received.
    proof fn receive_two(self, a: u8, b: u8)
        ensures
            self.receive_all(seq![a, b]) == self.receive(a).receive(b),
    {
        assert(seq![a, b] =~= seq![a].push(b));
        self.receive_push(seq![a], b);
        self.receive_one(a);
    }

    /// Four bytes received.
    proof fn receive_four(self, a: u8, b: u8, c: u8, d: u8)
        ensures
            self.receive_all(seq![a, b, c, d]) == self.receive(a).receive(b).receive(c).receive(d),
    {
        assert(seq![a, b, c, d] =~= seq![a, b].push(c).push(d));
        self.receive_push(seq![a, b].push(c), d);
        self.receive_push(seq![a, b], c);
        self.receive_two(a, b);
    }

    /// Whether the window spans the panel and the address counters stand
    /// at its origin.
    pub open spec fn at_origin_of_panel(self) -> bool {
        &&& self.x_start == 0
        &&& self.x_end == row_bytes() - 1
        &&& self.y_start == 0
        &&& self.y_end == HEIGHT - 1
        &&& self.x == 0
        &&& self.y == 0
    }

    /// The commands that precede a write to the whole panel leave the
    /// window spanning the panel and the address counters at its origin,
    /// whatever went before.
    pub proof fn run_full_window(self, epd: EpdModel)
        ensures
            self.run(epd.full_window()) == (Panel {
                selected: false,
                data: true,
                opcode: Command::SetRamYAddressCounter.opcode(),
                received: 2,
                x_start: 0,
                x_end: row_bytes() - 1,
                y_start: 0,
                y_end: HEIGHT - 1,
                x: 0,
                y: 0,
                ..self
            }),
            self.run(epd.full_window()).at_origin_of_panel(),
    {
        let last_x: u32 = (WIDTH - 1) as u32;
        let last_y: u32 = (HEIGHT - 1) as u32;
        assert(low_byte(0u32 >> 3) == 0 && low_byte(0u32) == 0 && low_byte(0u32 >> 8) == 0)
            by (bit_vector);
        assert(low_byte(last_x >> 3) == 15 && low_byte(last_y) == 249 && low_byte(last_y >> 8)
            == 0) by (bit_vector)
            requires
                last_x == 121,
                last_y == 249,
        ;
        let x_range = command_with_data(
            Command::SetRamXAddressStartEndPosition.opcode(),
            seq![0u8, 15u8],
        );
        let y_range = command_with_data(
            Command::SetRamYAddressStartEndPosition.opcode(),
            seq![0u8, 0u8, 249u8, 0u8],
        );
        let x_counter = command_with_data(Command::SetRamXAddressCounter.opcode(), seq![0u8]);
        let y_counter = command_with_data(
            Command::SetRamYAddressCounter.opcode(),
            seq![0u8, 0u8],
        );
        assert(ram_area(0, 0, last_x, last_y) == x_range + y_range);
        assert(epd.ram_counters(0, 0) == epd.wait() + x_counter + y_counter);

        let p1 = self.run(x_range);
        self.run_command_with_data(
            Command::SetRamXAddressStartEndPosition.opcode(),
            seq![0u8, 15u8],
        );
        (Panel {
            selected: true,
            data: true,
            opcode: Command::SetRamXAddressStartEndPosition.opcode(),
            received: 0,
            ..self
        }).receive_two(0, 15);

        let p2 = p1.run(y_range);
        p1.run_command_with_data(
            Command::SetRamYAddressStartEndPosition.opcode(),
            seq![0u8, 0u8, 249u8, 0u8],
        );
        (Panel {
            selected: true,
            data: true,
            opcode: Command::SetRamYAddressStartEndPosition.opcode(),
            received: 0,
            ..p1
        }).receive_four(0, 0, 249, 0);
        self.run_concat(x_range, y_range);

        let p3 = p2.run(epd.wait());
        p2.run_push(Seq::<BusOp>::empty(), BusOp::WaitWhileBusy(epd.profile.busy_level));
        assert(epd.wait() =~= Seq::<BusOp>::empty().push(
            BusOp::WaitWhileBusy(epd.profile.busy_level),
        ));
        assert(p3 == p2);

        let p4 = p3.run(x_counter);
        p3.run_command_with_data(Command::SetRamXAddressCounter.opcode(), seq![0u8]);
        (Panel {
            selected: true,
            data: true,
            opcode: Command::SetRamXAddressCounter.opcode(),
            received: 0,
            ..p3
        }).receive_one(0);

        let p5 = p4.run(y_counter);
        p4.run_command_with_data(Command::SetRamYAddressCounter.opcode(), seq![0u8, 0u8]);
        (Panel {
            selected: true,
            data: true,
            opcode: Command::SetRamYAddressCounter.opcode(),
            received: 0,
            ..p4
        }).receive_two(0, 0);

        p2.run_concat(epd.wait(), x_counter);
        p2.run_concat(epd.wait() + x_counter, y_counter);
        self.run_concat(x_range + y_range, epd.wait() + x_counter + y_counter);
    }

    /// The bank that `command` writes to: the achromatic one for
    /// `WriteRam`, the chromatic one otherwise.
    pub open spec fn bank(self, command: Command) -> Bank {
        if command == Command::WriteRam {
            self.black
        } else {
            self.red
        }
    }

    /// This controller with `content` in the bank that `command` writes
    /// to.
    pub open spec fn with_bank(self, command: Command, content: Bank) -> Panel {
        if command == Command::WriteRam {
            Panel { black: content, ..self }
        } else {
            Panel { red: content, ..self }
        }
    }

    /// A plane written to a bank from the origin of the panel is stored
    /// row by row, and the address counters run with it; after a whole
    /// plane they are back at the origin. The other bank stays as it is.
    pub proof fn receive_plane(self, command: Command, bytes: Seq<u8>)
        requires
            writes_ram(command),
            self.opcode == command.opcode(),
            self.at_origin_of_panel(),
            bytes.len() <= 4000,
        ensures
            self.receive_all(bytes) == (Panel {
                received: self.received + bytes.len(),
                x: (bytes.len() % 4000) as int % row_bytes(),
                y: (bytes.len() % 4000) as int / row_bytes(),
                ..self
            }).with_bank(command, stored(self.bank(command), bytes)),
        decreases bytes.len(),
    {
        let bank = self.bank(command);
        if bytes.len() == 0 {
            assert(stored(bank, bytes) =~= bank);
        } else {
            let head = bytes.drop_last();
            let k = head.len() as int;
            self.receive_plane(command, head);
            let before = self.receive_all(head);
            assert(before.x == k % 16 && before.y == k / 16);
            assert(stored(bank, head).insert((before.x, before.y), bytes.last()) =~= stored(
                bank,
                bytes,
            ));
        }
    }

    /// A plane written to a bank behind the window commands is stored in
    /// that bank, whatever window and counters were in force before; the
    /// other bank stays as it is.
    pub proof fn run_write(self, epd: EpdModel, command: Command, plane: Seq<u8>)
        requires
            writes_ram(command),
            plane.len() == 4000,
        ensures
            self.run(epd.full_window() + command_with_data(command.opcode(), plane)).black
                == self.with_bank(command, stored(self.bank(command), plane)).black,
            self.run(epd.full_window() + command_with_data(command.opcode(), plane)).red
                == self.with_bank(command, stored(self.bank(command), plane)).red,
    {
        let write = command_with_data(command.opcode(), plane);
        self.run_concat(epd.full_window(), write);
        self.run_full_window(epd);
        let ready = self.run(epd.full_window());
        ready.run_command_with_data(command.opcode(), plane);
        (Panel {
            selected: true,
            data: true,
            opcode: command.opcode(),
            received: 0,
            ..ready
        }).receive_plane(command, plane);
    }
}

/// A whole plane stored in a bank covers the panel, byte for byte, and
/// nothing else: every address on the panel holds the byte of the plane
/// that belongs there, every other address what it held before. Storing a
/// plane over a plane leaves only the second.
pub proof fn stored_plane_covers_panel(bank: Bank, plane: Seq<u8>)
    requires
        plane.len() == 4000,
    ensures
        forall|at: (int, int)|
            on_panel(at) ==> #[trigger] stored(bank, plane).dom().contains(at) && stored(
                bank,
                plane,
            )[at] == plane[at.1 * row_bytes() + at.0],
        forall|at: (int, int)|
            !on_panel(at) ==> (#[trigger] stored(bank, plane).dom().contains(at)
                <==> bank.dom().contains(at)) && (bank.dom().contains(at) ==> stored(
                bank,
                plane,
            )[at] == bank[at]),
        forall|other: Seq<u8>|
            other.len() == 4000 ==> #[trigger] stored(stored(bank, other), plane) == stored(
                bank,
                plane,
            ),
{
    assert forall|other: Seq<u8>| other.len() == 4000 implies #[trigger] stored(
        stored(bank, other),
        plane,
    ) == stored(bank, plane) by {
        assert(stored(stored(bank, other), plane) =~= stored(bank, plane));
    }
}

/// What `update_frame` leaves in RAM: the frame in the achromatic bank,
/// row by row; in the chromatic bank the background colour while the table
/// of a full refresh is in force, and what was there otherwise. This holds
/// whatever state the controller's window and counters were in before.
pub proof fn update_frame_stores_frame(panel: Panel, epd: EpdModel, buffer: Seq<u8>)
    requires
        buffer.len() == plane_size(WIDTH as nat, HEIGHT as nat),
    ensures
        panel.run(epd.update_frame_ops(buffer)).black == stored(panel.black, buffer),
        panel.run(epd.update_frame_ops(buffer)).red == (if epd.refresh == RefreshLut::Full {
            stored(panel.red, epd.background_plane())
        } else {
            panel.red
        }),
{
    let write = epd.full_window() + command_with_data(Command::WriteRam.opcode(), buffer);
    panel.run_write(epd, Command::WriteRam, buffer);
    if epd.refresh == RefreshLut::Full {
        let fill = epd.full_window() + command_with_data(
            Command::WriteRamRed.opcode(),
            epd.background_plane(),
        );
        assert(epd.background_fill(Command::WriteRamRed) =~= fill);
        assert(epd.update_frame_ops(buffer) =~= write + fill);
        panel.run_concat(write, fill);
        panel.run(write).run_write(epd, Command::WriteRamRed, epd.background_plane());
    } else {
        assert(epd.update_frame_ops(buffer) =~= write);
    }
}

/// What `clear_frame` leaves in RAM: the background colour all over both
/// banks, whatever they held and whatever waveform table is in force.
pub proof fn clear_frame_fills_ram(panel: Panel, epd: EpdModel)
    ensures
        panel.run(epd.clear_frame_ops()).black == stored(panel.black, epd.background_plane()),
        panel.run(epd.clear_frame_ops()).red == stored(panel.red, epd.background_plane()),
        forall|at: (int, int)|
            on_panel(at) ==> #[trigger] panel.run(epd.clear_frame_ops()).black[at]
                == epd.background.byte_value(),
        forall|at: (int, int)|
            on_panel(at) ==> #[trigger] panel.run(epd.clear_frame_ops()).red[at]
                == epd.background.byte_value(),
{
    let plane = epd.background_plane();
    let black_fill = epd.full_window() + command_with_data(Command::WriteRam.opcode(), plane);
    let red_fill = epd.full_window() + command_with_data(Command::WriteRamRed.opcode(), plane);
    assert(epd.background_fill(Command::WriteRam) =~= black_fill);
    assert(epd.background_fill(Command::WriteRamRed) =~= red_fill);
    panel.run_concat(black_fill, red_fill);
    panel.run_write(epd, Command::WriteRam, plane);
    panel.run(black_fill).run_write(epd, Command::WriteRamRed, plane);
    stored_plane_covers_panel(panel.black, plane);
    stored_plane_covers_panel(panel.red, plane);
}

/// Clearing the frame twice leaves in both banks of RAM what clearing it
/// once leaves there, the background colour all over the panel, and leaves
/// the driver as it was.
pub proof fn clear_frame_twice_is_once(panel: Panel, epd: EpdModel)
    ensures
        ({
            let once = epd.clear_frame();
            let twice = epd.clear_frame().and_then(|after: EpdModel| after.clear_frame());
            &&& twice.result == once.result
            &&& twice.state == epd
            &&& panel.run(twice.ops).black == panel.run(once.ops).black
            &&& panel.run(twice.ops).red == panel.run(once.ops).red
            &&& once.result is Ok ==> forall|at: (int, int)|
                on_panel(at) ==> #[trigger] panel.run(twice.ops).black[at]
                    == epd.background.byte_value() && panel.run(twice.ops).red[at]
                    == epd.background.byte_value()
        }),
{
    let once = epd.clear_frame();
    if once.result is Ok {
        let ops = epd.clear_frame_ops();
        let plane = epd.background_plane();
        panel.run_concat(ops, ops);
        clear_frame_fills_ram(panel, epd);
        clear_frame_fills_ram(panel.run(ops), epd);
        stored_plane_covers_panel(panel.black, plane);
        stored_plane_covers_panel(panel.red, plane);
    }
}

} // verus!
