//! Driver logic for an HD44780-family character display wired to six GPIO
//! lines (register-select, enable, four data lines) in 4-bit mode.
//!
//! The driver does not touch hardware itself: each operation appends the
//! exact sequence of line writes and settle waits to an internal buffer of
//! [`BusOp`]s, which the caller drains with [`Lcd::take_ops`] and plays
//! against the physical pins in order. The contracts describe the buffer
//! both at the wire level (the exact `BusOp` sequence) and at the protocol
//! level: the sequence of 4-bit [`Transfer`]s the controller latches on
//! each rising edge of the enable line.

use vstd::prelude::*;

verus! {

/// Clear display and home the cursor.
pub const CLEAR_DISPLAY: u8 = 0x01;

/// Entry mode: auto-increment cursor, no display shift.
pub const ENTRY_MODE_SET: u8 = 0x06;

/// Display on, cursor off, blink off.
pub const DISPLAY_ON: u8 = 0x0C;

/// Function set: 4-bit interface, 2 lines, 5x8 font.
pub const FUNCTION_SET: u8 = 0x28;

/// Shift the display content right.
pub const SHIFT_RIGHT: u8 = 0x14;

/// DDRAM address of the first character of line 1.
pub const LINE_1: u8 = 0x80;

/// DDRAM address of the first character of line 2.
pub const LINE_2: u8 = 0xC0;

/// One of the six GPIO lines the controller is wired to.
#[derive(Clone, Copy, Debug, PartialEq, Eq, Structural)]
pub enum Signal {
    Rs,
    Enable,
    Db4,
    Db5,
    Db6,
    Db7,
}

/// One wire-level operation: drive a line to a level, or hold all lines
/// for at least the given number of microseconds.
#[derive(Clone, Copy, Debug, PartialEq, Eq, Structural)]
pub enum BusOp {
    Drive { line: Signal, high: bool },
    Wait { micros: u64 },
}

/// One 4-bit transfer as the controller sees it: the nibble on the data
/// lines at a rising enable edge, and whether register-select marked it as
/// character data (`true`) or as an instruction (`false`).
#[derive(Clone, Copy, Debug, PartialEq, Eq, Structural)]
pub struct Transfer {
    pub nibble: u8,
    pub is_data: bool,
}

/// The level of every line at one moment.
pub struct BusState {
    pub rs: bool,
    pub enable: bool,
    pub db4: bool,
    pub db5: bool,
    pub db6: bool,
    pub db7: bool,
}

/// All lines low: the state the driver assumes at power-up.
pub open spec fn power_on() -> BusState {
    BusState { rs: false, enable: false, db4: false, db5: false, db6: false, db7: false }
}

/// The line levels after one operation.
pub open spec fn apply_op(s: BusState, op: BusOp) -> BusState {
    match op {
        BusOp::Drive { line, high } => match line {
            Signal::Rs => BusState { rs: high, ..s },
            Signal::Enable => BusState { enable: high, ..s },
            Signal::Db4 => BusState { db4: high, ..s },
            Signal::Db5 => BusState { db5: high, ..s },
            Signal::Db6 => BusState { db6: high, ..s },
            Signal::Db7 => BusState { db7: high, ..s },
        },
        BusOp::Wait { micros } => s,
    }
}

/// The line levels after a whole operation sequence.
pub open spec fn bus_after(s: BusState, ops: Seq<BusOp>) -> BusState
    decreases ops.len(),
{
    if ops.len() == 0 {
        s
    } else {
        bus_after(apply_op(s, ops[0]), ops.drop_first())
    }
}

/// Does this operation raise the enable line from low to high?
pub open spec fn rising_edge(s: BusState, op: BusOp) -> bool {
    &&& !s.enable
    &&& op == (BusOp::Drive { line: Signal::Enable, high: true })
}

/// The nibble currently on the data lines, data bit 0 on `Db4` up to
/// data bit 3 on `Db7`.
pub open spec fn data_lines(s: BusState) -> u8 {
    (if s.db4 { 1u8 } else { 0u8 }) | (if s.db5 { 2u8 } else { 0u8 }) | (if s.db6 {
        4u8
    } else {
        0u8
    }) | (if s.db7 { 8u8 } else { 0u8 })
}

/// The transfer the controller latches at a rising enable edge in state `s`.
pub open spec fn latch(s: BusState) -> Transfer {
    Transfer { nibble: data_lines(s), is_data: s.rs }
}

/// The transfers an operation sequence causes, starting from state `s`:
/// one per rising enable edge.
pub open spec fn transfers_from(s: BusState, ops: Seq<BusOp>) -> Seq<Transfer>
    decreases ops.len(),
{
    if ops.len() == 0 {
        Seq::empty()
    } else {
        let rest = transfers_from(apply_op(s, ops[0]), ops.drop_first());
        if rising_edge(s, ops[0]) {
            seq![latch(s)] + rest
        } else {
            rest
        }
    }
}

proof fn lemma_snoc(s: BusState, ops: Seq<BusOp>, op: BusOp)
    ensures
        bus_after(s, ops.push(op)) == apply_op(bus_after(s, ops), op),
        transfers_from(s, ops.push(op)) == transfers_from(s, ops) + (if rising_edge(
            bus_after(s, ops),
            op,
        ) {
            seq![latch(bus_after(s, ops))]
        } else {
            Seq::<Transfer>::empty()
        }),
    decreases ops.len(),
{
    reveal_with_fuel(bus_after, 3);
    reveal_with_fuel(transfers_from, 3);
    if ops.len() == 0 {
        assert(ops.push(op).drop_first() =~= Seq::<BusOp>::empty());
        assert(transfers_from(s, ops.push(op)) =~= transfers_from(s, ops) + (if rising_edge(
            bus_after(s, ops),
            op,
        ) {
            seq![latch(bus_after(s, ops))]
        } else {
            Seq::<Transfer>::empty()
        }));
    } else {
        assert(ops.push(op).drop_first() =~= ops.drop_first().push(op));
        lemma_snoc(apply_op(s, ops[0]), ops.drop_first(), op);
        assert(transfers_from(s, ops.push(op)) =~= transfers_from(s, ops) + (if rising_edge(
            bus_after(s, ops),
            op,
        ) {
            seq![latch(bus_after(s, ops))]
        } else {
            Seq::<Transfer>::empty()
        }));
    }
}

/// The enable pulse: raise enable, hold at least 1 microsecond, lower it,
/// then settle for at least 50 microseconds (the controller's minimum
/// instruction-execution latency).
pub open spec fn pulse_ops() -> Seq<BusOp> {
    seq![
        BusOp::Drive { line: Signal::Enable, high: true },
        BusOp::Wait { micros: 1 },
        BusOp::Drive { line: Signal::Enable, high: false },
        BusOp::Wait { micros: 50 },
    ]
}

/// Drive all four data lines low.
pub open spec fn clear_ops() -> Seq<BusOp> {
    seq![
        BusOp::Drive { line: Signal::Db4, high: false },
        BusOp::Drive { line: Signal::Db5, high: false },
        BusOp::Drive { line: Signal::Db6, high: false },
        BusOp::Drive { line: Signal::Db7, high: false },
    ]
}

/// Clear the data lines, drive them to the low 4 bits of `nibble`
/// (bit 0 on `Db4` through bit 3 on `Db7`), then pulse enable.
pub open spec fn nibble_ops(nibble: u8) -> Seq<BusOp> {
    clear_ops() + seq![
        BusOp::Drive { line: Signal::Db4, high: (nibble & 0x01) != 0 },
        BusOp::Drive { line: Signal::Db5, high: (nibble & 0x02) != 0 },
        BusOp::Drive { line: Signal::Db6, high: (nibble & 0x04) != 0 },
        BusOp::Drive { line: Signal::Db7, high: (nibble & 0x08) != 0 },
    ] + pulse_ops()
}

/// Set register-select, send the high nibble, send the low nibble, then
/// settle for at least 50 microseconds.
pub open spec fn byte_ops(byte: u8, is_data: bool) -> Seq<BusOp> {
    seq![BusOp::Drive { line: Signal::Rs, high: is_data }] + nibble_ops(byte >> 4) + nibble_ops(
        byte & 0x0F,
    ) + seq![BusOp::Wait { micros: 50 }]
}

/// The two transfers of one byte: high nibble first, low nibble second.
pub open spec fn byte_transfers(byte: u8, is_data: bool) -> Seq<Transfer> {
    seq![
        Transfer { nibble: byte >> 4, is_data },
        Transfer { nibble: byte & 0x0F, is_data },
    ]
}

/// The function-set opcode: bit 4 selects an 8-bit interface, bit 3 two
/// display lines, bit 2 the 5x8 font.
pub open spec fn function_opcode(data_length: u8, num_lines: u8, font: u8) -> u8 {
    0x20u8 | (if data_length == 8 { 0x10u8 } else { 0u8 }) | (if num_lines == 2 {
        0x08u8
    } else {
        0u8
    }) | (if font == 5 { 0x04u8 } else { 0u8 })
}

/// The display-mode opcode: bit 2 turns the display on, bit 1 the cursor,
/// bit 0 cursor blink.
pub open spec fn display_mode_opcode(display_on: bool, cursor_on: bool, cursor_blink: bool) -> u8 {
    0x08u8 | (if display_on { 0x04u8 } else { 0u8 }) | (if cursor_on { 0x02u8 } else { 0u8 }) | (
    if cursor_blink {
        0x01u8
    } else {
        0u8
    })
}

/// The DDRAM address instruction for a line: line 2 selects the second
/// row, anything else the first.
pub open spec fn line_opcode(line: u8) -> u8 {
    if line == 2 {
        LINE_2
    } else {
        LINE_1
    }
}

/// The wire-level operations of one message: each character is transferred
/// as one data byte, in order. A character beyond ASCII is truncated to its
/// low 8 bits (the display holds no wider font).
pub open spec fn msg_ops(s: Seq<char>) -> Seq<BusOp>
    decreases s.len(),
{
    if s.len() == 0 {
        Seq::empty()
    } else {
        msg_ops(s.drop_last()) + byte_ops(s.last() as u8, true)
    }
}

/// The transfers of one message: two data transfers per character.
pub open spec fn msg_transfers(s: Seq<char>) -> Seq<Transfer>
    decreases s.len(),
{
    if s.len() == 0 {
        Seq::empty()
    } else {
        msg_transfers(s.drop_last()) + byte_transfers(s.last() as u8, true)
    }
}

/// The bring-up sequence for 4-bit mode, transfer by transfer: nibble 0x3
/// three times (forcing a known 8-bit state), nibble 0x2 (switching to
/// 4-bit transfers), then function set, display mode, clear, entry mode.
pub open spec fn init_transfers() -> Seq<Transfer> {
    seq![
        Transfer { nibble: 0x03, is_data: false },
        Transfer { nibble: 0x03, is_data: false },
        Transfer { nibble: 0x03, is_data: false },
        Transfer { nibble: 0x02, is_data: false },
    ] + byte_transfers(FUNCTION_SET, false) + byte_transfers(0x0F, false) + byte_transfers(
        CLEAR_DISPLAY,
        false,
    ) + byte_transfers(ENTRY_MODE_SET, false)
}

/// The wire-level operations of the bring-up sequence, waits included:
/// at least 15 ms after power-up, 5 ms after the first forced nibble,
/// 150 us after the second.
pub open spec fn init_ops() -> Seq<BusOp> {
    seq![BusOp::Wait { micros: 15000 }] + nibble_ops(0x03) + seq![BusOp::Wait { micros: 5000 }]
        + nibble_ops(0x03) + seq![BusOp::Wait { micros: 150 }] + nibble_ops(0x03) + nibble_ops(
        0x02,
    ) + byte_ops(FUNCTION_SET, false) + byte_ops(0x0F, false) + byte_ops(CLEAR_DISPLAY, false)
        + seq![BusOp::Wait { micros: 2000 }] + byte_ops(ENTRY_MODE_SET, false)
}

/// The driver. It accumulates the wire-level operations that its methods
/// decide on; the caller drains them with [`Lcd::take_ops`] and must play
/// each drained batch against the pins in order, honouring every wait.
pub struct Lcd {
    ops: Vec<BusOp>,
    /// The line levels when the current buffer starts: power-on levels at
    /// first, and afterwards whatever the previously drained batches left,
    /// so the model tracks the physical lines across drains.
    base: Ghost<BusState>,
}

impl View for Lcd {
    type V = Seq<BusOp>;

    closed spec fn view(&self) -> Seq<BusOp> {
        self.ops@
    }
}

impl Lcd {
    /// The line levels after every operation issued so far, drained
    /// batches included.
    pub closed spec fn bus(&self) -> BusState {
        bus_after(self.base@, self@)
    }

    /// Every 4-bit transfer the currently buffered operations cause, in
    /// order.
    pub closed spec fn transfers(&self) -> Seq<Transfer> {
        transfers_from(self.base@, self@)
    }

    /// The enable line is low, so the next pulse makes a clean edge. Every
    /// method establishes this; only a buffer that ends mid-pulse (which no
    /// method produces) could break it.
    pub open spec fn ready(&self) -> bool {
        !self.bus().enable
    }

    pub fn new() -> (r: Lcd)
        ensures
            r@ == Seq::<BusOp>::empty(),
            r.bus() == power_on(),
            r.transfers() == Seq::<Transfer>::empty(),
            r.ready(),
    {
        Lcd { ops: Vec::new(), base: Ghost(power_on()) }
    }

    /// Hand the buffered operations to the caller and start an empty
    /// buffer. The line levels carry over: the caller is expected to play
    /// the batch against the pins, in order, before the next drain.
    pub fn take_ops(&mut self) -> (r: Vec<BusOp>)
        ensures
            r@ == old(self)@,
            final(self)@ == Seq::<BusOp>::empty(),
            final(self).bus() == old(self).bus(),
            final(self).transfers() == Seq::<Transfer>::empty(),
            final(self).ready() == old(self).ready(),
    {
        let ghost carried = self.bus();
        let mut v: Vec<BusOp> = Vec::new();
        core::mem::swap(&mut v, &mut self.ops);
        self.base = Ghost(carried);
        v
    }

    fn push_op(&mut self, op: BusOp)
        ensures
            final(self)@ == old(self)@.push(op),
            final(self).bus() == apply_op(old(self).bus(), op),
            final(self).transfers() == old(self).transfers() + (if rising_edge(
                old(self).bus(),
                op,
            ) {
                seq![latch(old(self).bus())]
            } else {
                Seq::<Transfer>::empty()
            }),
    {
        proof {
            lemma_snoc(self.base@, self@, op);
        }
        self.ops.push(op);
    }

    /// Latch whatever is on the data lines: raise enable for at least
    /// 1 microsecond, lower it, and settle for at least 50 microseconds.
    fn pulse_enable(&mut self)
        requires
            old(self).ready(),
        ensures
            final(self)@ == old(self)@ + pulse_ops(),
            final(self).bus() == old(self).bus(),
            final(self).ready(),
            final(self).transfers() == old(self).transfers() + seq![latch(old(self).bus())],
    {
        self.push_op(BusOp::Drive { line: Signal::Enable, high: true });
        self.push_op(BusOp::Wait { micros: 1 });
        self.push_op(BusOp::Drive { line: Signal::Enable, high: false });
        self.push_op(BusOp::Wait { micros: 50 });
        proof {
            assert(final(self)@ =~= old(self)@ + pulse_ops());
            assert(final(self).transfers() =~= old(self).transfers() + seq![
                latch(old(self).bus()),
            ]);
        }
    }

    /// Drive all four data lines low.
    fn clear_buses(&mut self)
        ensures
            final(self)@ == old(self)@ + clear_ops(),
            final(self).bus() == (BusState {
                db4: false,
                db5: false,
                db6: false,
                db7: false,
                ..old(self).bus()
            }),
            final(self).transfers() == old(self).transfers(),
    {
        self.push_op(BusOp::Drive { line: Signal::Db4, high: false });
        self.push_op(BusOp::Drive { line: Signal::Db5, high: false });
        self.push_op(BusOp::Drive { line: Signal::Db6, high: false });
        self.push_op(BusOp::Drive { line: Signal::Db7, high: false });
        proof {
            assert(final(self)@ =~= old(self)@ + clear_ops());
            assert(final(self).transfers() =~= old(self).transfers());
        }
    }

    /// Transfer the low 4 bits of `nibble`, under the current
    /// register-select level.
    pub fn send_nibble(&mut self, nibble: u8)
        requires
            old(self).ready(),
        ensures
            final(self)@ == old(self)@ + nibble_ops(nibble),
            final(self).bus() == (BusState {
                db4: (nibble & 0x01) != 0,
                db5: (nibble & 0x02) != 0,
                db6: (nibble & 0x04) != 0,
                db7: (nibble & 0x08) != 0,
                ..old(self).bus()
            }),
            final(self).ready(),
            final(self).transfers() == old(self).transfers() + seq![
                Transfer { nibble: nibble & 0x0F, is_data: old(self).bus().rs },
            ],
    {
        self.clear_buses();
        self.push_op(BusOp::Drive { line: Signal::Db4, high: (nibble & 0x01) != 0 });
        self.push_op(BusOp::Drive { line: Signal::Db5, high: (nibble & 0x02) != 0 });
        self.push_op(BusOp::Drive { line: Signal::Db6, high: (nibble & 0x04) != 0 });
        self.push_op(BusOp::Drive { line: Signal::Db7, high: (nibble & 0x08) != 0 });
        self.pulse_enable();
        proof {
            assert(((if (nibble & 0x01u8) != 0 { 1u8 } else { 0u8 }) | (if (nibble & 0x02u8) != 0 {
                2u8
            } else {
                0u8
            }) | (if (nibble & 0x04u8) != 0 { 4u8 } else { 0u8 }) | (if (nibble & 0x08u8) != 0 {
                8u8
            } else {
                0u8
            })) == nibble & 0x0Fu8) by (bit_vector);
            assert(final(self)@ =~= old(self)@ + nibble_ops(nibble));
            assert(final(self).transfers() =~= old(self).transfers() + seq![
                Transfer { nibble: nibble & 0x0F, is_data: old(self).bus().rs },
            ]);
        }
    }

    /// Transfer one byte: set register-select (`is_data` high for character
    /// data, low for an instruction), then send the high nibble followed by
    /// the low nibble, then settle.
    pub fn send_byte(&mut self, byte: u8, is_data: bool)
        requires
            old(self).ready(),
        ensures
            final(self)@ == old(self)@ + byte_ops(byte, is_data),
            final(self).bus() == (BusState {
                rs: is_data,
                enable: false,
                db4: (byte & 0x01) != 0,
                db5: (byte & 0x02) != 0,
                db6: (byte & 0x04) != 0,
                db7: (byte & 0x08) != 0,
            }),
            final(self).ready(),
            final(self).transfers() == old(self).transfers() + byte_transfers(byte, is_data),
    {
        self.push_op(BusOp::Drive { line: Signal::Rs, high: is_data });
        self.send_nibble(byte >> 4);
        self.send_nibble(byte & 0x0F);
        self.push_op(BusOp::Wait { micros: 50 });
        proof {
            assert((byte >> 4) & 0x0Fu8 == byte >> 4) by (bit_vector);
            assert((byte & 0x0Fu8) & 0x0Fu8 == byte & 0x0Fu8) by (bit_vector);
            assert((byte & 0x0Fu8) & 0x01u8 == byte & 0x01u8) by (bit_vector);
            assert((byte & 0x0Fu8) & 0x02u8 == byte & 0x02u8) by (bit_vector);
            assert((byte & 0x0Fu8) & 0x04u8 == byte & 0x04u8) by (bit_vector);
            assert((byte & 0x0Fu8) & 0x08u8 == byte & 0x08u8) by (bit_vector);
            assert(final(self)@ =~= old(self)@ + byte_ops(byte, is_data));
            assert(final(self).transfers() =~= old(self).transfers() + byte_transfers(
                byte,
                is_data,
            ));
        }
    }

    /// Hold all lines for at least `micros` microseconds.
    fn wait_micros(&mut self, micros: u64)
        ensures
            final(self)@ == old(self)@ + seq![BusOp::Wait { micros }],
            final(self).bus() == old(self).bus(),
            final(self).transfers() == old(self).transfers(),
    {
        self.push_op(BusOp::Wait { micros });
        proof {
            assert(final(self)@ =~= old(self)@ + seq![BusOp::Wait { micros }]);
            assert(final(self).transfers() =~= old(self).transfers());
        }
    }

    /// Configure the interface width, line count and font.
    pub fn set_function(&mut self, data_length: u8, num_lines: u8, font: u8)
        requires
            old(self).ready(),
        ensures
            final(self)@ == old(self)@ + byte_ops(function_opcode(data_length, num_lines, font), false),
            final(self).ready(),
            final(self).bus().rs == false,
            final(self).transfers() == old(self).transfers() + byte_transfers(
                function_opcode(data_length, num_lines, font),
                false,
            ),
    {
        let function = 0x20u8 | (if data_length == 8 { 0x10u8 } else { 0u8 }) | (if num_lines == 2 {
            0x08u8
        } else {
            0u8
        }) | (if font == 5 { 0x04u8 } else { 0u8 });
        self.send_byte(function, false);
    }

    /// Configure display on/off, cursor visibility and cursor blink.
    pub fn set_display_mode(&mut self, display_on: bool, cursor_on: bool, cursor_blink: bool)
        requires
            old(self).ready(),
        ensures
            final(self)@ == old(self)@ + byte_ops(
                display_mode_opcode(display_on, cursor_on, cursor_blink),
                false,
            ),
            final(self).ready(),
            final(self).bus().rs == false,
            final(self).transfers() == old(self).transfers() + byte_transfers(
                display_mode_opcode(display_on, cursor_on, cursor_blink),
                false,
            ),
    {
        let display_mode = 0x08u8 | (if display_on { 0x04u8 } else { 0u8 }) | (if cursor_on {
            0x02u8
        } else {
            0u8
        }) | (if cursor_blink { 0x01u8 } else { 0u8 });
        self.send_byte(display_mode, false);
    }

    /// Move the cursor to the start of line 1 or line 2.
    pub fn move_to_line(&mut self, line: u8)
        requires
            old(self).ready(),
        ensures
            final(self)@ == old(self)@ + byte_ops(line_opcode(line), false),
            final(self).ready(),
            final(self).bus().rs == false,
            final(self).transfers() == old(self).transfers() + byte_transfers(
                line_opcode(line),
                false,
            ),
    {
        let mut line_bytes = LINE_1;
        if line == 2 {
            line_bytes = LINE_2;
        }
        self.send_byte(line_bytes, false);
    }

    /// Shift the display content one cell to the right.
    pub fn shift_right(&mut self)
        requires
            old(self).ready(),
        ensures
            final(self)@ == old(self)@ + byte_ops(SHIFT_RIGHT, false),
            final(self).ready(),
            final(self).bus().rs == false,
            final(self).transfers() == old(self).transfers() + byte_transfers(SHIFT_RIGHT, false),
    {
        self.send_byte(SHIFT_RIGHT, false);
    }

    /// Clear the display and home the cursor; this instruction needs an
    /// extra settle of at least 2 ms.
    pub fn clear_display(&mut self)
        requires
            old(self).ready(),
        ensures
            final(self)@ == old(self)@ + byte_ops(CLEAR_DISPLAY, false) + seq![
                BusOp::Wait { micros: 2000 },
            ],
            final(self).ready(),
            final(self).bus().rs == false,
            final(self).transfers() == old(self).transfers() + byte_transfers(CLEAR_DISPLAY, false),
    {
        self.send_byte(CLEAR_DISPLAY, false);
        self.wait_micros(2000);
    }

    /// The documented bring-up for 4-bit mode. The first four transfers are
    /// the nibbles 0x3, 0x3, 0x3, 0x2 with their inter-send waits, which
    /// force the controller's mode-negotiation state machine into 4-bit
    /// transfers from any power-up state; then function set, display mode
    /// (display, cursor and blink on), clear, and entry mode follow.
    /// Register-select must be low, as it is at power-up: the forced
    /// nibbles must reach the instruction register.
    #[verifier::rlimit(100)]
    pub fn initialize(&mut self)
        requires
            old(self).ready(),
            old(self).bus().rs == false,
        ensures
            final(self)@ == old(self)@ + init_ops(),
            final(self).ready(),
            final(self).bus().rs == false,
            final(self).transfers() == old(self).transfers() + init_transfers(),
    {
        proof {
            assert(0x03u8 & 0x0Fu8 == 0x03u8) by (bit_vector);
            assert(0x02u8 & 0x0Fu8 == 0x02u8) by (bit_vector);
            assert(0x20u8 | 0u8 | 0x08u8 | 0u8 == 0x28u8) by (bit_vector);
            assert(0x08u8 | 0x04u8 | 0x02u8 | 0x01u8 == 0x0Fu8) by (bit_vector);
            assert(function_opcode(4, 2, 10) == FUNCTION_SET);
            assert(display_mode_opcode(true, true, true) == 0x0Fu8);
        }
        self.wait_micros(15000);
        self.send_nibble(0x03);
        proof {
            assert(self@ =~= old(self)@ + (seq![BusOp::Wait { micros: 15000 }] + nibble_ops(0x03)));
            assert(self.transfers() =~= old(self).transfers() + seq![
                Transfer { nibble: 0x03, is_data: false },
            ]);
        }
        self.wait_micros(5000);
        self.send_nibble(0x03);
        proof {
            assert(self@ =~= old(self)@ + (seq![BusOp::Wait { micros: 15000 }] + nibble_ops(0x03)
                + seq![BusOp::Wait { micros: 5000 }] + nibble_ops(0x03)));
            assert(self.transfers() =~= old(self).transfers() + seq![
                Transfer { nibble: 0x03, is_data: false },
                Transfer { nibble: 0x03, is_data: false },
            ]);
        }
        self.wait_micros(150);
        self.send_nibble(0x03);
        self.send_nibble(0x02);
        proof {
            assert(self@ =~= old(self)@ + (seq![BusOp::Wait { micros: 15000 }] + nibble_ops(0x03)
                + seq![BusOp::Wait { micros: 5000 }] + nibble_ops(0x03) + seq![
                BusOp::Wait { micros: 150 },
            ] + nibble_ops(0x03) + nibble_ops(0x02)));
            assert(self.transfers() =~= old(self).transfers() + seq![
                Transfer { nibble: 0x03, is_data: false },
                Transfer { nibble: 0x03, is_data: false },
                Transfer { nibble: 0x03, is_data: false },
                Transfer { nibble: 0x02, is_data: false },
            ]);
        }
        self.set_function(4, 2, 10);
        self.set_display_mode(true, true, true);
        proof {
            assert(self@ =~= old(self)@ + (seq![BusOp::Wait { micros: 15000 }] + nibble_ops(0x03)
                + seq![BusOp::Wait { micros: 5000 }] + nibble_ops(0x03) + seq![
                BusOp::Wait { micros: 150 },
            ] + nibble_ops(0x03) + nibble_ops(0x02) + byte_ops(FUNCTION_SET, false) + byte_ops(
                0x0F,
                false,
            )));
            assert(self.transfers() =~= old(self).transfers() + (seq![
                Transfer { nibble: 0x03, is_data: false },
                Transfer { nibble: 0x03, is_data: false },
                Transfer { nibble: 0x03, is_data: false },
                Transfer { nibble: 0x02, is_data: false },
            ] + byte_transfers(FUNCTION_SET, false) + byte_transfers(0x0F, false)));
        }
        self.clear_display();
        self.send_byte(ENTRY_MODE_SET, false);
        proof {
            assert(final(self)@ =~= old(self)@ + init_ops());
            assert(final(self).transfers() =~= old(self).transfers() + init_transfers());
        }
    }

    /// Write a message as character data, one byte per character in order.
    pub fn display_message(&mut self, message: &str)
        requires
            old(self).ready(),
        ensures
            final(self)@ == old(self)@ + msg_ops(message@),
            final(self).ready(),
            final(self).transfers() == old(self).transfers() + msg_transfers(message@),
    {
        let n = message.unicode_len();
        let mut i: usize = 0;
        while i < n
            invariant
                i <= n,
                n == message@.len(),
                self@ == old(self)@ + msg_ops(message@.take(i as int)),
                self.transfers() == old(self).transfers() + msg_transfers(message@.take(i as int)),
                self.ready(),
            decreases n - i,
        {
            let c = message.get_char(i);
            self.send_byte(c as u8, true);
            proof {
                assert(message@.take(i + 1).drop_last() =~= message@.take(i as int));
                assert(message@.take(i + 1).last() == message@[i as int]);
                assert(self@ =~= old(self)@ + msg_ops(message@.take(i + 1)));
                assert(self.transfers() =~= old(self).transfers() + msg_transfers(
                    message@.take(i + 1),
                ));
            }
            i += 1;
        }
        proof {
            assert(message@.take(n as int) =~= message@);
        }
    }
}

} // verus!
