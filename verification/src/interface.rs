//! The connection between a panel driver and its host.
//!
//! A driver talks to the controller in bus transactions: a command byte, a
//! run of data bytes, a wait for the busy line. [`DisplayInterface`] queues
//! them in the order in which they are issued. The host takes the queue,
//! turns each transaction into the pin and bus events that frame it on the
//! wire, and performs those.

use crate::command::Command;
use crate::error::IoError;
use vstd::prelude::*;
use vstd::slice::slice_to_vec;

verus! {

/// How long the reset line is held at each level, in milliseconds.
pub const RESET_DELAY_MS: u8 = 10;

/// A bus transaction as contracts speak of it.
pub enum BusOpView {
    /// A hardware reset through the reset line.
    Reset,
    /// A pause of the given number of milliseconds.
    DelayMs(u8),
    /// One command byte.
    Command(Command),
    /// The given bytes, sent as data in one transfer.
    Data(Seq<u8>),
    /// One data byte, sent the given number of times.
    DataRepeated(u8, u32),
    /// A wait until the busy line reads idle. The flag tells whether the
    /// controller signals busy with a low level.
    WaitUntilIdle(bool),
}

/// A bus transaction that a driver has issued.
#[derive(Debug, PartialEq, Eq)]
pub enum BusOp {
    /// A hardware reset through the reset line.
    Reset,
    /// A pause of the given number of milliseconds.
    DelayMs(u8),
    /// One command byte.
    Command(Command),
    /// The given bytes, sent as data in one transfer.
    Data(Vec<u8>),
    /// One data byte, sent the given number of times.
    DataRepeated(u8, u32),
    /// A wait until the busy line reads idle. The flag tells whether the
    /// controller signals busy with a low level.
    WaitUntilIdle(bool),
}

impl View for BusOp {
    type V = BusOpView;

    open spec fn view(&self) -> BusOpView {
        match *self {
            BusOp::Reset => BusOpView::Reset,
            BusOp::DelayMs(ms) => BusOpView::DelayMs(ms),
            BusOp::Command(command) => BusOpView::Command(command),
            BusOp::Data(bytes) => BusOpView::Data(bytes@),
            BusOp::DataRepeated(value, repetitions) => BusOpView::DataRepeated(value, repetitions),
            BusOp::WaitUntilIdle(is_busy_low) => BusOpView::WaitUntilIdle(is_busy_low),
        }
    }
}

/// The transactions that a sequence of queued operations stands for.
pub open spec fn ops_view(ops: Seq<BusOp>) -> Seq<BusOpView> {
    ops.map_values(|op: BusOp| op@)
}

/// A pin or bus event as contracts speak of it. A level is `true` for high.
pub enum WireEventView {
    /// Drive the reset line to the level.
    SetRst(bool),
    /// Drive the data/command line to the level: low for a command, high for data.
    SetDc(bool),
    /// Drive the chip select line to the level: low selects the controller.
    SetCs(bool),
    /// Write the bytes on the serial bus in one transfer.
    Write(Seq<u8>),
    /// Pause for the given number of milliseconds.
    DelayMs(u8),
    /// Sample the busy line until it reads idle. The flag tells whether
    /// busy is the low level.
    AwaitIdle(bool),
}

/// A pin or bus event that the host has to perform. A level is `true` for high.
#[derive(Debug, PartialEq, Eq)]
pub enum WireEvent {
    /// Drive the reset line to the level.
    SetRst(bool),
    /// Drive the data/command line to the level: low for a command, high for data.
    SetDc(bool),
    /// Drive the chip select line to the level: low selects the controller.
    SetCs(bool),
    /// Write the bytes on the serial bus in one transfer.
    Write(Vec<u8>),
    /// Pause for the given number of milliseconds.
    DelayMs(u8),
    /// Sample the busy line until it reads idle. The flag tells whether
    /// busy is the low level.
    AwaitIdle(bool),
}

impl View for WireEvent {
    type V = WireEventView;

    open spec fn view(&self) -> WireEventView {
        match *self {
            WireEvent::SetRst(level) => WireEventView::SetRst(level),
            WireEvent::SetDc(level) => WireEventView::SetDc(level),
            WireEvent::SetCs(level) => WireEventView::SetCs(level),
            WireEvent::Write(bytes) => WireEventView::Write(bytes@),
            WireEvent::DelayMs(ms) => WireEventView::DelayMs(ms),
            WireEvent::AwaitIdle(is_busy_low) => WireEventView::AwaitIdle(is_busy_low),
        }
    }
}

/// The events that a sequence of wire events stands for.
pub open spec fn events_view(events: Seq<WireEvent>) -> Seq<WireEventView> {
    events.map_values(|event: WireEvent| event@)
}

/// One byte written in a transfer of its own: select, write, release.
pub open spec fn single_write(value: u8) -> Seq<WireEventView> {
    seq![
        WireEventView::SetCs(false),
        WireEventView::Write(seq![value]),
        WireEventView::SetCs(true),
    ]
}

/// `count` transfers of one byte each, all of the same value.
pub open spec fn repeated_writes(value: u8, count: nat) -> Seq<WireEventView>
    decreases count,
{
    if count == 0 {
        Seq::empty()
    } else {
        repeated_writes(value, (count - 1) as nat) + single_write(value)
    }
}

impl BusOpView {
    /// The events that frame this transaction on the wire.
    ///
    /// A command is one byte written with the data/command line low, data is
    /// written with the line high, and chip select is low for exactly the
    /// duration of each transfer. A reset holds the reset line low and then
    /// high, for [`RESET_DELAY_MS`] each.
    pub open spec fn wire(self) -> Seq<WireEventView> {
        match self {
            BusOpView::Reset => seq![
                WireEventView::SetRst(false),
                WireEventView::DelayMs(RESET_DELAY_MS),
                WireEventView::SetRst(true),
                WireEventView::DelayMs(RESET_DELAY_MS),
            ],
            BusOpView::DelayMs(ms) => seq![WireEventView::DelayMs(ms)],
            BusOpView::Command(command) => seq![
                WireEventView::SetDc(false),
                WireEventView::SetCs(false),
                WireEventView::Write(seq![command.opcode()]),
                WireEventView::SetCs(true),
            ],
            BusOpView::Data(bytes) => seq![
                WireEventView::SetDc(true),
                WireEventView::SetCs(false),
                WireEventView::Write(bytes),
                WireEventView::SetCs(true),
            ],
            BusOpView::DataRepeated(value, repetitions) => seq![WireEventView::SetDc(true)]
                + repeated_writes(value, repetitions as nat),
            BusOpView::WaitUntilIdle(is_busy_low) => seq![WireEventView::AwaitIdle(is_busy_low)],
        }
    }
}

/// The events that frame a whole sequence of transactions, in order.
pub open spec fn wire_all(ops: Seq<BusOpView>) -> Seq<WireEventView>
    decreases ops.len(),
{
    if ops.len() == 0 {
        Seq::empty()
    } else {
        wire_all(ops.drop_last()) + ops.last().wire()
    }
}

/// Whether a run of events keeps to the chip select discipline, starting
/// with chip select at the level `cs_high`: every write on the bus happens
/// while the controller is selected, the busy line is only sampled while it
/// is released, and it is released at the end.
pub open spec fn well_framed(events: Seq<WireEventView>, cs_high: bool) -> bool
    decreases events.len(),
{
    if events.len() == 0 {
        cs_high
    } else {
        match events[0] {
            WireEventView::SetCs(level) => well_framed(events.skip(1), level),
            WireEventView::Write(_) => !cs_high && well_framed(events.skip(1), cs_high),
            WireEventView::AwaitIdle(_) => cs_high && well_framed(events.skip(1), cs_high),
            _ => well_framed(events.skip(1), cs_high),
        }
    }
}

/// A run of events that keeps to the chip select discipline can be followed
/// by another that does.
proof fn lemma_well_framed_concat(first: Seq<WireEventView>, second: Seq<WireEventView>, cs_high: bool)
    requires
        well_framed(first, cs_high),
        well_framed(second, true),
    ensures
        well_framed(first + second, cs_high),
    decreases first.len(),
{
    if first.len() == 0 {
        assert(first + second =~= second);
    } else {
        let rest = first.skip(1);
        assert((first + second).skip(1) =~= rest + second);
        assert((first + second)[0] == first[0]);
        match first[0] {
            WireEventView::SetCs(level) => lemma_well_framed_concat(rest, second, level),
            _ => lemma_well_framed_concat(rest, second, cs_high),
        }
    }
}

/// Single byte transfers keep to the chip select discipline, however many.
proof fn lemma_repeated_writes_well_framed(value: u8, count: nat)
    ensures
        well_framed(repeated_writes(value, count), true),
    decreases count,
{
    if count > 0 {
        lemma_repeated_writes_well_framed(value, (count - 1) as nat);
        let one = single_write(value);
        assert(well_framed(one, true)) by {
            reveal_with_fuel(well_framed, 4);
            assert(one.skip(1).skip(1).skip(1).len() == 0);
        }
        lemma_well_framed_concat(repeated_writes(value, (count - 1) as nat), one, true);
    }
}

/// The events of one transaction keep to the chip select discipline.
proof fn lemma_wire_well_framed(op: BusOpView)
    ensures
        well_framed(op.wire(), true),
{
    let events = op.wire();
    match op {
        BusOpView::DataRepeated(value, repetitions) => {
            let head = seq![WireEventView::SetDc(true)];
            assert(well_framed(head, true)) by {
                reveal_with_fuel(well_framed, 2);
                assert(head.skip(1).len() == 0);
            }
            lemma_repeated_writes_well_framed(value, repetitions as nat);
            lemma_well_framed_concat(head, repeated_writes(value, repetitions as nat), true);
        },
        BusOpView::Reset | BusOpView::Command(_) | BusOpView::Data(_) => {
            reveal_with_fuel(well_framed, 5);
            assert(events.skip(1).skip(1).skip(1).skip(1).len() == 0);
        },
        BusOpView::DelayMs(_) | BusOpView::WaitUntilIdle(_) => {
            reveal_with_fuel(well_framed, 2);
            assert(events.skip(1).len() == 0);
        },
    }
}

/// Whatever a driver issues, the events that the host performs keep to the
/// chip select discipline: the controller is selected for every write and
/// for nothing else, so it is released whenever the busy line is sampled
/// and when the last event is done.
pub proof fn lemma_chip_select_discipline(ops: Seq<BusOpView>)
    ensures
        well_framed(wire_all(ops), true),
    decreases ops.len(),
{
    if ops.len() > 0 {
        lemma_chip_select_discipline(ops.drop_last());
        lemma_wire_well_framed(ops.last());
        lemma_well_framed_concat(wire_all(ops.drop_last()), ops.last().wire(), true);
    }
}

/// The bytes that a run of events writes on the serial bus, in order.
pub open spec fn written(events: Seq<WireEventView>) -> Seq<u8>
    decreases events.len(),
{
    if events.len() == 0 {
        Seq::empty()
    } else {
        match events.last() {
            WireEventView::Write(bytes) => written(events.drop_last()) + bytes,
            _ => written(events.drop_last()),
        }
    }
}

impl BusOpView {
    /// The bytes that this transaction carries to the controller: the
    /// opcode of a command, the bytes of a data transfer, the repeated byte
    /// as often as it is repeated.
    pub open spec fn payload(self) -> Seq<u8> {
        match self {
            BusOpView::Command(command) => seq![command.opcode()],
            BusOpView::Data(bytes) => bytes,
            BusOpView::DataRepeated(value, repetitions) => Seq::new(
                repetitions as nat,
                |i: int| value,
            ),
            _ => Seq::empty(),
        }
    }
}

/// The bytes of all transactions of a sequence, in order.
pub open spec fn payloads(ops: Seq<BusOpView>) -> Seq<u8>
    decreases ops.len(),
{
    if ops.len() == 0 {
        Seq::empty()
    } else {
        payloads(ops.drop_last()) + ops.last().payload()
    }
}

/// What a further event adds to the bytes written.
proof fn lemma_written_push(events: Seq<WireEventView>, event: WireEventView)
    ensures
        written(events.push(event)) == (match event {
            WireEventView::Write(bytes) => written(events) + bytes,
            _ => written(events),
        }),
{
    assert(events.push(event).drop_last() =~= events);
}

/// The bytes written by one run of events after another are those of the
/// first followed by those of the second.
proof fn lemma_written_concat(first: Seq<WireEventView>, second: Seq<WireEventView>)
    ensures
        written(first + second) == written(first) + written(second),
    decreases second.len(),
{
    if second.len() == 0 {
        assert(first + second =~= first);
        assert(written(first) + written(second) =~= written(first));
    } else {
        lemma_written_concat(first, second.drop_last());
        assert(first + second =~= (first + second.drop_last()).push(second.last()));
        lemma_written_push(first + second.drop_last(), second.last());
        match second.last() {
            WireEventView::Write(bytes) => {
                assert(written(first + second) =~= written(first) + written(second));
            },
            _ => {},
        }
    }
}

/// Single byte transfers write the byte as often as there are transfers.
proof fn lemma_written_repeated(value: u8, count: nat)
    ensures
        written(repeated_writes(value, count)) == Seq::new(count, |i: int| value),
    decreases count,
{
    if count == 0 {
        assert(written(repeated_writes(value, count)) =~= Seq::new(count, |i: int| value));
    } else {
        let before = repeated_writes(value, (count - 1) as nat);
        lemma_written_repeated(value, (count - 1) as nat);
        lemma_written_concat(before, single_write(value));
        let one = single_write(value);
        assert(written(one) =~= seq![value]) by {
            let empty = Seq::<WireEventView>::empty();
            assert(one =~= empty.push(one[0]).push(one[1]).push(one[2]));
            lemma_written_push(empty, one[0]);
            lemma_written_push(empty.push(one[0]), one[1]);
            lemma_written_push(empty.push(one[0]).push(one[1]), one[2]);
        }
        assert(written(repeated_writes(value, count)) =~= Seq::new(count, |i: int| value));
    }
}

/// The events of a transaction write its payload on the bus, and nothing
/// else.
pub proof fn lemma_wire_writes_payload(op: BusOpView)
    ensures
        written(op.wire()) == op.payload(),
{
    let events = op.wire();
    let empty = Seq::<WireEventView>::empty();
    match op {
        BusOpView::DataRepeated(value, repetitions) => {
            let head = seq![WireEventView::SetDc(true)];
            assert(head =~= empty.push(head[0]));
            lemma_written_push(empty, head[0]);
            lemma_written_repeated(value, repetitions as nat);
            lemma_written_concat(head, repeated_writes(value, repetitions as nat));
            assert(written(events) =~= op.payload());
        },
        BusOpView::Reset | BusOpView::Command(_) | BusOpView::Data(_) => {
            assert(events =~= empty.push(events[0]).push(events[1]).push(events[2]).push(
                events[3],
            ));
            lemma_written_push(empty, events[0]);
            lemma_written_push(empty.push(events[0]), events[1]);
            lemma_written_push(empty.push(events[0]).push(events[1]), events[2]);
            lemma_written_push(empty.push(events[0]).push(events[1]).push(events[2]), events[3]);
            assert(written(events) =~= op.payload());
        },
        BusOpView::DelayMs(_) | BusOpView::WaitUntilIdle(_) => {
            assert(events =~= empty.push(events[0]));
            lemma_written_push(empty, events[0]);
            assert(written(events) =~= op.payload());
        },
    }
}

/// The events of a sequence of transactions write the payloads of the
/// transactions on the bus, in their order.
pub proof fn lemma_wire_all_writes_payloads(ops: Seq<BusOpView>)
    ensures
        written(wire_all(ops)) == payloads(ops),
    decreases ops.len(),
{
    if ops.len() > 0 {
        lemma_wire_all_writes_payloads(ops.drop_last());
        lemma_wire_writes_payload(ops.last());
        lemma_written_concat(wire_all(ops.drop_last()), ops.last().wire());
    }
}

/// Whether the controller is busy, given the level read from the busy line.
pub open spec fn busy_at(is_busy_low: bool, pin_high: bool) -> bool {
    is_busy_low != pin_high
}

/// What a host that waits for the controller does after a sample of the
/// busy line.
///
/// `polls` counts the samples taken so far, this one included. A `limit`
/// bounds them; without one the host waits for as long as it takes.
pub open spec fn wait_outcome(
    is_busy_low: bool,
    pin_high: bool,
    polls: u32,
    limit: Option<u32>,
) -> Result<bool, IoError> {
    if !busy_at(is_busy_low, pin_high) {
        Ok(true)
    } else if limit is Some && polls >= limit->0 {
        Err(IoError::Timeout)
    } else {
        Ok(false)
    }
}

impl WireEventView {
    /// The error that the host reports when it fails to perform this event,
    /// or `None` for an event that cannot fail.
    pub open spec fn failure(self) -> Option<IoError> {
        match self {
            WireEventView::Write(_) => Some(IoError::Spi),
            WireEventView::DelayMs(_) => None,
            _ => Some(IoError::Pin),
        }
    }
}

impl WireEvent {
    /// Returns the error to report when the host fails to perform this
    /// event: a bus error for a write, a pin error for a line that cannot
    /// be driven or read. A pause cannot fail.
    pub fn failure(&self) -> (error: Option<IoError>)
        ensures
            error == self@.failure(),
    {
        match self {
            WireEvent::Write(_) => Some(IoError::Spi),
            WireEvent::DelayMs(_) => None,
            _ => Some(IoError::Pin),
        }
    }
}

impl BusOp {
    /// Returns the pin and bus events that perform this transaction, in the
    /// order in which the host has to carry them out.
    pub fn frame(&self) -> (events: Vec<WireEvent>)
        ensures
            events_view(events@) == self@.wire(),
    {
        let mut events: Vec<WireEvent> = Vec::new();
        match self {
            BusOp::Reset => {
                events.push(WireEvent::SetRst(false));
                events.push(WireEvent::DelayMs(RESET_DELAY_MS));
                events.push(WireEvent::SetRst(true));
                events.push(WireEvent::DelayMs(RESET_DELAY_MS));
            },
            BusOp::DelayMs(ms) => {
                events.push(WireEvent::DelayMs(*ms));
            },
            BusOp::Command(command) => {
                let mut byte: Vec<u8> = Vec::new();
                byte.push(command.address());
                assert(byte@ =~= seq![command.opcode()]);
                events.push(WireEvent::SetDc(false));
                events.push(WireEvent::SetCs(false));
                events.push(WireEvent::Write(byte));
                events.push(WireEvent::SetCs(true));
            },
            BusOp::Data(bytes) => {
                let copy = slice_to_vec(bytes.as_slice());
                events.push(WireEvent::SetDc(true));
                events.push(WireEvent::SetCs(false));
                events.push(WireEvent::Write(copy));
                events.push(WireEvent::SetCs(true));
            },
            BusOp::DataRepeated(value, repetitions) => {
                events.push(WireEvent::SetDc(true));
                let mut sent: u32 = 0;
                while sent < *repetitions
                    invariant
                        sent <= *repetitions,
                        events_view(events@) =~= seq![WireEventView::SetDc(true)]
                            + repeated_writes(*value, sent as nat),
                    decreases *repetitions - sent,
                {
                    let ghost before = events_view(events@);
                    let mut byte: Vec<u8> = Vec::new();
                    byte.push(*value);
                    assert(byte@ =~= seq![*value]);
                    events.push(WireEvent::SetCs(false));
                    events.push(WireEvent::Write(byte));
                    events.push(WireEvent::SetCs(true));
                    sent = sent + 1;
                    assert(events_view(events@) =~= before + single_write(*value));
                }
            },
            BusOp::WaitUntilIdle(is_busy_low) => {
                events.push(WireEvent::AwaitIdle(*is_busy_low));
            },
        }
        assert(events_view(events@) =~= self@.wire());
        events
    }
}

/// What a further transaction adds to the events of a sequence.
proof fn lemma_wire_all_push(ops: Seq<BusOpView>, op: BusOpView)
    ensures
        wire_all(ops.push(op)) == wire_all(ops) + op.wire(),
{
    assert(ops.push(op).drop_last() =~= ops);
}

/// Returns the pin and bus events that perform a run of transactions, in
/// the order in which the host has to carry them out.
pub fn frame_all(ops: &[BusOp]) -> (events: Vec<WireEvent>)
    ensures
        events_view(events@) == wire_all(ops_view(ops@)),
{
    let mut events: Vec<WireEvent> = Vec::new();
    let mut done: usize = 0;
    while done < ops.len()
        invariant
            done <= ops@.len(),
            events_view(events@) =~= wire_all(ops_view(ops@.take(done as int))),
        decreases ops@.len() - done,
    {
        let ghost before = events@;
        let mut framed = ops[done].frame();
        let ghost added = framed@;
        events.append(&mut framed);
        proof {
            assert(events@ =~= before + added);
            assert(events_view(events@) =~= events_view(before) + events_view(added));
            assert(ops_view(ops@.take(done + 1)) =~= ops_view(ops@.take(done as int)).push(
                ops@[done as int]@,
            ));
            lemma_wire_all_push(ops_view(ops@.take(done as int)), ops@[done as int]@);
        }
        done = done + 1;
    }
    assert(ops@.take(done as int) =~= ops@);
    events
}

/// The queue of bus transactions between a driver and its host.
pub struct DisplayInterface {
    queue: Vec<BusOp>,
}

impl View for DisplayInterface {
    type V = Seq<BusOpView>;

    /// The transactions that were issued and not yet taken, oldest first.
    closed spec fn view(&self) -> Seq<BusOpView> {
        ops_view(self.queue@)
    }
}

impl DisplayInterface {
    /// Creates an interface with nothing queued.
    pub fn new() -> (di: DisplayInterface)
        ensures
            di@ == Seq::<BusOpView>::empty(),
    {
        let di = DisplayInterface { queue: Vec::new() };
        assert(di@ =~= Seq::<BusOpView>::empty());
        di
    }

    fn issue(&mut self, op: BusOp)
        ensures
            final(self)@ == old(self)@.push(op@),
    {
        self.queue.push(op);
        assert(ops_view(self.queue@) =~= ops_view(old(self).queue@).push(op@));
    }

    /// Issues a command.
    pub fn cmd(&mut self, command: Command)
        ensures
            final(self)@ == old(self)@.push(BusOpView::Command(command)),
    {
        self.issue(BusOp::Command(command));
    }

    /// Issues the bytes of `data` as one data transfer.
    pub fn data(&mut self, data: &[u8])
        ensures
            final(self)@ == old(self)@.push(BusOpView::Data(data@)),
    {
        self.issue(BusOp::Data(slice_to_vec(data)));
    }

    /// Issues a command and the bytes of `data` as its parameters.
    pub fn cmd_with_data(&mut self, command: Command, data: &[u8])
        ensures
            final(self)@ == old(self)@.push(BusOpView::Command(command)).push(
                BusOpView::Data(data@),
            ),
    {
        self.cmd(command);
        self.data(data);
    }

    /// Issues the data byte `val`, `repetitions` times over.
    ///
    /// This fills a frame register with one value without a buffer that
    /// holds the frame.
    pub fn data_x_times(&mut self, val: u8, repetitions: u32)
        ensures
            final(self)@ == old(self)@.push(BusOpView::DataRepeated(val, repetitions)),
    {
        self.issue(BusOp::DataRepeated(val, repetitions));
    }

    /// Issues a wait until the busy line reads idle.
    pub fn wait_until_idle(&mut self, is_busy_low: bool)
        ensures
            final(self)@ == old(self)@.push(BusOpView::WaitUntilIdle(is_busy_low)),
    {
        self.issue(BusOp::WaitUntilIdle(is_busy_low));
    }

    /// Issues a pause of `ms` milliseconds.
    pub fn delay_ms(&mut self, ms: u8)
        ensures
            final(self)@ == old(self)@.push(BusOpView::DelayMs(ms)),
    {
        self.issue(BusOp::DelayMs(ms));
    }

    /// Issues a hardware reset of the controller.
    pub fn reset(&mut self)
        ensures
            final(self)@ == old(self)@.push(BusOpView::Reset),
    {
        self.issue(BusOp::Reset);
    }

    /// Hands the queued transactions to the host, oldest first, and leaves
    /// the queue empty.
    pub fn take(&mut self) -> (ops: Vec<BusOp>)
        ensures
            ops_view(ops@) == old(self)@,
            final(self)@ == Seq::<BusOpView>::empty(),
    {
        let mut ops: Vec<BusOp> = Vec::new();
        core::mem::swap(&mut ops, &mut self.queue);
        assert(ops_view(self.queue@) =~= Seq::<BusOpView>::empty());
        ops
    }

    /// Tells from one sample of the busy line whether the controller is
    /// busy. `pin_high` is the level that was read.
    pub fn is_busy(is_busy_low: bool, pin_high: bool) -> (busy: bool)
        ensures
            busy == busy_at(is_busy_low, pin_high),
    {
        is_busy_low != pin_high
    }

    /// Decides how a wait for the controller goes on after a sample of the
    /// busy line.
    ///
    /// Returns `Ok(true)` when the line reads idle and the wait is over,
    /// `Ok(false)` when the host has to sample again, and a timeout when the
    /// controller is still busy after `limit` samples. `polls` counts the
    /// samples taken so far, this one included.
    pub fn wait_step(is_busy_low: bool, pin_high: bool, polls: u32, limit: Option<u32>) -> (step:
        Result<bool, IoError>)
        ensures
            step == wait_outcome(is_busy_low, pin_high, polls, limit),
    {
        if is_busy_low == pin_high {
            Ok(true)
        } else {
            match limit {
                Some(most) => {
                    if polls >= most {
                        Err(IoError::Timeout)
                    } else {
                        Ok(false)
                    }
                },
                None => Ok(false),
            }
        }
    }
}

} // verus!
