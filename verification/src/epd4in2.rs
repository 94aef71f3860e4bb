//! The driver of the Waveshare 4.2" e-paper display.
//!
//! The panel has 400 by 300 pixels in black and white. Its controller keeps
//! two frame registers, the previous frame and the next one, and drives each
//! pixel by the waveform table that belongs to the pair of its old and new
//! color.
//!
//! Wherever a buffer is handed to the driver it holds `width / 8 * height`
//! bytes, where width and height are those of the panel or of the window of
//! a partial update.
//!
//! Every operation queues the bus transactions that carry it out. They
//! reach the controller when the host takes them with
//! [`EPD4in2::take_pending`] and performs them in order.

use crate::color::Color;
use crate::command::Command;
use crate::error::DriverError;
use crate::interface::{payloads, wire_all, written, BusOp, BusOpView, DisplayInterface};
use crate::refresh::RefreshLUT;
use vstd::prelude::*;

pub mod constants;
pub mod graphics;

use constants::{
    LUT_BB, LUT_BB_QUICK, LUT_BW, LUT_BW_QUICK, LUT_VCOM0, LUT_VCOM0_QUICK, LUT_WB, LUT_WB_QUICK,
    LUT_WW, LUT_WW_QUICK,
};

verus! {

/// Width of the panel in pixels.
pub const WIDTH: u32 = 400;

/// Height of the panel in pixels.
pub const HEIGHT: u32 = 300;

/// The color of a panel that shows nothing.
pub const DEFAULT_BACKGROUND_COLOR: Color = Color::White;

/// The controller signals busy with a low level on the busy line.
pub const IS_BUSY_LOW: bool = true;

/// The number of bytes in a full frame.
pub const FRAME_BYTES: u32 = WIDTH / 8 * HEIGHT;

/// The byte that follows the deep sleep command to confirm it.
pub const DEEP_SLEEP_CHECK: u8 = 0xA5;

/// The two bytes of a sixteen bit value, high byte first.
pub open spec fn be16(value: int) -> Seq<u8> {
    seq![(value / 256 % 256) as u8, (value % 256) as u8]
}

/// A run of data transfers of one byte each.
pub open spec fn single_bytes(bytes: Seq<u8>) -> Seq<BusOpView> {
    Seq::new(bytes.len(), |i: int| BusOpView::Data(seq![bytes[i]]))
}

/// A wait for the busy line of this controller.
pub open spec fn wait() -> BusOpView {
    BusOpView::WaitUntilIdle(IS_BUSY_LOW)
}

/// The transactions that load five waveform tables.
pub open spec fn lut_sequence(
    vcom: Seq<u8>,
    ww: Seq<u8>,
    bw: Seq<u8>,
    wb: Seq<u8>,
    bb: Seq<u8>,
) -> Seq<BusOpView> {
    seq![
        BusOpView::Command(Command::LUT_FOR_VCOM),
        BusOpView::Data(vcom),
        BusOpView::Command(Command::LUT_WHITE_TO_WHITE),
        BusOpView::Data(ww),
        BusOpView::Command(Command::LUT_BLACK_TO_WHITE),
        BusOpView::Data(bw),
        BusOpView::Command(Command::LUT_WHITE_TO_BLACK),
        BusOpView::Data(wb),
        BusOpView::Command(Command::LUT_BLACK_TO_BLACK),
        BusOpView::Data(bb),
        wait(),
    ]
}

/// The transactions that load the waveform bundle of a refresh mode.
pub open spec fn lut_tables(refresh: RefreshLUT) -> Seq<BusOpView> {
    match refresh {
        RefreshLUT::FULL => lut_sequence(LUT_VCOM0@, LUT_WW@, LUT_BW@, LUT_WB@, LUT_BB@),
        RefreshLUT::QUICK => lut_sequence(
            LUT_VCOM0_QUICK@,
            LUT_WW_QUICK@,
            LUT_BW_QUICK@,
            LUT_WB_QUICK@,
            LUT_BB_QUICK@,
        ),
    }
}

/// The transactions that bring the controller up: reset, power and booster
/// settings, power on, panel and clock settings, the waveform tables.
pub open spec fn init_sequence(refresh: RefreshLUT) -> Seq<BusOpView> {
    seq![
        BusOpView::Reset,
        BusOpView::Command(Command::POWER_SETTING),
        BusOpView::Data(seq![0x03u8, 0x00u8, 0x2bu8, 0x2bu8, 0xffu8]),
        BusOpView::Command(Command::BOOSTER_SOFT_START),
        BusOpView::Data(seq![0x17u8, 0x17u8, 0x17u8]),
        BusOpView::Command(Command::POWER_ON),
        BusOpView::DelayMs(5),
        wait(),
        BusOpView::Command(Command::PANEL_SETTING),
        BusOpView::Data(seq![0x3Fu8]),
        BusOpView::Command(Command::PLL_CONTROL),
        BusOpView::Data(seq![0x3Au8]),
    ] + lut_tables(refresh) + seq![wait()]
}

/// The transactions that put the controller into deep sleep: the border is
/// left floating, the rails are brought to zero and switched off, and the
/// deep sleep command is confirmed by its check byte.
pub open spec fn sleep_sequence() -> Seq<BusOpView> {
    seq![
        BusOpView::Command(Command::VCOM_AND_DATA_INTERVAL_SETTING),
        BusOpView::Data(seq![0x17u8]),
        BusOpView::Command(Command::VCM_DC_SETTING),
        BusOpView::Command(Command::PANEL_SETTING),
        BusOpView::Command(Command::POWER_SETTING),
    ] + single_bytes(seq![0x00u8, 0x00u8, 0x00u8, 0x00u8]) + seq![
        BusOpView::Command(Command::POWER_OFF),
        wait(),
        BusOpView::Command(Command::DEEP_SLEEP),
        BusOpView::Data(seq![DEEP_SLEEP_CHECK]),
        wait(),
    ]
}

/// The transactions that tell the controller the size of the panel: width
/// and height, each as sixteen bits with the high byte first.
pub open spec fn resolution_sequence() -> Seq<BusOpView> {
    seq![BusOpView::Command(Command::RESOLUTION_SETTING)] + single_bytes(
        be16(WIDTH as int) + be16(HEIGHT as int),
    )
}

/// The transactions that load a full frame: the previous frame register is
/// filled with the background color, the next one receives `buffer`.
pub open spec fn update_frame_sequence(color: Color, buffer: Seq<u8>) -> Seq<BusOpView> {
    resolution_sequence() + seq![
        BusOpView::Command(Command::VCM_DC_SETTING),
        BusOpView::Data(seq![0x12u8]),
        BusOpView::Command(Command::VCOM_AND_DATA_INTERVAL_SETTING),
        BusOpView::Data(seq![0x97u8]),
        BusOpView::Command(Command::DATA_START_TRANSMISSION_1),
        BusOpView::DataRepeated(color.byte(), FRAME_BYTES),
        BusOpView::Command(Command::DATA_START_TRANSMISSION_2),
        BusOpView::Data(buffer),
        wait(),
    ]
}

/// The transactions that load a frame of the background color: those of a
/// full frame, with the next frame register filled like the previous one
/// in place of a buffer.
pub open spec fn clear_frame_sequence(color: Color) -> Seq<BusOpView> {
    resolution_sequence() + seq![
        BusOpView::Command(Command::VCM_DC_SETTING),
        BusOpView::Data(seq![0x12u8]),
        BusOpView::Command(Command::VCOM_AND_DATA_INTERVAL_SETTING),
        BusOpView::Data(seq![0x97u8]),
        BusOpView::Command(Command::DATA_START_TRANSMISSION_1),
        BusOpView::DataRepeated(color.byte(), FRAME_BYTES),
        BusOpView::Command(Command::DATA_START_TRANSMISSION_2),
        BusOpView::DataRepeated(color.byte(), FRAME_BYTES),
        wait(),
    ]
}

/// The transactions that make the panel show the loaded frame.
pub open spec fn display_frame_sequence() -> Seq<BusOpView> {
    seq![BusOpView::Command(Command::DISPLAY_REFRESH), wait()]
}

/// Whether a partial update is consistent: the window is not empty and lies
/// on the panel, and the buffer holds `width / 8` bytes for each of its rows.
pub open spec fn window_fits(buffer_len: nat, x: u32, y: u32, width: u32, height: u32) -> bool {
    &&& width > 0
    &&& height > 0
    &&& x + width <= WIDTH
    &&& y + height <= HEIGHT
    &&& buffer_len == width / 8 * height
}

/// The left edge of the window that the controller updates for a window
/// that starts at `x`: the controller works in columns of eight pixels, so
/// the edge moves left to the start of its column.
pub open spec fn window_left(x: int) -> int {
    x - x % 8
}

/// The right edge of the window that the controller updates for a window of
/// `width` pixels that starts at `x`: the last pixel moves right to the end
/// of its column of eight.
pub open spec fn window_right(x: int, width: int) -> int {
    (x + width - 1) - (x + width - 1) % 8 + 7
}

/// The parameter bytes of the partial window command: left edge, right
/// edge, first row and last row, each as sixteen bits with the high byte
/// first, and the flag that keeps the gates scanning outside the window.
pub open spec fn partial_window(x: int, y: int, width: int, height: int) -> Seq<u8> {
    be16(window_left(x)) + be16(window_right(x, width)) + be16(y) + be16(y + height - 1)
        + seq![0x01u8]
}

/// The transactions that load `buffer` into the window of a partial update.
pub open spec fn update_partial_frame_sequence(
    buffer: Seq<u8>,
    x: u32,
    y: u32,
    width: u32,
    height: u32,
) -> Seq<BusOpView> {
    seq![BusOpView::Command(Command::PARTIAL_IN), BusOpView::Command(Command::PARTIAL_WINDOW)]
        + single_bytes(partial_window(x as int, y as int, width as int, height as int)) + seq![
        BusOpView::Command(Command::DATA_START_TRANSMISSION_2),
        BusOpView::Data(buffer),
        BusOpView::Command(Command::PARTIAL_OUT),
        wait(),
    ]
}

/// The commands among a sequence of transactions, in order.
pub open spec fn commands_of(ops: Seq<BusOpView>) -> Seq<Command>
    decreases ops.len(),
{
    if ops.len() == 0 {
        Seq::empty()
    } else {
        match ops.last() {
            BusOpView::Command(command) => commands_of(ops.drop_last()).push(command),
            _ => commands_of(ops.drop_last()),
        }
    }
}

/// What a transaction adds to the commands of a sequence.
proof fn lemma_commands_of_push(ops: Seq<BusOpView>, op: BusOpView)
    ensures
        commands_of(ops.push(op)) == (match op {
            BusOpView::Command(command) => commands_of(ops).push(command),
            _ => commands_of(ops),
        }),
{
    assert(ops.push(op).drop_last() =~= ops);
}

/// Once a sleep is queued, the last two commands of everything queued are
/// power off and deep sleep. The driver waits for the controller between
/// the two, and the check byte follows the deep sleep command.
pub proof fn lemma_sleep_ends_in_deep_sleep(before: Seq<BusOpView>)
    ensures
        ({
            let queued = before + sleep_sequence();
            let commands = commands_of(queued);
            &&& queued.len() >= 5
            &&& queued.subrange(queued.len() - 5, queued.len() as int) == seq![
                BusOpView::Command(Command::POWER_OFF),
                wait(),
                BusOpView::Command(Command::DEEP_SLEEP),
                BusOpView::Data(seq![0xA5u8]),
                wait(),
            ]
            &&& commands.len() >= 2
            &&& commands[commands.len() - 2] == Command::POWER_OFF
            &&& commands[commands.len() - 1] == Command::DEEP_SLEEP
        }),
{
    let queued = before + sleep_sequence();
    let head = queued.take(queued.len() - 5);
    let tail = seq![
        BusOpView::Command(Command::POWER_OFF),
        wait(),
        BusOpView::Command(Command::DEEP_SLEEP),
        BusOpView::Data(seq![0xA5u8]),
        wait(),
    ];
    assert(queued.subrange(queued.len() - 5, queued.len() as int) =~= tail);
    assert(queued =~= head.push(tail[0]).push(tail[1]).push(tail[2]).push(tail[3]).push(tail[4]));
    lemma_commands_of_push(head, tail[0]);
    lemma_commands_of_push(head.push(tail[0]), tail[1]);
    lemma_commands_of_push(head.push(tail[0]).push(tail[1]), tail[2]);
    lemma_commands_of_push(head.push(tail[0]).push(tail[1]).push(tail[2]), tail[3]);
    lemma_commands_of_push(head.push(tail[0]).push(tail[1]).push(tail[2]).push(tail[3]), tail[4]);
}

/// The window that a partial update sends to the controller is aligned to
/// columns of eight pixels: the low three bits of its left edge are zero and
/// those of its right edge are one. It holds the window that was asked for
/// and reaches less than one column beyond it on either side.
pub proof fn lemma_partial_window_aligned(x: int, y: int, width: int, height: int)
    requires
        0 <= x,
        1 <= width,
    ensures
        window_left(x) % 8 == 0,
        window_right(x, width) % 8 == 7,
        x - 8 < window_left(x) <= x,
        x + width - 1 <= window_right(x, width) < x + width + 7,
        partial_window(x, y, width, height).len() == 9,
        partial_window(x, y, width, height)[1] & 0x07 == 0x00,
        partial_window(x, y, width, height)[3] & 0x07 == 0x07,
{
    let left_low = (window_left(x) % 256) as u8;
    let right_low = (window_right(x, width) % 256) as u8;
    assert(left_low % 8 == 0);
    assert(right_low % 8 == 7);
    assert(left_low & 0x07 == 0x00) by (bit_vector)
        requires
            left_low % 8 == 0,
    ;
    assert(right_low & 0x07 == 0x07) by (bit_vector)
        requires
            right_low % 8 == 7,
    ;
}

/// What a further transaction adds to the bytes of a sequence.
proof fn lemma_payloads_push(ops: Seq<BusOpView>, op: BusOpView)
    ensures
        payloads(ops.push(op)) == payloads(ops) + op.payload(),
{
    assert(ops.push(op).drop_last() =~= ops);
}

/// A clear is the full upload of a frame of the background color. The
/// transactions are those of the upload, but for the payload of the next
/// frame, which is the background byte repeated in place of a buffer that
/// holds it; and the bytes that reach the bus are the same.
pub proof fn lemma_clear_is_upload_of_background(color: Color)
    ensures
        ({
            let fill = Seq::new(FRAME_BYTES as nat, |i: int| color.byte());
            let upload = update_frame_sequence(color, fill);
            &&& upload.len() == 14
            &&& clear_frame_sequence(color) == upload.update(
                12,
                BusOpView::DataRepeated(color.byte(), FRAME_BYTES),
            )
            &&& written(wire_all(clear_frame_sequence(color))) == written(wire_all(upload))
        }),
{
    let fill = Seq::new(FRAME_BYTES as nat, |i: int| color.byte());
    let upload = update_frame_sequence(color, fill);
    let clear = clear_frame_sequence(color);
    let repeated = BusOpView::DataRepeated(color.byte(), FRAME_BYTES);
    assert(clear =~= upload.update(12, repeated));
    let common = upload.take(12);
    assert(upload =~= common.push(BusOpView::Data(fill)).push(wait()));
    assert(clear =~= common.push(repeated).push(wait()));
    lemma_payloads_push(common, BusOpView::Data(fill));
    lemma_payloads_push(common.push(BusOpView::Data(fill)), wait());
    lemma_payloads_push(common, repeated);
    lemma_payloads_push(common.push(repeated), wait());
    assert(repeated.payload() =~= fill);
    crate::interface::lemma_wire_all_writes_payloads(clear);
    crate::interface::lemma_wire_all_writes_payloads(upload);
}

/// Returns the high byte of the low sixteen bits of `value`.
fn high_byte(value: u32) -> (byte: u8)
    ensures
        byte == (value / 256 % 256) as u8,
{
    assert((value >> 8) & 0xff == value / 256 % 256) by (bit_vector);
    ((value >> 8) & 0xff) as u8
}

/// Returns the low byte of `value`.
fn low_byte(value: u32) -> (byte: u8)
    ensures
        byte == (value % 256) as u8,
{
    assert(value & 0xff == value % 256) by (bit_vector);
    (value & 0xff) as u8
}

/// The window that the controller updates starts in the column of eight
/// pixels that holds `x`: the high byte of the left edge is that of `x`, and
/// its low byte is that of `x` without its low three bits.
proof fn lemma_left_edge(x: u32)
    ensures
        window_left(x as int) / 256 % 256 == x / 256 % 256,
        window_left(x as int) % 256 == ((x % 256) as u8 & 0xf8u8),
{
    let low = (x % 256) as u8;
    assert(low & 0xf8u8 == low - low % 8) by (bit_vector);
}

/// The window that the controller updates ends in the column of eight
/// pixels that holds the last pixel `last` of a row: the high byte of the
/// right edge is that of `last`, and its low byte is that of `last` with its
/// low three bits set.
proof fn lemma_right_edge(x: u32, width: u32, last: u32)
    requires
        last == x + width - 1,
    ensures
        window_right(x as int, width as int) / 256 % 256 == last / 256 % 256,
        window_right(x as int, width as int) % 256 == ((last % 256) as u8 | 0x07u8),
{
    let low = (last % 256) as u8;
    assert(low | 0x07u8 == low - low % 8 + 7) by (bit_vector);
}

/// Returns the parameter bytes of the partial window command for a window
/// that lies on the panel.
fn window_bytes(x: u32, y: u32, width: u32, height: u32) -> (bytes: [u8; 9])
    requires
        width > 0,
        height > 0,
        x + width <= WIDTH,
        y + height <= HEIGHT,
    ensures
        bytes@ == partial_window(x as int, y as int, width as int, height as int),
{
    let last_column = x + width - 1;
    let last_row = y + height - 1;
    proof {
        lemma_left_edge(x);
        lemma_right_edge(x, width, last_column);
    }
    let bytes = [
        high_byte(x),
        // the controller ignores the low three bits of the left edge
        low_byte(x) & 0xf8,
        high_byte(last_column),
        // and takes the low three bits of the right edge as set
        low_byte(last_column) | 0x07,
        high_byte(y),
        low_byte(y),
        high_byte(last_row),
        low_byte(last_row),
        // gates scan both inside and outside of the partial window
        0x01,
    ];
    assert(bytes@ =~= partial_window(x as int, y as int, width as int, height as int));
    bytes
}

/// Where the controller stands once everything queued has been performed.
#[derive(Clone, Copy, Debug, PartialEq, Eq, Structural)]
pub enum DriverState {
    /// Initialised and idle. The panel shows the frame of the last refresh.
    Ready,
    /// A frame was uploaded that the panel does not show yet.
    BufferLoaded,
    /// In deep sleep, until it is woken up.
    Sleeping,
}

/// What the driver remembers between requests.
pub struct Settings {
    /// The background color.
    pub color: Color,
    /// The waveform bundle in use.
    pub refresh: RefreshLUT,
    /// Where the controller stands.
    pub state: DriverState,
}

/// A request to the driver, as contracts speak of it.
pub enum Request {
    /// Initialise the controller again.
    WakeUp,
    /// Put the controller into deep sleep.
    Sleep,
    /// Upload the buffer as a full frame.
    UpdateFrame(Seq<u8>),
    /// Upload the buffer into the window at `x`, `y` of `width` by `height`
    /// pixels, in this order.
    UpdatePartialFrame(Seq<u8>, u32, u32, u32, u32),
    /// Refresh the panel.
    DisplayFrame,
    /// Upload a frame of the background color.
    ClearFrame,
    /// Change the background color.
    SetBackgroundColor(Color),
    /// Select a waveform bundle, if one is given, and load the one in use.
    SetLut(Option<RefreshLUT>),
}

impl Request {
    /// Whether the driver accepts the request, and why not if it does not.
    ///
    /// In deep sleep the controller can only be woken up, so everything
    /// else that would reach it is rejected. A partial update is rejected
    /// if its window and buffer are inconsistent.
    pub open spec fn verdict(self, at: Settings) -> Result<(), DriverError> {
        match self {
            Request::WakeUp => Ok(()),
            Request::SetBackgroundColor(_) => Ok(()),
            Request::UpdatePartialFrame(buffer, x, y, width, height) => {
                if at.state == DriverState::Sleeping {
                    Err(DriverError::State)
                } else if !window_fits(buffer.len(), x, y, width, height) {
                    Err(DriverError::Geometry)
                } else {
                    Ok(())
                }
            },
            _ => {
                if at.state == DriverState::Sleeping {
                    Err(DriverError::State)
                } else {
                    Ok(())
                }
            },
        }
    }

    /// The transactions that the driver queues for the request. A request
    /// that is rejected queues nothing.
    pub open spec fn emits(self, at: Settings) -> Seq<BusOpView> {
        if self.verdict(at) is Err {
            Seq::empty()
        } else {
            match self {
                Request::WakeUp => init_sequence(at.refresh),
                Request::Sleep => sleep_sequence(),
                Request::UpdateFrame(buffer) => update_frame_sequence(at.color, buffer),
                Request::UpdatePartialFrame(buffer, x, y, width, height) => {
                    update_partial_frame_sequence(buffer, x, y, width, height)
                },
                Request::DisplayFrame => display_frame_sequence(),
                Request::ClearFrame => clear_frame_sequence(at.color),
                Request::SetBackgroundColor(_) => Seq::empty(),
                Request::SetLut(choice) => lut_tables(self.leaves(at).refresh),
            }
        }
    }

    /// What the driver remembers after the request. A request that is
    /// rejected changes nothing.
    pub open spec fn leaves(self, at: Settings) -> Settings {
        if self.verdict(at) is Err {
            at
        } else {
            match self {
                Request::WakeUp => Settings { state: DriverState::Ready, ..at },
                Request::Sleep => Settings { state: DriverState::Sleeping, ..at },
                Request::UpdateFrame(_) => Settings { state: DriverState::BufferLoaded, ..at },
                Request::UpdatePartialFrame(_, _, _, _, _) => Settings {
                    state: DriverState::BufferLoaded,
                    ..at
                },
                Request::DisplayFrame => Settings { state: DriverState::Ready, ..at },
                Request::ClearFrame => Settings { state: DriverState::BufferLoaded, ..at },
                Request::SetBackgroundColor(color) => Settings { color: color, ..at },
                Request::SetLut(choice) => Settings {
                    refresh: match choice {
                        Some(refresh) => refresh,
                        None => at.refresh,
                    },
                    ..at
                },
            }
        }
    }
}

/// Everything that the driver queues for a run of requests, starting from
/// what it remembers at first.
pub open spec fn transcript(at: Settings, requests: Seq<Request>) -> Seq<BusOpView>
    decreases requests.len(),
{
    if requests.len() == 0 {
        Seq::empty()
    } else {
        requests[0].emits(at) + transcript(requests[0].leaves(at), requests.skip(1))
    }
}

/// What the driver remembers after a run of requests.
pub open spec fn settled(at: Settings, requests: Seq<Request>) -> Settings
    decreases requests.len(),
{
    if requests.len() == 0 {
        at
    } else {
        settled(requests[0].leaves(at), requests.skip(1))
    }
}

/// The transactions of a run of requests are those of each request, in the
/// order of the requests: what is queued for a run that goes on after
/// another is what was queued for the first, followed by what is queued for
/// the second from where the first ended.
pub proof fn lemma_transcript_in_order(at: Settings, earlier: Seq<Request>, later: Seq<Request>)
    ensures
        transcript(at, earlier + later) == transcript(at, earlier) + transcript(
            settled(at, earlier),
            later,
        ),
        settled(at, earlier + later) == settled(settled(at, earlier), later),
    decreases earlier.len(),
{
    if earlier.len() == 0 {
        assert(earlier + later =~= later);
        assert(transcript(at, earlier) + transcript(at, later) =~= transcript(at, later));
    } else {
        let first = earlier[0];
        assert((earlier + later)[0] == first);
        assert((earlier + later).skip(1) =~= earlier.skip(1) + later);
        lemma_transcript_in_order(first.leaves(at), earlier.skip(1), later);
        assert(transcript(at, earlier + later) =~= transcript(at, earlier) + transcript(
            settled(at, earlier),
            later,
        ));
    }
}

/// A controller in deep sleep stays as it is until it is woken up: as long
/// as no request wakes it, nothing is queued, and it is still asleep.
pub proof fn lemma_asleep_until_woken(at: Settings, requests: Seq<Request>)
    requires
        at.state == DriverState::Sleeping,
        forall|i: int| 0 <= i < requests.len() ==> requests[i] != Request::WakeUp,
    ensures
        transcript(at, requests) == Seq::<BusOpView>::empty(),
        settled(at, requests).state == DriverState::Sleeping,
        settled(at, requests).refresh == at.refresh,
    decreases requests.len(),
{
    if requests.len() > 0 {
        let first = requests[0];
        assert(first != Request::WakeUp);
        assert(first.emits(at) =~= Seq::<BusOpView>::empty());
        assert forall|i: int| 0 <= i < requests.skip(1).len() implies requests.skip(1)[i]
            != Request::WakeUp by {
            assert(requests.skip(1)[i] == requests[i + 1]);
        }
        lemma_asleep_until_woken(first.leaves(at), requests.skip(1));
        assert(transcript(at, requests) =~= Seq::<BusOpView>::empty());
    }
}

/// The driver of the 4.2" panel.
pub struct EPD4in2 {
    /// The queue of transactions for the host.
    di: DisplayInterface,
    /// The background color.
    color: Color,
    /// The waveform bundle in use.
    refresh: RefreshLUT,
    /// Where the controller stands.
    state: DriverState,
}

impl EPD4in2 {
    /// The transactions that were queued and not yet taken by the host,
    /// oldest first.
    pub closed spec fn pending(&self) -> Seq<BusOpView> {
        self.di@
    }

    /// The background color.
    pub closed spec fn color(&self) -> Color {
        self.color
    }

    /// The waveform bundle in use.
    pub closed spec fn refresh(&self) -> RefreshLUT {
        self.refresh
    }

    /// Where the controller stands once everything queued has been performed.
    pub closed spec fn state(&self) -> DriverState {
        self.state
    }

    /// Whether the controller was put into deep sleep and not woken up since.
    pub open spec fn asleep(&self) -> bool {
        self.state() == DriverState::Sleeping
    }

    /// What the driver remembers between requests.
    pub open spec fn settings(&self) -> Settings {
        Settings { color: self.color(), refresh: self.refresh(), state: self.state() }
    }

    /// Whether this is the driver that `before` becomes by a request with
    /// the given result: the result is the verdict on the request, the
    /// queue has grown by what the request emits, and the driver remembers
    /// what the request leaves.
    pub open spec fn follows(
        &self,
        before: &EPD4in2,
        request: Request,
        result: Result<(), DriverError>,
    ) -> bool {
        &&& result == request.verdict(before.settings())
        &&& self.pending() == before.pending() + request.emits(before.settings())
        &&& self.settings() == request.leaves(before.settings())
    }

    /// Creates the driver and queues the initialisation of the controller.
    ///
    /// The driver starts awake, with the white background and the full
    /// refresh waveforms.
    pub fn new() -> (epd: EPD4in2)
        ensures
            epd.pending() == init_sequence(RefreshLUT::FULL),
            epd.color() == DEFAULT_BACKGROUND_COLOR,
            epd.refresh() == RefreshLUT::FULL,
            epd.state() == DriverState::Ready,
    {
        let mut epd = EPD4in2 {
            di: DisplayInterface::new(),
            color: DEFAULT_BACKGROUND_COLOR,
            refresh: RefreshLUT::FULL,
            state: DriverState::Ready,
        };
        epd.init();
        assert(epd.pending() =~= init_sequence(RefreshLUT::FULL));
        epd
    }

    /// Queues the initialisation of the controller with the waveform bundle
    /// in use, and marks the controller as awake.
    pub fn init(&mut self)
        ensures
            final(self).follows(old(self), Request::WakeUp, Ok(())),
            final(self).pending() == old(self).pending() + init_sequence(old(self).refresh()),
            final(self).color() == old(self).color(),
            final(self).refresh() == old(self).refresh(),
            final(self).state() == DriverState::Ready,
    {
        self.state = DriverState::Ready;

        // reset the device
        self.di.reset();

        // set the power settings
        let power = [0x03u8, 0x00u8, 0x2bu8, 0x2bu8, 0xffu8];
        assert(power@ =~= seq![0x03u8, 0x00u8, 0x2bu8, 0x2bu8, 0xffu8]);
        self.di.cmd_with_data(Command::POWER_SETTING, power.as_slice());

        // start the booster
        let booster = [0x17u8, 0x17u8, 0x17u8];
        assert(booster@ =~= seq![0x17u8, 0x17u8, 0x17u8]);
        self.di.cmd_with_data(Command::BOOSTER_SOFT_START, booster.as_slice());

        // power on
        self.di.cmd(Command::POWER_ON);
        self.di.delay_ms(5);
        self.wait_until_idle();

        // set the panel settings
        self.command_with_byte(Command::PANEL_SETTING, 0x3F);

        // set the frame rate to 100 Hz
        self.command_with_byte(Command::PLL_CONTROL, 0x3A);

        let ghost before_tables = self.pending();
        self.load_lut();

        self.wait_until_idle();
        assert(before_tables =~= old(self).pending() + init_sequence(old(self).refresh()).take(12));
        assert(self.pending() =~= old(self).pending() + init_sequence(old(self).refresh()));
    }

    /// Queues the initialisation of the controller again. This is the way
    /// out of deep sleep.
    pub fn wake_up(&mut self)
        ensures
            final(self).follows(old(self), Request::WakeUp, Ok(())),
            final(self).pending() == old(self).pending() + init_sequence(old(self).refresh()),
            final(self).color() == old(self).color(),
            final(self).refresh() == old(self).refresh(),
            final(self).state() == DriverState::Ready,
    {
        self.init()
    }

    /// Queues the transactions that put the controller into deep sleep.
    ///
    /// Afterwards the driver accepts nothing but [`EPD4in2::wake_up`]. On a
    /// driver that is asleep already this fails and queues nothing.
    pub fn sleep(&mut self) -> (result: Result<(), DriverError>)
        ensures
            final(self).follows(old(self), Request::Sleep, result),
            final(self).color() == old(self).color(),
            final(self).refresh() == old(self).refresh(),
            final(self).asleep(),
            old(self).asleep() ==> result == Err::<(), DriverError>(DriverError::State)
                && final(self).pending() == old(self).pending(),
            !old(self).asleep() ==> result == Ok::<(), DriverError>(())
                && final(self).pending() == old(self).pending() + sleep_sequence(),
    {
        if self.state == DriverState::Sleeping {
            return Err(DriverError::State);
        }
        // border floating
        self.command_with_byte(Command::VCOM_AND_DATA_INTERVAL_SETTING, 0x17);
        // common electrode to 0V
        self.di.cmd(Command::VCM_DC_SETTING);
        self.di.cmd(Command::PANEL_SETTING);

        // gate and source rails to 0V, fast
        self.di.cmd(Command::POWER_SETTING);
        let mut sent: usize = 0;
        while sent < 4
            invariant
                sent <= 4,
                self.settings() == old(self).settings(),
                self.pending() =~= old(self).pending() + sleep_sequence().take(5 + sent),
            decreases 4 - sent,
        {
            self.data_byte(0x00);
            sent = sent + 1;
        }

        self.di.cmd(Command::POWER_OFF);
        self.wait_until_idle();
        self.command_with_byte(Command::DEEP_SLEEP, DEEP_SLEEP_CHECK);

        self.wait_until_idle();
        self.state = DriverState::Sleeping;
        assert(self.pending() =~= old(self).pending() + sleep_sequence());
        Ok(())
    }

    /// Queues the upload of a full frame.
    ///
    /// The frame is not shown until [`EPD4in2::display_frame`] refreshes the
    /// panel. On a driver that is asleep this fails and queues nothing.
    pub fn update_frame(&mut self, buffer: &[u8]) -> (result: Result<(), DriverError>)
        ensures
            final(self).follows(old(self), Request::UpdateFrame(buffer@), result),
            final(self).color() == old(self).color(),
            final(self).refresh() == old(self).refresh(),
            final(self).state() == (if old(self).asleep() {
                DriverState::Sleeping
            } else {
                DriverState::BufferLoaded
            }),
            old(self).asleep() ==> result == Err::<(), DriverError>(DriverError::State)
                && final(self).pending() == old(self).pending(),
            !old(self).asleep() ==> result == Ok::<(), DriverError>(())
                && final(self).pending() == old(self).pending() + update_frame_sequence(
                old(self).color(),
                buffer@,
            ),
    {
        if self.state == DriverState::Sleeping {
            return Err(DriverError::State);
        }
        let color_value = self.color.get_byte_value();

        self.send_resolution();

        self.command_with_byte(Command::VCM_DC_SETTING, 0x12);

        // white border
        self.command_with_byte(Command::VCOM_AND_DATA_INTERVAL_SETTING, 0x97);

        self.di.cmd(Command::DATA_START_TRANSMISSION_1);
        self.di.data_x_times(color_value, FRAME_BYTES);

        self.di.cmd_with_data(Command::DATA_START_TRANSMISSION_2, buffer);

        self.wait_until_idle();
        self.state = DriverState::BufferLoaded;
        assert(self.pending() =~= old(self).pending() + update_frame_sequence(
            old(self).color(),
            buffer@,
        ));
        Ok(())
    }

    /// Queues the upload of `buffer` into the window of `width` by `height`
    /// pixels whose upper left corner is at (`x`, `y`).
    ///
    /// The controller updates whole columns of eight pixels: it takes the
    /// left edge of the window down to a multiple of eight and the right
    /// edge up to the end of its column.
    ///
    /// On a driver that is asleep this fails with a state error. Otherwise
    /// it fails with a geometry error unless the window is not empty, lies
    /// on the panel, and `buffer` holds `width / 8 * height` bytes. A call
    /// that fails queues nothing.
    pub fn update_partial_frame(
        &mut self,
        buffer: &[u8],
        x: u32,
        y: u32,
        width: u32,
        height: u32,
    ) -> (result: Result<(), DriverError>)
        ensures
            final(self).follows(
                old(self),
                Request::UpdatePartialFrame(buffer@, x, y, width, height),
                result,
            ),
            final(self).color() == old(self).color(),
            final(self).refresh() == old(self).refresh(),
            result is Err ==> final(self).state() == old(self).state(),
            result is Ok ==> final(self).state() == DriverState::BufferLoaded,
            old(self).asleep() ==> result == Err::<(), DriverError>(DriverError::State),
            !old(self).asleep() && !window_fits(buffer@.len(), x, y, width, height) ==> result
                == Err::<(), DriverError>(DriverError::Geometry),
            !old(self).asleep() && window_fits(buffer@.len(), x, y, width, height) ==> result
                == Ok::<(), DriverError>(()),
            result is Err ==> final(self).pending() == old(self).pending(),
            result is Ok ==> final(self).pending() == old(self).pending()
                + update_partial_frame_sequence(buffer@, x, y, width, height),
    {
        if self.state == DriverState::Sleeping {
            return Err(DriverError::State);
        }
        if width == 0 || height == 0 || x > WIDTH || width > WIDTH - x || y > HEIGHT || height
            > HEIGHT - y {
            return Err(DriverError::Geometry);
        }
        assert(width / 8 * height <= 50 * 300) by (nonlinear_arith)
            requires
                width <= 400,
                height <= 300,
        ;
        if buffer.len() != (width / 8 * height) as usize {
            return Err(DriverError::Geometry);
        }
        self.di.cmd(Command::PARTIAL_IN);
        self.di.cmd(Command::PARTIAL_WINDOW);
        let ghost before = self.pending();
        let window = window_bytes(x, y, width, height);
        let mut sent: usize = 0;
        while sent < 9
            invariant
                sent <= 9,
                window@.len() == 9,
                self.settings() == old(self).settings(),
                self.pending() =~= before + single_bytes(window@).take(sent as int),
            decreases 9 - sent,
        {
            self.data_byte(window[sent]);
            sent = sent + 1;
        }
        assert(single_bytes(window@).take(9) =~= single_bytes(window@));

        self.di.cmd(Command::DATA_START_TRANSMISSION_2);
        self.di.data(buffer);

        self.di.cmd(Command::PARTIAL_OUT);

        self.wait_until_idle();
        self.state = DriverState::BufferLoaded;
        assert(self.pending() =~= old(self).pending() + update_partial_frame_sequence(
            buffer@,
            x,
            y,
            width,
            height,
        ));
        Ok(())
    }

    /// Queues the refresh that makes the panel show the loaded frame.
    ///
    /// On a driver that is asleep this fails and queues nothing.
    pub fn display_frame(&mut self) -> (result: Result<(), DriverError>)
        ensures
            final(self).follows(old(self), Request::DisplayFrame, result),
            final(self).color() == old(self).color(),
            final(self).refresh() == old(self).refresh(),
            final(self).state() == (if old(self).asleep() {
                DriverState::Sleeping
            } else {
                DriverState::Ready
            }),
            old(self).asleep() ==> result == Err::<(), DriverError>(DriverError::State)
                && final(self).pending() == old(self).pending(),
            !old(self).asleep() ==> result == Ok::<(), DriverError>(())
                && final(self).pending() == old(self).pending() + display_frame_sequence(),
    {
        if self.state == DriverState::Sleeping {
            return Err(DriverError::State);
        }
        self.di.cmd(Command::DISPLAY_REFRESH);

        self.wait_until_idle();
        self.state = DriverState::Ready;
        assert(self.pending() =~= old(self).pending() + display_frame_sequence());
        Ok(())
    }

    /// Queues the upload of a frame that shows the background color only.
    ///
    /// On a driver that is asleep this fails and queues nothing.
    pub fn clear_frame(&mut self) -> (result: Result<(), DriverError>)
        ensures
            final(self).follows(old(self), Request::ClearFrame, result),
            final(self).color() == old(self).color(),
            final(self).refresh() == old(self).refresh(),
            final(self).state() == (if old(self).asleep() {
                DriverState::Sleeping
            } else {
                DriverState::BufferLoaded
            }),
            old(self).asleep() ==> result == Err::<(), DriverError>(DriverError::State)
                && final(self).pending() == old(self).pending(),
            !old(self).asleep() ==> result == Ok::<(), DriverError>(())
                && final(self).pending() == old(self).pending() + clear_frame_sequence(
                old(self).color(),
            ),
    {
        if self.state == DriverState::Sleeping {
            return Err(DriverError::State);
        }
        let color_value = self.color.get_byte_value();

        self.send_resolution();

        self.command_with_byte(Command::VCM_DC_SETTING, 0x12);

        // white border
        self.command_with_byte(Command::VCOM_AND_DATA_INTERVAL_SETTING, 0x97);

        self.di.cmd(Command::DATA_START_TRANSMISSION_1);
        self.di.data_x_times(color_value, FRAME_BYTES);

        self.di.cmd(Command::DATA_START_TRANSMISSION_2);
        self.di.data_x_times(color_value, FRAME_BYTES);

        self.wait_until_idle();
        self.state = DriverState::BufferLoaded;
        assert(self.pending() =~= old(self).pending() + clear_frame_sequence(old(self).color()));
        Ok(())
    }

    /// Sets the background color. It fills the previous frame of the next
    /// full upload and both frames of the next clear.
    pub fn set_background_color(&mut self, color: Color)
        ensures
            final(self).follows(old(self), Request::SetBackgroundColor(color), Ok(())),
            final(self).color() == color,
            final(self).refresh() == old(self).refresh(),
            final(self).state() == old(self).state(),
            final(self).pending() == old(self).pending(),
    {
        self.color = color;
    }

    /// Returns the background color.
    pub fn background_color(&self) -> (color: &Color)
        ensures
            *color == self.color(),
    {
        &self.color
    }

    /// Returns where the controller stands once the host has performed
    /// everything that is queued.
    pub fn driver_state(&self) -> (state: DriverState)
        ensures
            state == self.state(),
    {
        self.state
    }

    /// Returns the width of the panel in pixels.
    pub fn width(&self) -> (width: u32)
        ensures
            width == WIDTH,
    {
        WIDTH
    }

    /// Returns the height of the panel in pixels.
    pub fn height(&self) -> (height: u32)
        ensures
            height == HEIGHT,
    {
        HEIGHT
    }

    /// Selects the waveform bundle, if one is given, and queues the upload
    /// of the five tables of the bundle in use.
    ///
    /// On a driver that is asleep this fails, keeps the bundle that was in
    /// use and queues nothing.
    pub fn set_lut(&mut self, refresh_rate: Option<RefreshLUT>) -> (result: Result<
        (),
        DriverError,
    >)
        ensures
            final(self).follows(old(self), Request::SetLut(refresh_rate), result),
            final(self).color() == old(self).color(),
            final(self).state() == old(self).state(),
            old(self).asleep() ==> result == Err::<(), DriverError>(DriverError::State)
                && final(self).refresh() == old(self).refresh() && final(self).pending() == old(
                self,
            ).pending(),
            !old(self).asleep() ==> result == Ok::<(), DriverError>(()) && final(self).refresh()
                == (match refresh_rate {
                Some(refresh_lut) => refresh_lut,
                None => old(self).refresh(),
            }) && final(self).pending() == old(self).pending() + lut_tables(final(self).refresh()),
    {
        if self.state == DriverState::Sleeping {
            return Err(DriverError::State);
        }
        if let Some(refresh_lut) = refresh_rate {
            self.refresh = refresh_lut;
        }
        self.load_lut();
        Ok(())
    }

    /// Tells whether the controller is busy, from the level that the host
    /// has read on the busy line.
    pub fn is_busy(&self, busy_pin_high: bool) -> (busy: bool)
        ensures
            busy == !busy_pin_high,
    {
        DisplayInterface::is_busy(IS_BUSY_LOW, busy_pin_high)
    }

    /// Hands the queued transactions to the host, oldest first, and leaves
    /// the queue empty.
    pub fn take_pending(&mut self) -> (ops: Vec<BusOp>)
        ensures
            crate::interface::ops_view(ops@) == old(self).pending(),
            final(self).pending() == Seq::<BusOpView>::empty(),
            final(self).settings() == old(self).settings(),
    {
        self.di.take()
    }

    fn wait_until_idle(&mut self)
        ensures
            final(self).pending() == old(self).pending().push(wait()),
            final(self).settings() == old(self).settings(),
    {
        self.di.wait_until_idle(IS_BUSY_LOW)
    }

    /// Queues one byte as a data transfer of its own.
    fn data_byte(&mut self, byte: u8)
        ensures
            final(self).pending() == old(self).pending().push(BusOpView::Data(seq![byte])),
            final(self).settings() == old(self).settings(),
    {
        let data = [byte];
        assert(data@ =~= seq![byte]);
        self.di.data(data.as_slice());
    }

    /// Queues a command and its single parameter byte.
    fn command_with_byte(&mut self, command: Command, byte: u8)
        ensures
            final(self).pending() == old(self).pending().push(BusOpView::Command(command)).push(
                BusOpView::Data(seq![byte]),
            ),
            final(self).settings() == old(self).settings(),
    {
        let data = [byte];
        assert(data@ =~= seq![byte]);
        self.di.cmd_with_data(command, data.as_slice());
    }

    fn send_resolution(&mut self)
        ensures
            final(self).pending() == old(self).pending() + resolution_sequence(),
            final(self).settings() == old(self).settings(),
    {
        let w = self.width();
        let h = self.height();

        self.di.cmd(Command::RESOLUTION_SETTING);
        self.data_byte(high_byte(w));
        self.data_byte(low_byte(w));
        self.data_byte(high_byte(h));
        self.data_byte(low_byte(h));
        assert(self.pending() =~= old(self).pending() + resolution_sequence());
    }

    /// Queues the upload of the waveform bundle in use.
    fn load_lut(&mut self)
        ensures
            final(self).pending() == old(self).pending() + lut_tables(old(self).refresh()),
            final(self).settings() == old(self).settings(),
    {
        match self.refresh {
            RefreshLUT::FULL => {
                self.set_lut_helper(
                    LUT_VCOM0.as_slice(),
                    LUT_WW.as_slice(),
                    LUT_BW.as_slice(),
                    LUT_WB.as_slice(),
                    LUT_BB.as_slice(),
                )
            },
            RefreshLUT::QUICK => self.set_lut_helper(
                LUT_VCOM0_QUICK.as_slice(),
                LUT_WW_QUICK.as_slice(),
                LUT_BW_QUICK.as_slice(),
                LUT_WB_QUICK.as_slice(),
                LUT_BB_QUICK.as_slice(),
            ),
        }
    }

    fn set_lut_helper(
        &mut self,
        lut_vcom: &[u8],
        lut_ww: &[u8],
        lut_bw: &[u8],
        lut_wb: &[u8],
        lut_bb: &[u8],
    )
        ensures
            final(self).pending() == old(self).pending() + lut_sequence(
                lut_vcom@,
                lut_ww@,
                lut_bw@,
                lut_wb@,
                lut_bb@,
            ),
            final(self).settings() == old(self).settings(),
    {
        // common electrode
        self.di.cmd_with_data(Command::LUT_FOR_VCOM, lut_vcom);

        // white to white
        self.di.cmd_with_data(Command::LUT_WHITE_TO_WHITE, lut_ww);

        // black to white
        self.di.cmd_with_data(Command::LUT_BLACK_TO_WHITE, lut_bw);

        // white to black
        self.di.cmd_with_data(Command::LUT_WHITE_TO_BLACK, lut_wb);

        // black to black
        self.di.cmd_with_data(Command::LUT_BLACK_TO_BLACK, lut_bb);

        self.di.wait_until_idle(IS_BUSY_LOW);
        assert(self.pending() =~= old(self).pending() + lut_sequence(
            lut_vcom@,
            lut_ww@,
            lut_bw@,
            lut_wb@,
            lut_bb@,
        ));
    }
}

} // verus!
