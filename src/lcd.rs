use vstd::prelude::*;

use crate::bus::{BusEvent, LcdBus, Line};
use crate::color::Rgb565;
use crate::geometry::{
    Point, Rectangle, Rotation, Size, TFT_HEIGHT, TFT_WIDTH, logical_size, native_size, to_native,
    window_point,
};
use crate::protocol::{
    DISP_CTRL1, DISP_CTRL2, DISP_CTRL3, DISP_CTRL4, DRIV_OUT_CTRL, DRIV_WAV_CTRL, ENTRY_MOD,
    FRM_MARKER_POS, GAMMA_CTRL1, GAMMA_CTRL10, GAMMA_CTRL2, GAMMA_CTRL3, GAMMA_CTRL4,
    GAMMA_CTRL5, GAMMA_CTRL6, GAMMA_CTRL7, GAMMA_CTRL8, GAMMA_CTRL9, GATE_SCAN_CTRL1,
    GATE_SCAN_CTRL2, GATE_SCAN_CTRL3, GRAM_HOR_AD, GRAM_VER_AD, HOR_END_AD, HOR_START_AD,
    PANEL_IF_CTRL1, PANEL_IF_CTRL2, PANEL_IF_CTRL3, PANEL_IF_CTRL4, PANEL_IF_CTRL5,
    PANEL_IF_CTRL6, POW_CTRL1, POW_CTRL2, POW_CTRL3, POW_CTRL4, POW_CTRL7, RESIZE_CTRL,
    RGB_DISP_IF_CTRL1, RGB_DISP_IF_CTRL2, RW_GRAM, START_OSC, VER_END_AD, VER_START_AD,
    burst_events, data_events, latches_word, lemma_words_in_data_and_burst, words_written,
    write_strobe, index_events, read_events, register_read, register_write, transaction,
};

verus! {

/// Entry-mode bit: color order BGR.
pub const EM_BGR: u16 = 1 << 12;

/// Entry-mode bit: address counter moves vertically first.
pub const EM_AM: u16 = 1 << 3;

/// Entry-mode bit: horizontal increment.
pub const EM_ID0: u16 = 1 << 4;

/// Entry-mode bit: vertical increment.
pub const EM_ID1: u16 = 1 << 5;

/// What can go wrong when driving the display.
#[derive(Clone, Copy, Debug, PartialEq, Eq, Structural)]
pub enum LcdError {
    /// Enabling the hardware failed.
    Infallible,
    /// The power-on sequence failed.
    Init,
    /// A rectangle whose top-left corner lies right of or below its
    /// bottom-right corner.
    InvalidWindow,
    /// A rotation number outside 0 to 3.
    InvalidRotationId,
}

impl TryFrom<u32> for Rotation {
    type Error = LcdError;

    fn try_from(value: u32) -> (r: Result<Rotation, LcdError>)
        ensures
            r == rotation_from_id(value),
    {
        match value {
            0 => Ok(Rotation::R0),
            1 => Ok(Rotation::R90),
            2 => Ok(Rotation::R180),
            3 => Ok(Rotation::R270),
            _ => Err(LcdError::InvalidRotationId),
        }
    }
}

impl vstd::std_specs::convert::TryFromSpecImpl<u32> for Rotation {
    open spec fn obeys_try_from_spec() -> bool {
        true
    }

    open spec fn try_from_spec(value: u32) -> Result<Rotation, LcdError> {
        rotation_from_id(value)
    }
}

/// The rotation with the given number of quarter turns.
pub open spec fn rotation_from_id(value: u32) -> Result<Rotation, LcdError> {
    if value == 0 {
        Ok(Rotation::R0)
    } else if value == 1 {
        Ok(Rotation::R90)
    } else if value == 2 {
        Ok(Rotation::R180)
    } else if value == 3 {
        Ok(Rotation::R270)
    } else {
        Err(LcdError::InvalidRotationId)
    }
}

/// The entry-mode word for a rotation.
pub open spec fn entry_mode(rotation: Rotation) -> u16 {
    (match rotation {
        Rotation::R0 => EM_ID0 | EM_ID1,
        Rotation::R90 => EM_AM | EM_ID1,
        Rotation::R180 => 0,
        Rotation::R270 => EM_AM | EM_ID0,
    }) | EM_BGR
}

/// Programming the entry mode for a rotation.
pub open spec fn rotation_events(rotation: Rotation) -> Seq<BusEvent> {
    register_write(ENTRY_MOD, entry_mode(rotation))
}

/// The addressing window set back to the whole panel.
pub open spec fn reset_window_events() -> Seq<BusEvent> {
    register_write(HOR_START_AD, 0) + register_write(HOR_END_AD, (TFT_WIDTH - 1) as u16)
        + register_write(VER_START_AD, 0) + register_write(VER_END_AD, (TFT_HEIGHT - 1) as u16)
}

/// One pixel: the RAM address pointer set to the native point, then the
/// color written to graphics RAM.
pub open spec fn pixel_events(rotation: Rotation, p: Point, color: Rgb565) -> Seq<BusEvent> {
    let n = to_native(rotation, p, native_size());
    register_write(GRAM_HOR_AD, n.x as u16) + register_write(GRAM_VER_AD, n.y as u16)
        + register_write(RW_GRAM, color.raw)
}

/// The native window of a logical rectangle, as (x0, y0, x1, y1): both
/// corners mapped, then ordered.
pub open spec fn window_bounds(rotation: Rotation, rect: Rectangle) -> (u16, u16, u16, u16) {
    let a = to_native(rotation, rect.top_left, native_size());
    let b = to_native(rotation, rect.bottom_right, native_size());
    (
        (if a.x <= b.x { a.x } else { b.x }) as u16,
        (if a.y <= b.y { a.y } else { b.y }) as u16,
        (if a.x <= b.x { b.x } else { a.x }) as u16,
        (if a.y <= b.y { b.y } else { a.y }) as u16,
    )
}

/// The window registers and the RAM address pointer set to a window.
pub open spec fn window_events(bounds: (u16, u16, u16, u16)) -> Seq<BusEvent> {
    register_write(HOR_START_AD, bounds.0) + register_write(HOR_END_AD, bounds.2)
        + register_write(VER_START_AD, bounds.1) + register_write(VER_END_AD, bounds.3)
        + register_write(GRAM_HOR_AD, bounds.0) + register_write(GRAM_VER_AD, bounds.1)
}

/// The words written to fill `n` pixels: `n` rounded up to a multiple of four.
pub open spec fn fill_word_count(n: nat) -> nat {
    ((n + 3) / 4 * 4) as nat
}

/// The color words streamed for a fill of `pixels` pixels: one written,
/// the rest strobed in again.
pub open spec fn fill_words(color: Rgb565, pixels: nat) -> Seq<BusEvent> {
    data_events(color.raw) + burst_events((fill_word_count(pixels) - 1) as nat)
}

/// The transaction that streams the fill color.
pub open spec fn fill_stream_events(color: Rgb565, pixels: nat) -> Seq<BusEvent> {
    transaction(index_events(RW_GRAM) + seq![BusEvent::DelayUs(1)] + fill_words(color, pixels))
}

/// A whole fill of an ordered rectangle.
pub open spec fn fill_events(rotation: Rotation, rect: Rectangle, color: Rgb565) -> Seq<BusEvent> {
    window_events(window_bounds(rotation, rect)) + fill_stream_events(color, rect.area())
        + reset_window_events()
}

/// One step of the power-on sequence.
#[derive(Clone, Copy, Debug, PartialEq, Eq, Structural)]
pub enum InitStep {
    /// Write a word to a register.
    Write(u16, u16),
    /// Wait this many milliseconds.
    WaitMs(u16),
}

/// What one step of the power-on sequence does on the bus.
pub open spec fn step_events(step: InitStep) -> Seq<BusEvent> {
    match step {
        InitStep::Write(index, data) => register_write(index, data),
        InitStep::WaitMs(ms) => seq![BusEvent::DelayMs(ms)],
    }
}

/// What a run of steps does on the bus, in order.
pub open spec fn steps_events(steps: Seq<InitStep>) -> Seq<BusEvent>
    decreases steps.len(),
{
    if steps.len() == 0 {
        Seq::empty()
    } else {
        steps_events(steps.drop_last()) + step_events(steps.last())
    }
}

/// From starting the oscillator to the gamma curve.
pub open spec fn power_on_sequence() -> Seq<InitStep> {
    seq![
        InitStep::Write(START_OSC, 0x0001),
        InitStep::WaitMs(50),
        InitStep::Write(DRIV_OUT_CTRL, 0x0100),
        InitStep::Write(DRIV_WAV_CTRL, 0x0700),
        InitStep::Write(RESIZE_CTRL, 0x0000),
        InitStep::Write(DISP_CTRL2, 0x0202),
        InitStep::Write(DISP_CTRL3, 0x0000),
        InitStep::Write(DISP_CTRL4, 0x0000),
        InitStep::Write(RGB_DISP_IF_CTRL1, 0x0000),
        InitStep::Write(FRM_MARKER_POS, 0x0000),
        InitStep::Write(RGB_DISP_IF_CTRL2, 0x0000),
        InitStep::Write(POW_CTRL1, 0x0000),
        InitStep::Write(POW_CTRL2, 0x0007),
        InitStep::Write(POW_CTRL3, 0x0000),
        InitStep::Write(POW_CTRL4, 0x0000),
        InitStep::WaitMs(200),
        InitStep::Write(POW_CTRL1, 0x1690),
        InitStep::Write(POW_CTRL2, 0x0227),
        InitStep::WaitMs(50),
        InitStep::Write(POW_CTRL3, 0x001a),
        InitStep::WaitMs(50),
        InitStep::Write(POW_CTRL4, 0x1800),
        InitStep::Write(POW_CTRL7, 0x002a),
        InitStep::WaitMs(50),
        InitStep::Write(GAMMA_CTRL1, 0x0000),
        InitStep::Write(GAMMA_CTRL2, 0x0000),
        InitStep::Write(GAMMA_CTRL3, 0x0000),
        InitStep::Write(GAMMA_CTRL4, 0x0206),
        InitStep::Write(GAMMA_CTRL5, 0x0808),
        InitStep::Write(GAMMA_CTRL6, 0x0007),
        InitStep::Write(GAMMA_CTRL7, 0x0201),
        InitStep::Write(GAMMA_CTRL8, 0x0000),
        InitStep::Write(GAMMA_CTRL9, 0x0000),
        InitStep::Write(GAMMA_CTRL10, 0x0000),
    ]
}

/// From zeroing the RAM address pointer to switching the display on.
pub open spec fn display_on_sequence() -> Seq<InitStep> {
    seq![
        InitStep::Write(GRAM_HOR_AD, 0x0000),
        InitStep::Write(GRAM_VER_AD, 0x0000),
        InitStep::Write(GATE_SCAN_CTRL1, 0xa700),
        InitStep::Write(GATE_SCAN_CTRL2, 0x0003),
        InitStep::Write(GATE_SCAN_CTRL3, 0x0000),
        InitStep::Write(PANEL_IF_CTRL1, 0x0010),
        InitStep::Write(PANEL_IF_CTRL2, 0x0000),
        InitStep::Write(PANEL_IF_CTRL3, 0x0003),
        InitStep::Write(PANEL_IF_CTRL4, 0x1100),
        InitStep::Write(PANEL_IF_CTRL5, 0x0000),
        InitStep::Write(PANEL_IF_CTRL6, 0x0000),
        InitStep::Write(DISP_CTRL1, 0x0133),
    ]
}

/// The steps from starting the oscillator to the gamma curve.
fn power_on_steps() -> (v: Vec<InitStep>)
    ensures
        v@ == power_on_sequence(),
{
    let mut v: Vec<InitStep> = Vec::new();
    v.push(InitStep::Write(START_OSC, 0x0001));
    v.push(InitStep::WaitMs(50));
    v.push(InitStep::Write(DRIV_OUT_CTRL, 0x0100));
    v.push(InitStep::Write(DRIV_WAV_CTRL, 0x0700));
    v.push(InitStep::Write(RESIZE_CTRL, 0x0000));
    v.push(InitStep::Write(DISP_CTRL2, 0x0202));
    v.push(InitStep::Write(DISP_CTRL3, 0x0000));
    v.push(InitStep::Write(DISP_CTRL4, 0x0000));
    v.push(InitStep::Write(RGB_DISP_IF_CTRL1, 0x0000));
    v.push(InitStep::Write(FRM_MARKER_POS, 0x0000));
    v.push(InitStep::Write(RGB_DISP_IF_CTRL2, 0x0000));
    v.push(InitStep::Write(POW_CTRL1, 0x0000));
    v.push(InitStep::Write(POW_CTRL2, 0x0007));
    v.push(InitStep::Write(POW_CTRL3, 0x0000));
    v.push(InitStep::Write(POW_CTRL4, 0x0000));
    v.push(InitStep::WaitMs(200));
    v.push(InitStep::Write(POW_CTRL1, 0x1690));
    v.push(InitStep::Write(POW_CTRL2, 0x0227));
    v.push(InitStep::WaitMs(50));
    v.push(InitStep::Write(POW_CTRL3, 0x001a));
    v.push(InitStep::WaitMs(50));
    v.push(InitStep::Write(POW_CTRL4, 0x1800));
    v.push(InitStep::Write(POW_CTRL7, 0x002a));
    v.push(InitStep::WaitMs(50));
    v.push(InitStep::Write(GAMMA_CTRL1, 0x0000));
    v.push(InitStep::Write(GAMMA_CTRL2, 0x0000));
    v.push(InitStep::Write(GAMMA_CTRL3, 0x0000));
    v.push(InitStep::Write(GAMMA_CTRL4, 0x0206));
    v.push(InitStep::Write(GAMMA_CTRL5, 0x0808));
    v.push(InitStep::Write(GAMMA_CTRL6, 0x0007));
    v.push(InitStep::Write(GAMMA_CTRL7, 0x0201));
    v.push(InitStep::Write(GAMMA_CTRL8, 0x0000));
    v.push(InitStep::Write(GAMMA_CTRL9, 0x0000));
    v.push(InitStep::Write(GAMMA_CTRL10, 0x0000));
    assert(v@ =~= power_on_sequence());
    v
}

/// The steps from zeroing the RAM address pointer to switching the display on.
fn display_on_steps() -> (v: Vec<InitStep>)
    ensures
        v@ == display_on_sequence(),
{
    let mut v: Vec<InitStep> = Vec::new();
    v.push(InitStep::Write(GRAM_HOR_AD, 0x0000));
    v.push(InitStep::Write(GRAM_VER_AD, 0x0000));
    v.push(InitStep::Write(GATE_SCAN_CTRL1, 0xa700));
    v.push(InitStep::Write(GATE_SCAN_CTRL2, 0x0003));
    v.push(InitStep::Write(GATE_SCAN_CTRL3, 0x0000));
    v.push(InitStep::Write(PANEL_IF_CTRL1, 0x0010));
    v.push(InitStep::Write(PANEL_IF_CTRL2, 0x0000));
    v.push(InitStep::Write(PANEL_IF_CTRL3, 0x0003));
    v.push(InitStep::Write(PANEL_IF_CTRL4, 0x1100));
    v.push(InitStep::Write(PANEL_IF_CTRL5, 0x0000));
    v.push(InitStep::Write(PANEL_IF_CTRL6, 0x0000));
    v.push(InitStep::Write(DISP_CTRL1, 0x0133));
    assert(v@ =~= display_on_sequence());
    v
}

/// The whole power-on sequence, `id` being what the device-code register
/// read back.
pub open spec fn init_events(id: u16) -> Seq<BusEvent> {
    seq![BusEvent::Level(Line::Backlight, true), BusEvent::OutputMode, BusEvent::DelayMs(130)]
        + register_read(START_OSC, id) + steps_events(power_on_sequence()) + rotation_events(
        Rotation::R0,
    ) + reset_window_events() + steps_events(display_on_sequence())
}

/// What one transaction does while the bus is held.
pub enum Transfer {
    /// Select a register and write a word to it, then strobe the same word
    /// in this many more times.
    Write(u16, u16, u128),
    /// Select a register and read a word from it.
    Read(u16),
}

/// What a transfer does while the bus is held; `sampled` is the word a
/// read brings back.
pub open spec fn transfer_events(op: Transfer, sampled: u16) -> Seq<BusEvent> {
    match op {
        Transfer::Write(index, data, repeats) => index_events(index) + seq![BusEvent::DelayUs(1)]
            + data_events(data) + burst_events(repeats as nat),
        Transfer::Read(index) => index_events(index) + seq![BusEvent::DelayUs(1)] + read_events(
            sampled,
        ),
    }
}

/// A fill of an ordered rectangle of `n` pixels latches exactly `n` rounded
/// up to a multiple of four color words into graphics RAM, and its last
/// act sets the window back to the whole panel.
pub proof fn lemma_fill_writes_whole_bursts(rotation: Rotation, rect: Rectangle, color: Rgb565)
    requires
        rect.is_ordered(),
    ensures
        words_written(fill_words(color, rect.area())) == (rect.area() + 3) / 4 * 4,
        words_written(fill_words(color, rect.area())) % 4 == 0,
        rect.area() <= words_written(fill_words(color, rect.area())) < rect.area() + 4,
        fill_events(rotation, rect, color) == window_events(window_bounds(rotation, rect))
            + fill_stream_events(color, rect.area()) + reset_window_events(),
        fill_events(rotation, rect, color).subrange(
            fill_events(rotation, rect, color).len() - reset_window_events().len(),
            fill_events(rotation, rect, color).len() as int,
        ) == reset_window_events(),
{
    let n = rect.area();
    assert(n >= 1) by (nonlinear_arith)
        requires
            n == (rect.bottom_right.x - rect.top_left.x + 1) * (rect.bottom_right.y
                - rect.top_left.y + 1),
            rect.bottom_right.x - rect.top_left.x + 1 >= 1,
            rect.bottom_right.y - rect.top_left.y + 1 >= 1,
    ;
    let k = (fill_word_count(n) - 1) as nat;
    lemma_words_in_data_and_burst(color.raw, k);
    Seq::filter_distributes_over_add(data_events(color.raw), burst_events(k), latches_word());
    let f = fill_events(rotation, rect, color);
    assert(f.subrange(f.len() - reset_window_events().len(), f.len() as int)
        =~= reset_window_events());
}

/// Setting a rotation is idempotent: a second call with the same rotation
/// writes the same entry-mode word again and leaves the same logical size.
pub proof fn lemma_set_rotation_idempotent(first: Rotation, second: Rotation)
    requires
        first == second,
    ensures
        rotation_events(first) == rotation_events(second),
        rotation_events(first) == register_write(ENTRY_MOD, entry_mode(second)),
        logical_size(first) == logical_size(second),
{
}

/// Driver for an ILI9328 display controller on a 16-bit parallel bus.
pub struct Lcd<B: LcdBus> {
    bus: B,
    rotation: Rotation,
}

impl<B: LcdBus> Lcd<B> {
    /// The bus the driver owns.
    pub closed spec fn spec_bus(&self) -> B {
        self.bus
    }

    /// Everything done on the bus so far.
    pub open spec fn events(&self) -> Seq<BusEvent> {
        self.spec_bus().events()
    }

    /// The rotation in force.
    pub closed spec fn spec_rotation(&self) -> Rotation {
        self.rotation
    }

    /// Takes the bus; the controller itself is not touched yet.
    pub fn new(bus: B) -> (r: Result<Lcd<B>, LcdError>)
        ensures
            r is Ok,
            r.unwrap().spec_bus() == bus,
            r.unwrap().spec_rotation() == Rotation::R0,
    {
        Ok(Lcd { bus, rotation: Rotation::R0 })
    }

    /// The bus the driver owns.
    pub fn bus(&self) -> (r: &B)
        ensures
            *r == self.spec_bus(),
    {
        &self.bus
    }

    /// Gives the bus back.
    pub fn release(self) -> (r: B)
        ensures
            r == self.spec_bus(),
    {
        self.bus
    }

    fn strobe_write(&mut self)
        ensures
            final(self).events() == old(self).events() + write_strobe(),
            final(self).rotation == old(self).rotation,
    {
        self.bus.set_line(Line::Write, false);
        self.bus.delay_us(1);
        self.bus.set_line(Line::Write, true);
        assert(self.events() =~= old(self).events() + write_strobe());
    }

    /// Selects a register. Runs inside a transaction.
    fn write_register_index(&mut self, index: u16)
        ensures
            final(self).events() == old(self).events() + index_events(index),
            final(self).rotation == old(self).rotation,
    {
        self.bus.set_line(Line::RegisterSelect, false);
        self.bus.drive_bus(index);
        self.strobe_write();
        self.bus.set_line(Line::RegisterSelect, true);
        assert(self.events() =~= old(self).events() + index_events(index));
    }

    /// Writes a word to the selected register. Runs inside a transaction.
    fn write_data_word(&mut self, data: u16)
        ensures
            final(self).events() == old(self).events() + data_events(data),
            final(self).rotation == old(self).rotation,
    {
        self.bus.drive_bus(data);
        self.strobe_write();
        assert(self.events() =~= old(self).events() + data_events(data));
    }

    /// Reads a word from the selected register. Runs inside a transaction.
    fn read_data_word(&mut self) -> (r: u16)
        ensures
            final(self).events() == old(self).events() + read_events(r),
            final(self).rotation == old(self).rotation,
    {
        self.bus.set_input_mode();
        self.bus.set_line(Line::Read, false);
        self.bus.delay_us(1);
        let v = self.bus.sample_bus();
        self.bus.set_line(Line::Read, true);
        self.bus.set_output_mode();
        assert(self.events() =~= old(self).events() + read_events(v));
        v
    }

    /// Strobes the word on the bus in `n` more times.
    fn repeat_word(&mut self, n: u128)
        ensures
            final(self).events() == old(self).events() + burst_events(n as nat),
            final(self).rotation == old(self).rotation,
    {
        let mut i: u128 = 0;
        while i < n
            invariant
                i <= n,
                self.events() == old(self).events() + burst_events(i as nat),
                self.rotation == old(self).rotation,
            decreases n - i,
        {
            self.bus.delay_us(1);
            self.strobe_write();
            i = i + 1;
            assert(self.events() =~= old(self).events() + burst_events(i as nat));
        }
    }

    /// Runs `op` with the bus held: idle levels, chip select low, `op`,
    /// chip select high. Gives back the word read, or zero for a write.
    fn transact(&mut self, op: Transfer) -> (r: u16)
        ensures
            final(self).events() == old(self).events() + transaction(transfer_events(op, r)),
            final(self).rotation == old(self).rotation,
    {
        self.bus.set_line(Line::RegisterSelect, true);
        self.bus.set_line(Line::Read, true);
        self.bus.set_line(Line::Write, true);
        self.bus.set_line(Line::ChipSelect, false);
        self.bus.delay_us(1);
        let ghost opened = self.events();
        let r = match op {
            Transfer::Write(index, data, repeats) => {
                self.write_register_index(index);
                self.bus.delay_us(1);
                self.write_data_word(data);
                self.repeat_word(repeats);
                0
            },
            Transfer::Read(index) => {
                self.write_register_index(index);
                self.bus.delay_us(1);
                self.read_data_word()
            },
        };
        assert(self.events() =~= opened + transfer_events(op, r));
        self.bus.delay_us(1);
        self.bus.set_line(Line::ChipSelect, true);
        assert(self.events() =~= old(self).events() + transaction(transfer_events(op, r)));
        r
    }

    /// Writes `data` to register `index` in a transaction of its own.
    fn write_register(&mut self, index: u16, data: u16)
        ensures
            final(self).events() == old(self).events() + register_write(index, data),
            final(self).rotation == old(self).rotation,
    {
        self.transact(Transfer::Write(index, data, 0));
        assert(burst_events(0) =~= Seq::<BusEvent>::empty());
        assert(transfer_events(Transfer::Write(index, data, 0), 0) =~= index_events(index) + seq![
            BusEvent::DelayUs(1),
        ] + data_events(data));
    }

    /// Reads register `index` in a transaction of its own.
    fn read_register(&mut self, index: u16) -> (r: u16)
        ensures
            final(self).events() == old(self).events() + register_read(index, r),
            final(self).rotation == old(self).rotation,
    {
        self.transact(Transfer::Read(index))
    }

    /// Stores the rotation and programs the controller's entry mode for it.
    /// What is already on the screen stays as it is.
    pub fn set_rotation(&mut self, rotation: Rotation) -> (r: Result<(), LcdError>)
        ensures
            r is Ok,
            final(self).spec_rotation() == rotation,
            final(self).events() == old(self).events() + rotation_events(rotation),
    {
        self.rotation = rotation;
        let mode: u16 = match self.rotation {
            Rotation::R0 => EM_ID0 | EM_ID1,
            Rotation::R90 => EM_AM | EM_ID1,
            Rotation::R180 => 0,
            Rotation::R270 => EM_AM | EM_ID0,
        };
        self.write_register(ENTRY_MOD, mode | EM_BGR);
        Ok(())
    }

    /// The size of the screen as callers see it under the current rotation.
    pub fn size(&self) -> (r: Size)
        ensures
            r == logical_size(self.spec_rotation()),
    {
        match self.rotation {
            Rotation::R0 => Size::new(TFT_WIDTH as u32, TFT_HEIGHT as u32),
            Rotation::R90 => Size::new(TFT_HEIGHT as u32, TFT_WIDTH as u32),
            Rotation::R180 => Size::new(TFT_WIDTH as u32, TFT_HEIGHT as u32),
            Rotation::R270 => Size::new(TFT_HEIGHT as u32, TFT_WIDTH as u32),
        }
    }

    /// The largest logical point on the screen under the current rotation.
    pub fn max_btm_right(&self) -> (r: Point)
        ensures
            r.x == logical_size(self.spec_rotation()).width - 1,
            r.y == logical_size(self.spec_rotation()).height - 1,
    {
        let w: i32 = TFT_WIDTH as i32 - 1;
        let h: i32 = TFT_HEIGHT as i32 - 1;
        match self.rotation {
            Rotation::R0 => Point::new(w, h),
            Rotation::R90 => Point::new(h, w),
            Rotation::R180 => Point::new(w, h),
            Rotation::R270 => Point::new(h, w),
        }
    }

    /// `p` in a window of size `window`, in native coordinates.
    fn lcd_window_point(&self, p: Point, window: Size) -> (r: Point)
        ensures
            r == to_native(self.rotation, p, window),
    {
        window_point(self.rotation, p, window)
    }

    /// `p` on the whole panel, in native coordinates.
    fn lcd_point(&self, p: Point) -> (r: Point)
        ensures
            r == to_native(self.rotation, p, native_size()),
    {
        self.lcd_window_point(p, Size::new(TFT_WIDTH as u32, TFT_HEIGHT as u32))
    }

    /// Sets the addressing window back to the whole panel.
    fn reset_window(&mut self)
        ensures
            final(self).events() == old(self).events() + reset_window_events(),
            final(self).rotation == old(self).rotation,
    {
        self.write_register(HOR_START_AD, 0);
        self.write_register(HOR_END_AD, TFT_WIDTH - 1);
        self.write_register(VER_START_AD, 0);
        self.write_register(VER_END_AD, TFT_HEIGHT - 1);
        assert(self.events() =~= old(self).events() + reset_window_events());
    }

    /// Draws one pixel. A point off the screen is not checked: its native
    /// coordinates are cut to 16 bits.
    pub fn draw_pixel(&mut self, p: Point, color: Rgb565) -> (r: Result<(), LcdError>)
        ensures
            r is Ok,
            final(self).spec_rotation() == old(self).spec_rotation(),
            final(self).events() == old(self).events() + pixel_events(
                old(self).spec_rotation(),
                p,
                color,
            ),
    {
        let n = self.lcd_point(p);
        self.write_register(GRAM_HOR_AD, #[verifier::truncate] (n.x as u16));
        self.write_register(GRAM_VER_AD, #[verifier::truncate] (n.y as u16));
        self.write_register(RW_GRAM, color.into_raw());
        assert(self.events() =~= old(self).events() + pixel_events(self.rotation, p, color));
        Ok(())
    }

    /// Programs the addressing window for a logical rectangle, and points
    /// the RAM address at its first pixel. A rectangle that is not ordered
    /// is refused before anything reaches the bus.
    fn set_window(&mut self, window: Rectangle) -> (r: Result<(), LcdError>)
        ensures
            final(self).rotation == old(self).rotation,
            window.is_ordered() ==> r is Ok && final(self).events() == old(self).events()
                + window_events(window_bounds(old(self).rotation, window)),
            !window.is_ordered() ==> r == Err::<(), LcdError>(LcdError::InvalidWindow)
                && final(self).events() == old(self).events(),
    {
        let top_left = window.top_left;
        let bottom_right = window.bottom_right;
        if !(top_left.x <= bottom_right.x && top_left.y <= bottom_right.y) {
            return Err(LcdError::InvalidWindow);
        }
        let tl = self.lcd_point(top_left);
        let br = self.lcd_point(bottom_right);
        let minx: u16 = #[verifier::truncate] ((if tl.x <= br.x { tl.x } else { br.x }) as u16);
        let miny: u16 = #[verifier::truncate] ((if tl.y <= br.y { tl.y } else { br.y }) as u16);
        let maxx: u16 = #[verifier::truncate] ((if tl.x <= br.x { br.x } else { tl.x }) as u16);
        let maxy: u16 = #[verifier::truncate] ((if tl.y <= br.y { br.y } else { tl.y }) as u16);
        self.write_register(HOR_START_AD, minx);
        self.write_register(HOR_END_AD, maxx);
        self.write_register(VER_START_AD, miny);
        self.write_register(VER_END_AD, maxy);
        self.write_register(GRAM_HOR_AD, minx);
        self.write_register(GRAM_VER_AD, miny);
        assert(self.events() =~= old(self).events() + window_events(
            window_bounds(self.rotation, window),
        ));
        Ok(())
    }

    /// Fills a rectangle, both corners included, with one color: the window
    /// is set to it once and the color streamed in bursts of four words.
    /// Afterwards the window covers the whole panel again.
    pub fn fill_rectangle(&mut self, rectangle: Rectangle, color: Rgb565) -> (r: Result<
        (),
        LcdError,
    >)
        ensures
            final(self).spec_rotation() == old(self).spec_rotation(),
            rectangle.is_ordered() ==> r is Ok && final(self).events() == old(self).events()
                + fill_events(old(self).spec_rotation(), rectangle, color),
            !rectangle.is_ordered() ==> r == Err::<(), LcdError>(LcdError::InvalidWindow)
                && final(self).events() == old(self).events(),
    {
        match self.set_window(rectangle) {
            Err(e) => {
                return Err(e);
            },
            Ok(()) => {},
        }
        let tl = rectangle.top_left;
        let br = rectangle.bottom_right;
        let width: u128 = (br.x as i64 - tl.x as i64 + 1) as u128;
        let height: u128 = (br.y as i64 - tl.y as i64 + 1) as u128;
        assert(width * height <= 0x1_0000_0000u128 * 0x1_0000_0000u128) by (nonlinear_arith)
            requires
                width <= 0x1_0000_0000u128,
                height <= 0x1_0000_0000u128,
        ;
        assert(width * height >= 1) by (nonlinear_arith)
            requires
                width >= 1,
                height >= 1,
        ;
        let n: u128 = width * height;
        assert(n == rectangle.area());
        // The controller takes the color in bursts of four words.
        let words: u128 = (n + 3) / 4 * 4;
        self.transact(Transfer::Write(RW_GRAM, color.into_raw(), words - 1));
        self.reset_window();
        Ok(())
    }

    /// Draws a rectangle's fill, if it has one; its outline is left to the
    /// caller.
    pub fn draw_rectangle(&mut self, rectangle: Rectangle, fill_color: Option<Rgb565>) -> (r:
        Result<(), LcdError>)
        ensures
            final(self).spec_rotation() == old(self).spec_rotation(),
            fill_color is None ==> r is Ok && final(self).events() == old(self).events(),
            fill_color is Some && rectangle.is_ordered() ==> r is Ok && final(self).events()
                == old(self).events() + fill_events(
                old(self).spec_rotation(),
                rectangle,
                fill_color.unwrap(),
            ),
            fill_color is Some && !rectangle.is_ordered() ==> r == Err::<(), LcdError>(
                LcdError::InvalidWindow,
            ) && final(self).events() == old(self).events(),
    {
        match fill_color {
            Some(c) => self.fill_rectangle(rectangle, c),
            None => Ok(()),
        }
    }

    /// Runs steps of the power-on sequence in order.
    fn run_steps(&mut self, steps: &Vec<InitStep>)
        ensures
            final(self).events() == old(self).events() + steps_events(steps@),
            final(self).rotation == old(self).rotation,
    {
        let mut i: usize = 0;
        while i < steps.len()
            invariant
                i <= steps@.len(),
                self.events() == old(self).events() + steps_events(steps@.take(i as int)),
                self.rotation == old(self).rotation,
            decreases steps@.len() - i,
        {
            match steps[i] {
                InitStep::Write(index, data) => self.write_register(index, data),
                InitStep::WaitMs(ms) => self.bus.delay_ms(ms),
            }
            assert(steps@.take(i + 1).drop_last() =~= steps@.take(i as int));
            i = i + 1;
            assert(self.events() =~= old(self).events() + steps_events(steps@.take(i as int)));
        }
        assert(steps@.take(i as int) =~= steps@);
    }

    /// Powers the panel up and switches the display on, by the controller's
    /// documented sequence: backlight, a reset wait, a read of the device
    /// code, oscillator, power and gamma settings, rotation `R0`, the whole
    /// panel as window. Call it once before drawing.
    pub fn init(&mut self) -> (r: Result<(), LcdError>)
        ensures
            r is Ok,
            final(self).spec_rotation() == Rotation::R0,
            exists|id: u16| final(self).events() == old(self).events() + #[trigger] init_events(id),
    {
        self.bus.set_line(Line::Backlight, true);
        self.bus.set_output_mode();
        self.bus.delay_ms(130);
        // The device code is read for diagnosis only.
        let id = self.read_register(START_OSC);
        self.run_steps(&power_on_steps());
        match self.set_rotation(Rotation::R0) {
            Ok(()) => {},
            Err(_) => {
                return Err(LcdError::Init);
            },
        }
        self.reset_window();
        self.run_steps(&display_on_steps());
        assert(self.events() =~= old(self).events() + init_events(id));
        Ok(())
    }
}

} // verus!
