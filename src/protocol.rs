use vstd::prelude::*;

use crate::bus::{BusEvent, Line};

verus! {

// Register indices of the controller.
pub const START_OSC: u16 = 0x00;
pub const DRIV_OUT_CTRL: u16 = 0x01;
pub const DRIV_WAV_CTRL: u16 = 0x02;
pub const ENTRY_MOD: u16 = 0x03;
pub const RESIZE_CTRL: u16 = 0x04;
pub const DISP_CTRL1: u16 = 0x07;
pub const DISP_CTRL2: u16 = 0x08;
pub const DISP_CTRL3: u16 = 0x09;
pub const DISP_CTRL4: u16 = 0x0a;
pub const RGB_DISP_IF_CTRL1: u16 = 0x0c;
pub const FRM_MARKER_POS: u16 = 0x0d;
pub const RGB_DISP_IF_CTRL2: u16 = 0x0f;
pub const POW_CTRL1: u16 = 0x10;
pub const POW_CTRL2: u16 = 0x11;
pub const POW_CTRL3: u16 = 0x12;
pub const POW_CTRL4: u16 = 0x13;
pub const GRAM_HOR_AD: u16 = 0x20;
pub const GRAM_VER_AD: u16 = 0x21;
pub const RW_GRAM: u16 = 0x22;
pub const POW_CTRL7: u16 = 0x29;
pub const GAMMA_CTRL1: u16 = 0x30;
pub const GAMMA_CTRL2: u16 = 0x31;
pub const GAMMA_CTRL3: u16 = 0x32;
pub const GAMMA_CTRL4: u16 = 0x35;
pub const GAMMA_CTRL5: u16 = 0x36;
pub const GAMMA_CTRL6: u16 = 0x37;
pub const GAMMA_CTRL7: u16 = 0x38;
pub const GAMMA_CTRL8: u16 = 0x39;
pub const GAMMA_CTRL9: u16 = 0x3c;
pub const GAMMA_CTRL10: u16 = 0x3d;
pub const HOR_START_AD: u16 = 0x50;
pub const HOR_END_AD: u16 = 0x51;
pub const VER_START_AD: u16 = 0x52;
pub const VER_END_AD: u16 = 0x53;
pub const GATE_SCAN_CTRL1: u16 = 0x60;
pub const GATE_SCAN_CTRL2: u16 = 0x61;
pub const GATE_SCAN_CTRL3: u16 = 0x6a;
pub const PANEL_IF_CTRL1: u16 = 0x90;
pub const PANEL_IF_CTRL2: u16 = 0x92;
pub const PANEL_IF_CTRL3: u16 = 0x93;
pub const PANEL_IF_CTRL4: u16 = 0x95;
pub const PANEL_IF_CTRL5: u16 = 0x97;
pub const PANEL_IF_CTRL6: u16 = 0x98;

/// One pulse of the write strobe: low, a microsecond, high.
pub open spec fn write_strobe() -> Seq<BusEvent> {
    seq![
        BusEvent::Level(Line::Write, false),
        BusEvent::DelayUs(1),
        BusEvent::Level(Line::Write, true),
    ]
}

/// Selects register `index`: the index goes out in the command phase.
pub open spec fn index_events(index: u16) -> Seq<BusEvent> {
    seq![BusEvent::Level(Line::RegisterSelect, false), BusEvent::Drive(index)] + write_strobe()
        + seq![BusEvent::Level(Line::RegisterSelect, true)]
}

/// Writes one data word to the selected register.
pub open spec fn data_events(data: u16) -> Seq<BusEvent> {
    seq![BusEvent::Drive(data)] + write_strobe()
}

/// Reads one data word, `value`, from the selected register.
pub open spec fn read_events(value: u16) -> Seq<BusEvent> {
    seq![
        BusEvent::InputMode,
        BusEvent::Level(Line::Read, false),
        BusEvent::DelayUs(1),
        BusEvent::Sample(value),
        BusEvent::Level(Line::Read, true),
        BusEvent::OutputMode,
    ]
}

/// What opens a transaction: idle levels, then chip select asserted.
pub open spec fn open_events() -> Seq<BusEvent> {
    seq![
        BusEvent::Level(Line::RegisterSelect, true),
        BusEvent::Level(Line::Read, true),
        BusEvent::Level(Line::Write, true),
        BusEvent::Level(Line::ChipSelect, false),
        BusEvent::DelayUs(1),
    ]
}

/// What closes a transaction: chip select released.
pub open spec fn close_events() -> Seq<BusEvent> {
    seq![BusEvent::DelayUs(1), BusEvent::Level(Line::ChipSelect, true)]
}

/// `inner` run with the bus held.
pub open spec fn transaction(inner: Seq<BusEvent>) -> Seq<BusEvent> {
    open_events() + inner + close_events()
}

/// A register selected, then a word written to it.
pub open spec fn register_write(index: u16, data: u16) -> Seq<BusEvent> {
    transaction(index_events(index) + seq![BusEvent::DelayUs(1)] + data_events(data))
}

/// A register selected, then `value` read from it.
pub open spec fn register_read(index: u16, value: u16) -> Seq<BusEvent> {
    transaction(index_events(index) + seq![BusEvent::DelayUs(1)] + read_events(value))
}

/// One more word of a burst: the word on the bus is strobed in again.
pub open spec fn repeat_strobe() -> Seq<BusEvent> {
    seq![BusEvent::DelayUs(1)] + write_strobe()
}

/// `n` further words of a burst.
pub open spec fn burst_events(n: nat) -> Seq<BusEvent>
    decreases n,
{
    if n == 0 {
        Seq::empty()
    } else {
        burst_events((n - 1) as nat) + repeat_strobe()
    }
}

/// The level of `line` after `events`, given its level before them.
pub open spec fn level_after(events: Seq<BusEvent>, line: Line, before: bool) -> bool
    decreases events.len(),
{
    if events.len() == 0 {
        before
    } else {
        match events.last() {
            BusEvent::Level(l, high) if l == line => high,
            _ => level_after(events.drop_last(), line, before),
        }
    }
}

/// Whether an event latches a word: a falling edge of the write strobe.
pub open spec fn latches_word() -> spec_fn(BusEvent) -> bool {
    |e: BusEvent| e == BusEvent::Level(Line::Write, false)
}

/// How many words `events` latch.
pub open spec fn words_written(events: Seq<BusEvent>) -> nat {
    events.filter(latches_word()).len()
}

proof fn lemma_words_written_add(a: Seq<BusEvent>, b: Seq<BusEvent>)
    ensures
        words_written(a + b) == words_written(a) + words_written(b),
{
    Seq::filter_distributes_over_add(a, b, latches_word());
}

proof fn lemma_words_in_strobe(e: BusEvent)
    ensures
        words_written(write_strobe()) == 1,
        words_written(seq![e]) == if e == BusEvent::Level(Line::Write, false) {
            1nat
        } else {
            0nat
        },
{
    reveal_with_fuel(Seq::filter, 4);
    assert(write_strobe().filter(latches_word()) =~= seq![BusEvent::Level(Line::Write, false)]);
    if e == BusEvent::Level(Line::Write, false) {
        assert(seq![e].filter(latches_word()) =~= seq![e]);
    } else {
        assert(seq![e].filter(latches_word()) =~= Seq::<BusEvent>::empty());
    }
}

/// A data word latches one word; a burst of `n` latches `n` more.
pub proof fn lemma_words_in_data_and_burst(data: u16, n: nat)
    ensures
        words_written(data_events(data)) == 1,
        words_written(burst_events(n)) == n,
    decreases n,
{
    lemma_words_in_strobe(BusEvent::Drive(data));
    lemma_words_written_add(seq![BusEvent::Drive(data)], write_strobe());
    if n > 0 {
        lemma_words_in_data_and_burst(data, (n - 1) as nat);
        lemma_words_in_strobe(BusEvent::DelayUs(1));
        lemma_words_written_add(seq![BusEvent::DelayUs(1)], write_strobe());
        lemma_words_written_add(burst_events((n - 1) as nat), repeat_strobe());
    } else {
        assert(burst_events(0).filter(latches_word()) =~= Seq::<BusEvent>::empty());
    }
}

/// However a transaction's inner work went, chip select is high once the
/// transaction is over.
pub proof fn lemma_transaction_releases_chip_select(
    before: Seq<BusEvent>,
    inner: Seq<BusEvent>,
    level: bool,
)
    ensures
        level_after(before + transaction(inner), Line::ChipSelect, level),
{
    let s = before + transaction(inner);
    assert(s.last() == BusEvent::Level(Line::ChipSelect, true));
}

} // verus!
