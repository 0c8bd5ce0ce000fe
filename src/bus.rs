use vstd::prelude::*;

verus! {

/// A control line of the parallel bus.
#[derive(Clone, Copy, Debug, PartialEq, Eq, Structural)]
pub enum Line {
    /// Backlight enable.
    Backlight,
    /// Chip select, active low.
    ChipSelect,
    /// Register select: low for a register index, high for data.
    RegisterSelect,
    /// Write strobe, active low.
    Write,
    /// Read strobe, active low.
    Read,
}

/// One observable action on the bus, in the order it happens.
#[derive(Clone, Copy, Debug, PartialEq, Eq, Structural)]
pub enum BusEvent {
    /// A control line driven high (`true`) or low (`false`).
    Level(Line, bool),
    /// A word driven onto the 16 data lines.
    Drive(u16),
    /// A word sampled from the 16 data lines.
    Sample(u16),
    /// The data lines switched to push-pull outputs.
    OutputMode,
    /// The data lines switched to floating inputs.
    InputMode,
    /// A blocking wait of at least this many microseconds.
    DelayUs(u16),
    /// A blocking wait of at least this many milliseconds.
    DelayMs(u16),
}

/// The lines, data port and timing source that the display controller owns.
///
/// Every operation appends exactly one event to `events`, the history of
/// the bus; none of them can fail.
pub trait LcdBus {
    /// Everything done on the bus so far, oldest first.
    spec fn events(&self) -> Seq<BusEvent>;

    fn set_line(&mut self, line: Line, high: bool)
        ensures
            final(self).events() == old(self).events().push(BusEvent::Level(line, high)),
    ;

    fn drive_bus(&mut self, value: u16)
        ensures
            final(self).events() == old(self).events().push(BusEvent::Drive(value)),
    ;

    fn sample_bus(&mut self) -> (r: u16)
        ensures
            final(self).events() == old(self).events().push(BusEvent::Sample(r)),
    ;

    fn set_output_mode(&mut self)
        ensures
            final(self).events() == old(self).events().push(BusEvent::OutputMode),
    ;

    fn set_input_mode(&mut self)
        ensures
            final(self).events() == old(self).events().push(BusEvent::InputMode),
    ;

    fn delay_us(&mut self, us: u16)
        ensures
            final(self).events() == old(self).events().push(BusEvent::DelayUs(us)),
    ;

    fn delay_ms(&mut self, ms: u16)
        ensures
            final(self).events() == old(self).events().push(BusEvent::DelayMs(ms)),
    ;
}

/// A bus that drives no hardware: it records every event and answers each
/// sample with a fixed word.
pub struct RecordingBus {
    pub log: Vec<BusEvent>,
    pub input: u16,
}

impl RecordingBus {
    pub fn new(input: u16) -> (r: RecordingBus)
        ensures
            r.log@ == Seq::<BusEvent>::empty(),
            r.input == input,
    {
        RecordingBus { log: Vec::new(), input }
    }
}

impl LcdBus for RecordingBus {
    open spec fn events(&self) -> Seq<BusEvent> {
        self.log@
    }

    fn set_line(&mut self, line: Line, high: bool) {
        self.log.push(BusEvent::Level(line, high));
    }

    fn drive_bus(&mut self, value: u16) {
        self.log.push(BusEvent::Drive(value));
    }

    fn sample_bus(&mut self) -> (r: u16) {
        let v = self.input;
        self.log.push(BusEvent::Sample(v));
        v
    }

    fn set_output_mode(&mut self) {
        self.log.push(BusEvent::OutputMode);
    }

    fn set_input_mode(&mut self) {
        self.log.push(BusEvent::InputMode);
    }

    fn delay_us(&mut self, us: u16) {
        self.log.push(BusEvent::DelayUs(us));
    }

    fn delay_ms(&mut self, ms: u16) {
        self.log.push(BusEvent::DelayMs(ms));
    }
}

} // verus!
