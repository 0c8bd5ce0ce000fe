
use ili9328_lcd::bus::{BusEvent, Line, RecordingBus};
use ili9328_lcd::color::Rgb565;
use ili9328_lcd::geometry::{window_point, Point, Rectangle, Rotation, Size};
use ili9328_lcd::lcd::{Lcd, LcdError};

/// The (register, word) pairs written in `log`, in order.
fn register_writes(log: &[BusEvent]) -> Vec<(u16, u16)> {
    let mut out = Vec::new();
    let mut index: Option<u16> = None;
    let mut command = false;
    for e in log {
        match *e {
            BusEvent::Level(Line::RegisterSelect, high) => command = !high,
            BusEvent::Drive(w) if command => index = Some(w),
            BusEvent::Drive(w) => out.push((index.expect("a register is selected"), w)),
            _ => {}
        }
    }
    out
}

fn strobes(log: &[BusEvent]) -> usize {
    log.iter().filter(|e| **e == BusEvent::Level(Line::Write, false)).count()
}

fn fresh() -> Lcd<RecordingBus> {
    Lcd::new(RecordingBus::new(0x9328)).unwrap()
}

fn log_of(lcd: &Lcd<RecordingBus>) -> Vec<BusEvent> {
    lcd.bus().log.clone()
}

#[test]
fn rotation_from_number() {
    assert_eq!(Rotation::try_from(0u32), Ok(Rotation::R0));
    assert_eq!(Rotation::try_from(1u32), Ok(Rotation::R90));
    assert_eq!(Rotation::try_from(2u32), Ok(Rotation::R180));
    assert_eq!(Rotation::try_from(3u32), Ok(Rotation::R270));
    assert_eq!(Rotation::try_from(4u32), Err(LcdError::InvalidRotationId));
}

#[test]
fn rgb565_packs_channels() {
    assert_eq!(Rgb565::new(31, 0, 0).into_raw(), 0xF800);
    assert_eq!(Rgb565::new(0, 63, 0).into_raw(), 0x07E0);
    assert_eq!(Rgb565::new(0, 0, 31).into_raw(), 0x001F);
    assert_eq!(Rgb565::new(255, 255, 255).into_raw(), 0xFFFF);
    assert_eq!(Rgb565::from_raw(0x1234).into_raw(), 0x1234);
}

#[test]
fn new_touches_nothing() {
    let lcd = fresh();
    assert!(log_of(&lcd).is_empty());
    assert_eq!(lcd.size(), Size::new(240, 320));
}

#[test]
fn init_runs_power_on_sequence() {
    let mut lcd = fresh();
    assert_eq!(lcd.init(), Ok(()));
    let log = log_of(&lcd);
    assert_eq!(log[0], BusEvent::Level(Line::Backlight, true));
    assert_eq!(log[1], BusEvent::OutputMode);
    assert_eq!(log[2], BusEvent::DelayMs(130));
    assert!(log.contains(&BusEvent::Sample(0x9328)));
    let writes = register_writes(&log);
    assert_eq!(writes[0], (0x00, 0x0001));
    assert_eq!(*writes.last().unwrap(), (0x07, 0x0133));
    assert!(writes.contains(&(0x03, 0x1030)));
    assert!(writes.contains(&(0x51, 239)));
    assert!(writes.contains(&(0x53, 319)));
    let waits: Vec<u16> = log
        .iter()
        .filter_map(|e| match e {
            BusEvent::DelayMs(ms) => Some(*ms),
            _ => None,
        })
        .collect();
    assert_eq!(waits, vec![130, 50, 200, 50, 50, 50]);
    assert_eq!(*log.last().unwrap(), BusEvent::Level(Line::ChipSelect, true));
}

#[test]
fn end_to_end_sizes_and_red_pixel() {
    let mut lcd = fresh();
    lcd.init().unwrap();
    assert_eq!(lcd.size(), Size::new(240, 320));
    let start = log_of(&lcd).len();
    lcd.draw_pixel(Point::new(0, 0), Rgb565::new(31, 0, 0)).unwrap();
    let log = log_of(&lcd);
    assert_eq!(register_writes(&log[start..]), vec![(0x20, 0), (0x21, 0), (0x22, 0xF800)]);
    lcd.set_rotation(Rotation::R90).unwrap();
    assert_eq!(lcd.size(), Size::new(320, 240));
}

#[test]
fn pixel_under_rotation_lands_on_native_point() {
    let mut lcd = fresh();
    lcd.set_rotation(Rotation::R90).unwrap();
    let start = log_of(&lcd).len();
    lcd.draw_pixel(Point::new(10, 20), Rgb565::from_raw(0x0001)).unwrap();
    let log = log_of(&lcd);
    assert_eq!(register_writes(&log[start..]), vec![(0x20, 219), (0x21, 10), (0x22, 1)]);
}

#[test]
fn max_bottom_right_follows_rotation() {
    let mut lcd = fresh();
    assert_eq!(lcd.max_btm_right(), Point::new(239, 319));
    lcd.set_rotation(Rotation::R90).unwrap();
    assert_eq!(lcd.max_btm_right(), Point::new(319, 239));
    lcd.set_rotation(Rotation::R180).unwrap();
    assert_eq!(lcd.max_btm_right(), Point::new(239, 319));
    lcd.set_rotation(Rotation::R270).unwrap();
    assert_eq!(lcd.max_btm_right(), Point::new(319, 239));
}

#[test]
fn entry_mode_per_rotation() {
    let table = [
        (Rotation::R0, 0x1030),
        (Rotation::R90, 0x1028),
        (Rotation::R180, 0x1000),
        (Rotation::R270, 0x1018),
    ];
    for (rotation, word) in table {
        let mut lcd = fresh();
        lcd.set_rotation(rotation).unwrap();
        assert_eq!(register_writes(&log_of(&lcd)), vec![(0x03, word)]);
    }
}

#[test]
fn set_rotation_twice_is_same() {
    let mut lcd = fresh();
    lcd.set_rotation(Rotation::R270).unwrap();
    let once = log_of(&lcd);
    let size_once = lcd.size();
    lcd.set_rotation(Rotation::R270).unwrap();
    let twice = log_of(&lcd);
    assert_eq!(&twice[once.len()..], &once[..]);
    assert_eq!(lcd.size(), size_once);
}

fn fill_and_count(w: i32, h: i32) -> (Vec<(u16, u16)>, usize, Vec<BusEvent>) {
    let mut lcd = fresh();
    let rect = Rectangle::new(Point::new(10, 20), Point::new(10 + w - 1, 20 + h - 1));
    lcd.fill_rectangle(rect, Rgb565::from_raw(0xABCD)).unwrap();
    let log = log_of(&lcd);
    // six window registers, the graphics RAM select and four reset
    // registers latch one word each besides their index
    let words = strobes(&log) - 6 * 2 - 1 - 4 * 2;
    (register_writes(&log), words, log)
}

#[test]
fn fill_rounds_words_up_to_bursts_of_four() {
    assert_eq!(fill_and_count(1, 1).1, 4);
    assert_eq!(fill_and_count(2, 1).1, 4);
    assert_eq!(fill_and_count(2, 2).1, 4);
    assert_eq!(fill_and_count(5, 1).1, 8);
    assert_eq!(fill_and_count(3, 3).1, 12);
    assert_eq!(fill_and_count(4, 4).1, 16);
}

#[test]
fn fill_programs_window_then_resets_it() {
    let (writes, _, log) = fill_and_count(3, 2);
    assert_eq!(
        &writes[..6],
        &[(0x50, 10), (0x51, 12), (0x52, 20), (0x53, 21), (0x20, 10), (0x21, 20)]
    );
    assert_eq!(writes[6], (0x22, 0xABCD));
    assert_eq!(&writes[7..], &[(0x50, 0), (0x51, 239), (0x52, 0), (0x53, 319)]);
    assert_eq!(*log.last().unwrap(), BusEvent::Level(Line::ChipSelect, true));
}

#[test]
fn fill_under_rotation_orders_corners() {
    let mut lcd = fresh();
    lcd.set_rotation(Rotation::R180).unwrap();
    let start = log_of(&lcd).len();
    let rect = Rectangle::new(Point::new(0, 0), Point::new(9, 4));
    lcd.fill_rectangle(rect, Rgb565::from_raw(7)).unwrap();
    let writes = register_writes(&log_of(&lcd)[start..]);
    assert_eq!(
        &writes[..6],
        &[(0x50, 230), (0x51, 239), (0x52, 315), (0x53, 319), (0x20, 230), (0x21, 315)]
    );
}

#[test]
fn fill_refuses_unordered_rectangle() {
    let mut lcd = fresh();
    let bad_x = Rectangle::new(Point::new(5, 0), Point::new(4, 10));
    let bad_y = Rectangle::new(Point::new(0, 5), Point::new(10, 4));
    assert_eq!(lcd.fill_rectangle(bad_x, Rgb565::from_raw(1)), Err(LcdError::InvalidWindow));
    assert_eq!(lcd.fill_rectangle(bad_y, Rgb565::from_raw(1)), Err(LcdError::InvalidWindow));
    assert!(log_of(&lcd).is_empty());
}

#[test]
fn draw_rectangle_without_fill_does_nothing() {
    let mut lcd = fresh();
    let rect = Rectangle::new(Point::new(0, 0), Point::new(3, 3));
    assert_eq!(lcd.draw_rectangle(rect, None), Ok(()));
    assert!(log_of(&lcd).is_empty());
    assert_eq!(lcd.draw_rectangle(rect, Some(Rgb565::from_raw(2))), Ok(()));
    assert!(register_writes(&log_of(&lcd)).contains(&(0x22, 2)));
}

#[test]
fn every_transaction_releases_chip_select() {
    let mut lcd = fresh();
    lcd.init().unwrap();
    lcd.draw_pixel(Point::new(3, 4), Rgb565::from_raw(9)).unwrap();
    lcd.fill_rectangle(Rectangle::new(Point::new(0, 0), Point::new(2, 2)), Rgb565::from_raw(9))
        .unwrap();
    let _ = lcd.fill_rectangle(Rectangle::new(Point::new(2, 2), Point::new(0, 0)), Rgb565::from_raw(9));
    let mut selected = false;
    for e in log_of(&lcd) {
        if let BusEvent::Level(Line::ChipSelect, high) = e {
            assert_eq!(selected, high, "chip select toggles strictly");
            selected = !high;
        }
    }
    assert!(!selected);
}

#[test]
fn native_mapping_round_trips() {
    let native = Size::new(240, 320);
    let cases = [
        (Rotation::R0, Rotation::R0),
        (Rotation::R90, Rotation::R270),
        (Rotation::R180, Rotation::R180),
        (Rotation::R270, Rotation::R90),
    ];
    for (rotation, inverse) in cases {
        let logical = match rotation {
            Rotation::R0 | Rotation::R180 => native,
            _ => Size::new(320, 240),
        };
        for p in [Point::new(0, 0), Point::new(5, 7), Point::new(logical.width as i32 - 1, logical.height as i32 - 1)] {
            let q = window_point(rotation, p, native);
            assert!(q.x >= 0 && q.x < 240 && q.y >= 0 && q.y < 320);
            assert_eq!(window_point(inverse, q, logical), p);
        }
    }
    assert_eq!(window_point(Rotation::R90, Point::new(0, 0), native), Point::new(239, 0));
    assert_eq!(window_point(Rotation::R270, Point::new(0, 0), native), Point::new(0, 319));
    assert_eq!(window_point(Rotation::R180, Point::new(0, 0), native), Point::new(239, 319));
}
