use can_monitor_1_rust::log::{
    EepromImage, Event, LogEntry, EEPROM_MAGIC, EEPROM_MAX_ENTRIES, EEPROM_SIZE,
};

fn blank() -> EepromImage {
    EepromImage::from_bytes(vec![0xff; EEPROM_SIZE]).unwrap()
}

fn formatted() -> EepromImage {
    let mut img = blank();
    img.eeprom_init();
    img.take_writes();
    img
}

#[test]
fn image_needs_exact_size() {
    assert!(EepromImage::from_bytes(vec![0; EEPROM_SIZE - 1]).is_none());
    assert!(EepromImage::from_bytes(vec![0; EEPROM_SIZE + 1]).is_none());
    assert!(EepromImage::from_bytes(vec![0; EEPROM_SIZE]).is_some());
}

#[test]
fn max_entries_fill_the_eeprom() {
    assert_eq!(EEPROM_MAX_ENTRIES, 204);
}

#[test]
fn init_formats_a_blank_eeprom() {
    let mut img = blank();
    img.eeprom_init();
    assert_eq!(img.bytes()[0], EEPROM_MAGIC);
    assert_eq!(img.ee_read_ptr(), 0);
    assert_eq!(img.take_writes(), vec![(0, 0xab), (1, 0), (2, 0)]);
    assert!(img.eeprom_dump_logs().is_empty());
}

#[test]
fn init_leaves_a_formatted_eeprom_alone() {
    let mut img = formatted();
    img.eeprom_log_event(Event::Startup, 7);
    img.take_writes();
    let before = img.bytes().clone();
    img.eeprom_init();
    assert_eq!(*img.bytes(), before);
    assert!(img.take_writes().is_empty());
}

#[test]
fn pointer_is_little_endian() {
    let mut img = blank();
    img.ee_write_ptr(0x1234);
    assert_eq!(img.ee_read(1), 0x34);
    assert_eq!(img.ee_read(2), 0x12);
    assert_eq!(img.ee_read_ptr(), 0x1234);
    assert_eq!(img.take_writes(), vec![(1, 0x34), (2, 0x12)]);
}

#[test]
fn log_event_writes_record_then_pointer() {
    let mut img = formatted();
    img.eeprom_log_event(Event::AlarmTriggered, 0x0403_0201);
    assert_eq!(
        img.take_writes(),
        vec![(3, 5), (4, 1), (5, 2), (6, 3), (7, 4), (1, 1), (2, 0)]
    );
    img.eeprom_log_event(Event::Paused, 300);
    assert_eq!(
        img.take_writes(),
        vec![(8, 8), (9, 44), (10, 1), (11, 0), (12, 0), (1, 2), (2, 0)]
    );
    assert_eq!(
        img.eeprom_dump_logs(),
        vec![
            LogEntry { timestamp_ms: 0x0403_0201, event: Event::AlarmTriggered },
            LogEntry { timestamp_ms: 300, event: Event::Paused },
        ]
    );
}

#[test]
fn full_log_ignores_new_events() {
    let mut img = formatted();
    for i in 0..(EEPROM_MAX_ENTRIES as u32) {
        img.eeprom_log_event(Event::Resumed, i);
    }
    img.take_writes();
    assert_eq!(img.ee_read_ptr(), EEPROM_MAX_ENTRIES);
    let before = img.bytes().clone();
    img.eeprom_log_event(Event::Startup, 99);
    assert_eq!(*img.bytes(), before);
    assert!(img.take_writes().is_empty());
    let d = img.eeprom_dump_logs();
    assert_eq!(d.len(), EEPROM_MAX_ENTRIES as usize);
    assert_eq!(d[203], LogEntry { timestamp_ms: 203, event: Event::Resumed });
}

#[test]
fn unformatted_pointer_is_past_the_end() {
    let mut img = blank();
    assert_eq!(img.ee_read_ptr(), 0xffff);
    img.eeprom_log_event(Event::Startup, 1);
    assert!(img.take_writes().is_empty());
    let d = img.eeprom_dump_logs();
    assert_eq!(d.len(), 204);
    assert_eq!(d[0], LogEntry { timestamp_ms: u32::MAX, event: Event::Empty });
}

#[test]
fn clear_empties_the_log() {
    let mut img = formatted();
    img.eeprom_log_event(Event::Startup, 1);
    img.eeprom_log_event(Event::Paused, 2);
    img.take_writes();
    img.eeprom_clear_logs();
    assert_eq!(img.take_writes(), vec![(1, 0), (2, 0)]);
    assert!(img.eeprom_dump_logs().is_empty());
    img.eeprom_log_event(Event::Resumed, 3);
    assert_eq!(img.eeprom_dump_logs(), vec![LogEntry { timestamp_ms: 3, event: Event::Resumed }]);
}

#[test]
fn unknown_stored_code_reads_as_empty() {
    let mut bytes = vec![0u8; EEPROM_SIZE];
    bytes[0] = EEPROM_MAGIC;
    bytes[1] = 1;
    bytes[3] = 42;
    bytes[4] = 10;
    let img = EepromImage::from_bytes(bytes).unwrap();
    assert_eq!(img.eeprom_dump_logs(), vec![LogEntry { timestamp_ms: 10, event: Event::Empty }]);
}

#[test]
fn clear_keeps_record_bytes() {
    let mut img = formatted();
    img.eeprom_log_event(Event::Startup, 0x1234_5678);
    let before = img.bytes().clone();
    img.eeprom_clear_logs();
    assert_eq!(img.bytes()[0], before[0]);
    assert_eq!(&img.bytes()[3..], &before[3..]);
    assert_eq!(img.ee_read_ptr(), 0);
}

#[test]
fn clear_then_log_many_dumps_all_in_order() {
    let mut img = formatted();
    for i in 0..50u32 {
        img.eeprom_log_event(Event::AlarmTriggered, i);
    }
    img.eeprom_clear_logs();
    let events = [Event::Startup, Event::Paused, Event::Resumed, Event::AlarmCleared];
    for i in 0..(EEPROM_MAX_ENTRIES as u32) {
        img.eeprom_log_event(events[(i % 4) as usize], 1000 + i);
    }
    let d = img.eeprom_dump_logs();
    assert_eq!(d.len(), EEPROM_MAX_ENTRIES as usize);
    for (k, e) in d.iter().enumerate() {
        assert_eq!(*e, LogEntry { timestamp_ms: 1000 + k as u32, event: events[k % 4] });
    }
}
