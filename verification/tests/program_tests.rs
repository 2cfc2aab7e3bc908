use can_monitor_1_rust::log::{EepromImage, Event, EventLog, LogEntry, EEPROM_MAGIC, EEPROM_SIZE};
use can_monitor_1_rust::program::{
    ButtonActions, Command, Monitor, ALARM_THRESHOLD, DUMP_INTERVAL,
};

fn image() -> EepromImage {
    let mut img = EepromImage::from_bytes(vec![0xff; EEPROM_SIZE]).unwrap();
    img.eeprom_init();
    img.take_writes();
    img
}

#[test]
fn new_monitor() {
    let m = Monitor::new();
    assert!(!m.is_running());
    assert!(!m.is_paused());
    assert!(!m.alarm_playing());
    assert!(m.last_button_state);
    assert_eq!(m.blink_counter, 0);
    assert_eq!(m.alarm_count, 0);
    assert_eq!(m.loop_count, 0);
}

#[test]
fn press_toggles_running_and_logs() {
    let mut m = Monitor::new();
    let mut log = EventLog::new();
    assert!(!m.press_started(false));
    assert!(m.press_started(true) == false);
    m.record_button(false);
    assert!(m.press_started(true));
    m.confirm_press(true, &mut log);
    assert!(m.is_running());
    m.record_button(true);
    assert!(!m.press_started(true));
    m.record_button(false);
    assert!(m.press_started(true));
    m.confirm_press(true, &mut log);
    assert!(!m.is_running());
    assert_eq!(
        log.dump_logs(),
        vec![
            LogEntry { timestamp_ms: 0, event: Event::Resumed },
            LogEntry { timestamp_ms: 0, event: Event::Paused },
        ]
    );
}

#[test]
fn bounce_does_not_toggle() {
    let mut m = Monitor::new();
    let mut log = EventLog::new();
    m.confirm_press(false, &mut log);
    assert!(!m.is_running());
    assert!(log.dump_logs().is_empty());
}

#[test]
fn blink_only_while_running() {
    let mut m = Monitor::new();
    assert!(!m.blink_tick());
    assert_eq!(m.blink_counter, 0);
    let mut log = EventLog::new();
    m.confirm_press(true, &mut log);
    let mut lows = Vec::new();
    for _ in 0..100 {
        lows.push(m.blink_tick());
    }
    for (k, low) in lows.iter().enumerate() {
        let n = k + 1;
        assert_eq!(*low, n % 50 >= 25);
    }
    assert_eq!(m.blink_counter, 0);
}

#[test]
fn commands() {
    let mut m = Monitor::new();
    let mut log = EventLog::new();
    let mut ee = image();
    assert_eq!(m.handle_command(b'r', &mut log, &mut ee), Command::Ignored);
    assert_eq!(m.handle_command(b'p', &mut log, &mut ee), Command::Pause);
    assert!(m.is_paused());
    assert_eq!(m.handle_command(b'P', &mut log, &mut ee), Command::Ignored);
    assert_eq!(m.handle_command(b'd', &mut log, &mut ee), Command::Dump);
    assert_eq!(m.handle_command(b'D', &mut log, &mut ee), Command::Dump);
    assert_eq!(m.handle_command(b'x', &mut log, &mut ee), Command::Ignored);
    assert_eq!(m.handle_command(b'R', &mut log, &mut ee), Command::Resume);
    assert!(!m.is_paused());
    assert_eq!(
        log.dump_logs(),
        vec![
            LogEntry { timestamp_ms: 0, event: Event::Paused },
            LogEntry { timestamp_ms: 0, event: Event::Resumed },
        ]
    );
}

#[test]
fn check_sensors_advances_uptime() {
    let mut m = Monitor::new();
    let mut log = EventLog::new();
    assert!(m.check_sensors(false, false, &mut log));
    assert!(m.check_sensors(true, false, &mut log));
    assert_eq!(log.uptime_ms(), 10);
    assert_eq!(m.health.top_stuck_count(), 1);
}

#[test]
fn sensor_fault_logged_with_uptime() {
    let mut m = Monitor::new();
    let mut log = EventLog::new();
    for _ in 1..5000 {
        assert!(m.check_sensors(true, false, &mut log));
    }
    assert!(!m.check_sensors(true, false, &mut log));
    assert_eq!(
        log.dump_logs(),
        vec![LogEntry { timestamp_ms: 25000, event: Event::SensorTopStuck }]
    );
}

#[test]
fn alarm_triggers_on_tenth_reading_and_clears() {
    let mut m = Monitor::new();
    let mut log = EventLog::new();
    for i in 1..ALARM_THRESHOLD {
        assert!(!m.update_alarm(false, true, &mut log));
        assert_eq!(m.alarm_count, i);
        assert!(!m.alarm_playing());
    }
    assert!(!m.update_alarm(false, true, &mut log));
    assert!(m.alarm_playing());
    for _ in 0..300 {
        assert!(!m.update_alarm(false, true, &mut log));
    }
    assert_eq!(m.alarm_count, u8::MAX);
    assert_eq!(log.dump_logs(), vec![LogEntry { timestamp_ms: 0, event: Event::AlarmTriggered }]);
    assert!(m.update_alarm(true, true, &mut log));
    assert!(!m.alarm_playing());
    assert_eq!(m.alarm_count, 0);
    assert!(!m.update_alarm(false, false, &mut log));
    assert_eq!(
        log.dump_logs(),
        vec![
            LogEntry { timestamp_ms: 0, event: Event::AlarmTriggered },
            LogEntry { timestamp_ms: 0, event: Event::AlarmCleared },
        ]
    );
}

#[test]
fn interrupted_run_does_not_trigger() {
    let mut m = Monitor::new();
    let mut log = EventLog::new();
    for _ in 0..9 {
        m.update_alarm(false, true, &mut log);
    }
    m.update_alarm(true, false, &mut log);
    for _ in 0..9 {
        m.update_alarm(false, true, &mut log);
    }
    assert!(!m.alarm_playing());
    assert!(log.dump_logs().is_empty());
}

#[test]
fn periodic_dump() {
    let mut m = Monitor::new();
    for i in 1..=(2 * DUMP_INTERVAL) {
        let due = m.count_iteration();
        assert_eq!(due, i % DUMP_INTERVAL == 0);
    }
    assert_eq!(m.loop_count, 60000);
}

#[test]
fn eeprom_commands() {
    let mut m = Monitor::new();
    let mut log = EventLog::new();
    let mut ee = image();
    ee.eeprom_log_event(Event::Startup, 9);
    ee.take_writes();
    assert_eq!(m.handle_command(b'e', &mut log, &mut ee), Command::EepromDump);
    assert_eq!(ee.eeprom_dump_logs().len(), 1);
    assert!(ee.take_writes().is_empty());
    // uppercase bytes are no EEPROM commands
    assert_eq!(m.handle_command(b'E', &mut log, &mut ee), Command::Ignored);
    assert_eq!(m.handle_command(b'C', &mut log, &mut ee), Command::Ignored);
    assert!(ee.take_writes().is_empty());
    assert_eq!(ee.eeprom_dump_logs().len(), 1);
    assert_eq!(m.handle_command(b'c', &mut log, &mut ee), Command::EepromClear);
    assert_eq!(ee.take_writes(), vec![(1, 0), (2, 0)]);
    assert!(ee.eeprom_dump_logs().is_empty());
    assert_eq!(ee.bytes()[0], EEPROM_MAGIC);
    assert!(log.dump_logs().is_empty());
}

#[test]
fn button_step_debounces_and_blinks() {
    let mut m = Monitor::new();
    let mut log = EventLog::new();
    assert_eq!(m.button_step(false, false, &mut log), ButtonActions { drive_light_low: false, active: false });
    assert!(m.press_started(true));
    assert_eq!(m.button_step(true, false, &mut log), ButtonActions { drive_light_low: false, active: false });
    assert!(log.dump_logs().is_empty());
    m.button_step(false, false, &mut log);
    let a = m.button_step(true, true, &mut log);
    assert_eq!(a, ButtonActions { drive_light_low: false, active: true });
    assert_eq!(m.blink_counter, 1);
    assert_eq!(log.dump_logs(), vec![LogEntry { timestamp_ms: 0, event: Event::Resumed }]);
    for n in 2..=60u16 {
        let a = m.button_step(true, true, &mut log);
        assert!(a.active);
        assert_eq!(a.drive_light_low, n % 50 >= 25);
    }
    assert_eq!(log.dump_logs().len(), 1);
    assert_eq!(log.uptime_ms(), 0);
}

#[test]
fn new_running_monitor() {
    let m = Monitor::new_running();
    assert!(m.is_running());
    assert!(!m.is_paused());
    assert_eq!(m.loop_count, 0);
}

#[test]
fn startup_log() {
    let log = EventLog::startup();
    assert_eq!(log.uptime_ms(), 0);
    assert_eq!(log.dump_logs(), vec![LogEntry { timestamp_ms: 0, event: Event::Startup }]);
}

#[test]
fn reading_steps_raise_and_clear_alarm() {
    let mut m = Monitor::new_running();
    let mut log = EventLog::new();
    for i in 1..=10u32 {
        let a = m.reading_step(false, true, &mut log);
        assert!(a.fault_dump.is_none());
        assert!(!a.silence);
        assert_eq!(a.play_alarm, i >= 10);
        assert!(a.periodic_dump.is_none());
    }
    assert_eq!(log.uptime_ms(), 50);
    assert_eq!(m.loop_count, 10);
    assert_eq!(log.dump_logs(), vec![LogEntry { timestamp_ms: 50, event: Event::AlarmTriggered }]);
    let a = m.reading_step(false, false, &mut log);
    assert!(a.silence);
    assert!(!a.play_alarm);
    assert_eq!(log.dump_logs()[1], LogEntry { timestamp_ms: 55, event: Event::AlarmCleared });
}

#[test]
fn command_step_pause_and_resume() {
    let mut m = Monitor::new_running();
    let mut log = EventLog::new();
    let mut ee = image();
    let c = m.command_step(Some(b'p'), &mut log, &mut ee);
    assert_eq!(c.command, Command::Pause);
    assert_eq!(c.command_dump, Some(vec![LogEntry { timestamp_ms: 0, event: Event::Paused }]));
    assert!(c.eeprom_dump.is_none());
    assert!(!c.read_sensors);
    let c = m.command_step(None, &mut log, &mut ee);
    assert_eq!(c.command, Command::Ignored);
    assert!(!c.read_sensors);
    assert_eq!(log.uptime_ms(), 0);
    let c = m.command_step(Some(b'r'), &mut log, &mut ee);
    assert_eq!(c.command, Command::Resume);
    assert!(c.command_dump.is_none());
    assert!(c.read_sensors);
}

#[test]
fn command_step_dump_is_taken_before_reading() {
    let mut m = Monitor::new_running();
    let mut log = EventLog::new();
    let mut ee = image();
    for _ in 0..9 {
        m.reading_step(false, true, &mut log);
    }
    let c = m.command_step(Some(b'd'), &mut log, &mut ee);
    assert_eq!(c.command, Command::Dump);
    assert_eq!(c.command_dump, Some(vec![]));
    assert!(c.read_sensors);
    let a = m.reading_step(false, true, &mut log);
    assert!(a.play_alarm);
    assert_eq!(log.dump_logs().len(), 1);
}

#[test]
fn fault_dump_precedes_alarm_events() {
    let mut m = Monitor::new_running();
    let mut log = EventLog::new();
    for _ in 0..10 {
        m.reading_step(false, true, &mut log);
    }
    assert!(m.alarm_playing());
    for _ in 1..5000 {
        let a = m.reading_step(true, false, &mut log);
        assert!(a.fault_dump.is_none());
    }
    let a = m.reading_step(true, false, &mut log);
    let d = a.fault_dump.unwrap();
    assert_eq!(d.last().unwrap().event, Event::SensorTopStuck);
    assert_eq!(d.len(), 3);
    assert_eq!(log.dump_logs().len(), 3);
}

#[test]
fn command_step_eeprom_commands() {
    let mut m = Monitor::new_running();
    let mut log = EventLog::new();
    let mut ee = image();
    ee.eeprom_log_event(Event::Paused, 77);
    ee.take_writes();
    let c = m.command_step(Some(b'e'), &mut log, &mut ee);
    assert_eq!(c.command, Command::EepromDump);
    assert_eq!(c.eeprom_dump, Some(vec![LogEntry { timestamp_ms: 77, event: Event::Paused }]));
    assert!(c.read_sensors);
    let c = m.command_step(Some(b'C'), &mut log, &mut ee);
    assert_eq!(c.command, Command::Ignored);
    assert!(ee.take_writes().is_empty());
    let c = m.command_step(Some(b'c'), &mut log, &mut ee);
    assert_eq!(c.command, Command::EepromClear);
    assert!(c.eeprom_dump.is_none());
    assert_eq!(ee.take_writes(), vec![(1, 0), (2, 0)]);
    assert!(ee.eeprom_dump_logs().is_empty());
}

#[test]
fn periodic_dump_from_reading_step() {
    let mut m = Monitor::new_running();
    let mut log = EventLog::new();
    for i in 1..=DUMP_INTERVAL {
        let a = m.reading_step(false, false, &mut log);
        assert_eq!(a.periodic_dump.is_some(), i == DUMP_INTERVAL);
    }
    assert_eq!(log.uptime_ms(), 5 * DUMP_INTERVAL);
}
