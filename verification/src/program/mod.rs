use vstd::prelude::*;
use crate::alarm::AlarmState;
use crate::log::{Event, EventLog, LogEntry, dumped};
use crate::log::eeprom::{EepromImage, ptr_writes, stored_entries, with_ptr};
use crate::sensor::{SensorHealth, STUCK_THRESHOLD, next_top_count, top_only_reading};

verus! {

/// Consecutive readings with only the bottom sensor active that set off the alarm.
pub const ALARM_THRESHOLD: u8 = 10;
/// Loop iterations that the button's light spends in each half of a blink.
pub const BLINK_HALF_PERIOD: u16 = 25;
/// The log is dumped every this many sensor readings.
pub const DUMP_INTERVAL: u32 = 30000;
/// Milliseconds that the uptime clock advances per sensor reading.
pub const UPTIME_STEP_MS: u32 = 5;

/// `p`: pause.
pub const CMD_PAUSE: u8 = 0x70;
/// `P`: pause.
pub const CMD_PAUSE_UPPER: u8 = 0x50;
/// `r`: resume.
pub const CMD_RESUME: u8 = 0x72;
/// `R`: resume.
pub const CMD_RESUME_UPPER: u8 = 0x52;
/// `d`: dump the log.
pub const CMD_DUMP: u8 = 0x64;
/// `D`: dump the log.
pub const CMD_DUMP_UPPER: u8 = 0x44;
/// `e`: dump the EEPROM log (lowercase only).
pub const CMD_EEPROM_DUMP: u8 = 0x65;
/// `c`: clear the EEPROM log (lowercase only).
pub const CMD_EEPROM_CLEAR: u8 = 0x63;

/// What a command byte from the serial line asks of the caller, beyond
/// what `Monitor::handle_command` has already done itself.
#[derive(Clone, Copy, Debug, PartialEq, Eq, Structural)]
pub enum Command {
    /// Nothing: the byte is not a command, or asks for the state the monitor is in.
    Ignored,
    /// The monitor has paused: dump the log and announce the pause.
    Pause,
    /// The monitor has resumed: announce it.
    Resume,
    /// Dump the log.
    Dump,
    /// Dump the EEPROM log.
    EepromDump,
    /// The EEPROM log has been cleared.
    EepromClear,
}

/// The `Command` that a byte asks for, given whether the monitor is paused.
pub open spec fn command_for(byte: u8, paused: bool) -> Command {
    if (byte == CMD_PAUSE || byte == CMD_PAUSE_UPPER) && !paused {
        Command::Pause
    } else if (byte == CMD_RESUME || byte == CMD_RESUME_UPPER) && paused {
        Command::Resume
    } else if byte == CMD_DUMP || byte == CMD_DUMP_UPPER {
        Command::Dump
    } else if byte == CMD_EEPROM_DUMP {
        Command::EepromDump
    } else if byte == CMD_EEPROM_CLEAR {
        Command::EepromClear
    } else {
        Command::Ignored
    }
}

/// `entries` after `event` is logged at `uptime`.
pub open spec fn logged(entries: Seq<LogEntry>, uptime: u32, event: Event) -> Seq<LogEntry> {
    entries.drop_first().push(LogEntry { timestamp_ms: uptime, event })
}

/// The log's records after a command: a pause or a resume is logged.
pub open spec fn command_log(entries: Seq<LogEntry>, uptime: u32, cmd: Command) -> Seq<LogEntry> {
    if cmd == Command::Pause {
        logged(entries, uptime, Event::Paused)
    } else if cmd == Command::Resume {
        logged(entries, uptime, Event::Resumed)
    } else {
        entries
    }
}

/// Whether the monitor is paused after a command.
pub open spec fn paused_after(paused: bool, cmd: Command) -> bool {
    if cmd == Command::Pause {
        true
    } else if cmd == Command::Resume {
        false
    } else {
        paused
    }
}

/// The command that an iteration's serial input asks for.
pub open spec fn serial_command(serial: Option<u8>, paused: bool) -> Command {
    match serial {
        Some(b) => command_for(b, paused),
        None => Command::Ignored,
    }
}

/// What an iteration of the main loop asks of the caller after the button:
/// whether to drive the button's light low, and whether the monitor runs,
/// so that the rest of the iteration (`Monitor::command_step`) is due;
/// otherwise the caller waits `STOPPED_WAIT_MS`.
#[derive(Clone, Copy, Debug, PartialEq, Eq, Structural)]
pub struct ButtonActions {
    pub drive_light_low: bool,
    pub active: bool,
}

/// Milliseconds an iteration waits while the monitor is stopped.
pub const STOPPED_WAIT_MS: u32 = 25;
/// Milliseconds an iteration waits while the monitor is paused.
pub const PAUSED_WAIT_MS: u32 = 50;
/// Milliseconds an iteration waits after a sensor reading.
pub const READING_WAIT_MS: u32 = 20;

/// What the serial command of an iteration of the running monitor asks of
/// the caller: answer `command`, printing `command_dump` (a pause or a dump)
/// and `eeprom_dump` (an EEPROM dump) when they are there; then, if
/// `read_sensors`, read the sensors and hand them to
/// `Monitor::reading_step`, else wait `PAUSED_WAIT_MS`.
pub struct CommandActions {
    pub command: Command,
    pub command_dump: Option<Vec<LogEntry>>,
    pub eeprom_dump: Option<Vec<LogEntry>>,
    pub read_sensors: bool,
}

/// What a sensor reading asks of the caller, in this order: beep and print
/// `fault_dump` when it is there, silence the buzzer when `silence`, play
/// the alarm when `play_alarm`, print `periodic_dump` when it is there;
/// then wait `READING_WAIT_MS`.
pub struct ReadingActions {
    pub fault_dump: Option<Vec<LogEntry>>,
    pub silence: bool,
    pub play_alarm: bool,
    pub periodic_dump: Option<Vec<LogEntry>>,
}

/// `d` holds records whose view is `s`.
pub open spec fn holds(d: Option<Vec<LogEntry>>, s: Seq<LogEntry>) -> bool {
    d matches Some(v) && v@ == s
}

/// `n + 1`, held at `u8::MAX`.
pub open spec fn saturating_inc_u8(n: u8) -> u8 {
    if n == u8::MAX {
        n
    } else {
        (n + 1) as u8
    }
}

/// The blink counter after one more iteration: it counts up and starts
/// again at 0 when it reaches two half periods.
pub open spec fn next_blink(counter: u16) -> u16 {
    let c = counter.wrapping_add(1);
    if c >= 2 * BLINK_HALF_PERIOD {
        0
    } else {
        c
    }
}

/// Whether a reading has only the bottom sensor active: what the alarm
/// listens for.
pub open spec fn alarm_reading(top: bool, bottom: bool) -> bool {
    bottom && !top
}

/// The alarm's count of consecutive alarm readings and whether it sounds,
/// after one more reading.
pub open spec fn alarm_next(count: u8, playing: bool, top: bool, bottom: bool) -> (u8, bool) {
    if alarm_reading(top, bottom) {
        let c = saturating_inc_u8(count);
        (c, playing || c >= ALARM_THRESHOLD)
    } else {
        (0, false)
    }
}

/// How many readings, `(top, bottom)`, at the end of `readings` are alarm
/// readings, in a row.
pub open spec fn alarm_run(readings: Seq<(bool, bool)>) -> nat
    decreases readings.len(),
{
    if readings.len() == 0 {
        0
    } else if alarm_reading(readings.last().0, readings.last().1) {
        alarm_run(readings.drop_last()) + 1
    } else {
        0
    }
}

/// The alarm's count and whether it sounds after `Monitor::update_alarm`
/// has taken each of `readings`, in order, from a quiet alarm.
pub open spec fn alarm_after(readings: Seq<(bool, bool)>) -> (u8, bool)
    decreases readings.len(),
{
    if readings.len() == 0 {
        (0, false)
    } else {
        let (c, p) = alarm_after(readings.drop_last());
        alarm_next(c, p, readings.last().0, readings.last().1)
    }
}

/// From a quiet alarm, the alarm sounds exactly when the history ends in a
/// run of at least `ALARM_THRESHOLD` alarm readings, its count being the
/// run's length held at `u8::MAX`. So the alarm starts (and `update_alarm`
/// logs `AlarmTriggered`) exactly at the `ALARM_THRESHOLD`-th reading of a
/// run: at most once per run.
pub proof fn lemma_alarm_sounds_after_threshold(readings: Seq<(bool, bool)>)
    ensures
        alarm_after(readings) == (
            if alarm_run(readings) < u8::MAX { alarm_run(readings) as u8 } else { u8::MAX },
            alarm_run(readings) >= ALARM_THRESHOLD,
        ),
        readings.len() > 0 ==> (!alarm_after(readings.drop_last()).1 && alarm_after(readings).1
            <==> alarm_run(readings) == ALARM_THRESHOLD),
    decreases readings.len(),
{
    if readings.len() > 0 {
        lemma_alarm_sounds_after_threshold(readings.drop_last());
    }
}

/// Any reading that is not an alarm reading silences the alarm and clears
/// its count, whatever state it was in.
pub proof fn lemma_alarm_clears(count: u8, playing: bool, top: bool, bottom: bool)
    requires
        !alarm_reading(top, bottom),
    ensures
        alarm_next(count, playing, top, bottom) == (0u8, false),
{
}

/// The blink counter after `n` iterations from `counter`.
pub open spec fn blink_after(counter: u16, n: nat) -> u16
    decreases n,
{
    if n == 0 {
        counter
    } else {
        next_blink(blink_after(counter, (n - 1) as nat))
    }
}

/// While running, the blink counter started at 0 is the number of
/// iterations modulo two half periods: the light's line is driven low in
/// the second half of every period of `2 * BLINK_HALF_PERIOD` iterations.
pub proof fn lemma_blink_period(n: nat)
    ensures
        blink_after(0, n) == n % (2 * BLINK_HALF_PERIOD) as nat,
    decreases n,
{
    if n > 0 {
        lemma_blink_period((n - 1) as nat);
        let m = (n - 1) as nat;
        vstd::arithmetic::div_mod::lemma_fundamental_div_mod(m as int, 50);
        vstd::arithmetic::div_mod::lemma_fundamental_div_mod(n as int, 50);
        assert(m % 50 < 50);
        let prev = blink_after(0, m);
        assert(prev == m % 50);
        assert(prev.wrapping_add(1) == prev + 1);
        if m % 50 == 49 {
            assert(n % 50 == 0) by {
                vstd::arithmetic::div_mod::lemma_fundamental_div_mod_converse(n as int, 50, m as int / 50 + 1, 0);
            }
        } else {
            assert(n % 50 == m % 50 + 1) by {
                vstd::arithmetic::div_mod::lemma_fundamental_div_mod_converse(n as int, 50, m as int / 50, (m % 50 + 1) as int);
            }
        }
    }
}

/// Whether the monitor runs, and its blink counter, after a press that
/// `Monitor::press_started` reported, given whether the button is still
/// pressed after the debounce delay.
pub open spec fn after_confirmed_press(running: bool, blink: u16, still_pressed: bool) -> (bool, u16) {
    if still_pressed {
        (!running, 0)
    } else {
        (running, blink)
    }
}

/// Two confirmed presses start and stop the monitor again, back where it
/// was, with the blink restarted; a press that does not last through the
/// debounce delay changes nothing.
pub proof fn lemma_press_twice(running: bool, blink: u16)
    ensures
        after_confirmed_press(
            after_confirmed_press(running, blink, true).0,
            after_confirmed_press(running, blink, true).1,
            true,
        ) == (running, 0u16),
        after_confirmed_press(running, blink, false) == (running, blink),
{
}

/// The monitor's timing and thresholds: the alarm sounds at the 10th
/// alarm reading in a row, the light blinks with a half period of 25
/// iterations, the log is dumped every 30000 readings, the clock moves 5 ms
/// per reading, and a stopped, paused or reading iteration waits 25, 50 or
/// 20 ms.
pub proof fn lemma_monitor_constants()
    ensures
        ALARM_THRESHOLD == 10,
        BLINK_HALF_PERIOD == 25,
        DUMP_INTERVAL == 30000,
        UPTIME_STEP_MS == 5,
        STOPPED_WAIT_MS == 25,
        PAUSED_WAIT_MS == 50,
        READING_WAIT_MS == 20,
{
}

/// One alarm step: a reading with the bottom sensor active and the top one
/// not adds one to the count (held at 255) and sounds the alarm once the
/// count is 10 or more (a sounding alarm keeps sounding); every other
/// reading clears the count and silences it.
pub proof fn lemma_alarm_step(count: u8, playing: bool, top: bool, bottom: bool)
    ensures
        bottom && !top ==> alarm_next(count, playing, top, bottom) == (
            if count == 255 { 255u8 } else { (count + 1) as u8 },
            playing || count + 1 >= 10,
        ),
        !(bottom && !top) ==> alarm_next(count, playing, top, bottom) == (0u8, false),
{
}

/// The blink counter counts 0, 1, ..., 49 and then starts again at 0; a
/// confirmed press flips whether the monitor runs and restarts the blink,
/// an unconfirmed one changes nothing.
pub proof fn lemma_blink_and_press_steps(counter: u16, running: bool)
    ensures
        counter < 49 ==> next_blink(counter) == counter + 1,
        49 <= counter < 65535 ==> next_blink(counter) == 0,
        next_blink(65535) == 0,
        after_confirmed_press(running, counter, true) == (!running, 0u16),
        after_confirmed_press(running, counter, false) == (running, counter),
{
}

/// The command bytes, for every paused state: `p` and `P` pause a running
/// monitor, `r` and `R` resume a paused one, `d` and `D` ask for a dump,
/// lowercase `e` dumps and lowercase `c` clears the EEPROM log; every other
/// byte, and a pause or resume that changes nothing, is ignored. Only a
/// pause or a resume moves the paused flag, and no command but a pause or a
/// resume is logged.
pub proof fn lemma_command_bytes(byte: u8, paused: bool, entries: Seq<LogEntry>, uptime: u32)
    ensures
        serial_command(None, paused) == Command::Ignored,
        serial_command(Some(byte), paused) == command_for(byte, paused),
        command_for(0x70, false) == Command::Pause,
        command_for(0x50, false) == Command::Pause,
        command_for(0x70, true) == Command::Ignored,
        command_for(0x50, true) == Command::Ignored,
        command_for(0x72, true) == Command::Resume,
        command_for(0x52, true) == Command::Resume,
        command_for(0x72, false) == Command::Ignored,
        command_for(0x52, false) == Command::Ignored,
        command_for(0x64, paused) == Command::Dump,
        command_for(0x44, paused) == Command::Dump,
        command_for(0x65, paused) == Command::EepromDump,
        command_for(0x63, paused) == Command::EepromClear,
        command_for(0x45, paused) == Command::Ignored,
        command_for(0x43, paused) == Command::Ignored,
        !(byte == 0x70 || byte == 0x50 || byte == 0x72 || byte == 0x52 || byte == 0x64 || byte
            == 0x44 || byte == 0x65 || byte == 0x63) ==> command_for(byte, paused)
            == Command::Ignored,
        paused_after(paused, Command::Pause),
        !paused_after(paused, Command::Resume),
        paused_after(paused, Command::Dump) == paused,
        paused_after(paused, Command::EepromDump) == paused,
        paused_after(paused, Command::EepromClear) == paused,
        paused_after(paused, Command::Ignored) == paused,
        command_log(entries, uptime, Command::Pause) == entries.drop_first().push(
            LogEntry { timestamp_ms: uptime, event: Event::Paused },
        ),
        command_log(entries, uptime, Command::Resume) == entries.drop_first().push(
            LogEntry { timestamp_ms: uptime, event: Event::Resumed },
        ),
        command_log(entries, uptime, Command::Dump) == entries,
        command_log(entries, uptime, Command::EepromDump) == entries,
        command_log(entries, uptime, Command::EepromClear) == entries,
        command_log(entries, uptime, Command::Ignored) == entries,
{
}

/// A dump handed out holds exactly the records asked for; no dump holds
/// anything.
pub proof fn lemma_holds(v: Vec<LogEntry>, s: Seq<LogEntry>)
    ensures
        holds(Some(v), s) <==> v@ == s,
        !holds(None, s),
{
}

/// Whether the monitor runs after presses whose confirmation (the button
/// still pressed after the debounce delay) is `confirmed`, in order.
pub open spec fn running_after(running: bool, confirmed: Seq<bool>) -> bool
    decreases confirmed.len(),
{
    if confirmed.len() == 0 {
        running
    } else if confirmed.last() {
        !running_after(running, confirmed.drop_last())
    } else {
        running_after(running, confirmed.drop_last())
    }
}

/// How many of `s` are `true`.
pub open spec fn count_true(s: Seq<bool>) -> nat
    decreases s.len(),
{
    if s.len() == 0 {
        0
    } else {
        count_true(s.drop_last()) + if s.last() { 1nat } else { 0nat }
    }
}

/// A monitor that starts stopped runs exactly when an odd number of
/// presses have been confirmed: only the debounced button starts and
/// stops it. Until it runs, no command is read and no sensor reading taken
/// (`command_step` and `reading_step` require it to run).
pub proof fn lemma_running_parity(confirmed: Seq<bool>)
    ensures
        running_after(false, confirmed) == (count_true(confirmed) % 2 == 1),
    decreases confirmed.len(),
{
    if confirmed.len() > 0 {
        lemma_running_parity(confirmed.drop_last());
    }
}

/// The uptime clock after `n` sensor readings from `u`.
pub open spec fn uptime_after(u: u32, n: nat) -> u32
    decreases n,
{
    if n == 0 {
        u
    } else {
        uptime_after(u, (n - 1) as nat).wrapping_add(UPTIME_STEP_MS)
    }
}

/// The uptime clock moves only with sensor readings (`reading_step`;
/// `button_step` and `command_step` leave it alone), by `UPTIME_STEP_MS`
/// each, wrapping around at `u32::MAX`.
pub proof fn lemma_uptime_counts_readings(u: u32, n: nat)
    ensures
        uptime_after(u, n) == ((u + UPTIME_STEP_MS * n) % 0x1_0000_0000) as u32,
    decreases n,
{
    if n > 0 {
        lemma_uptime_counts_readings(u, (n - 1) as nat);
        let a = u + UPTIME_STEP_MS * (n - 1);
        vstd::arithmetic::div_mod::lemma_add_mod_noop(a, 5, 0x1_0000_0000);
    }
}

/// The decisions of the monitor's main loop: whether it runs or is paused,
/// the light of the run button, the alarm, and when to dump the log.
pub struct Monitor {
    pub alarm_count: u8,
    pub health: SensorHealth,
    pub loop_count: u32,
    pub alarm_state: AlarmState,
    pub paused: bool,
    pub running: bool,
    pub last_button_state: bool,
    pub blink_counter: u16,
}

impl Monitor {
    /// A stopped, unpaused monitor with a silent alarm and the button taken
    /// as released.
    pub fn new() -> (r: Self)
        ensures
            r.alarm_count == 0,
            r.health.top_count() == 0,
            r.health.bottom_count() == 0,
            r.health.both_count() == 0,
            r.loop_count == 0,
            !r.alarm_state.is_playing,
            r.alarm_state.phase == 0,
            r.alarm_state.step == 0,
            !r.paused,
            !r.running,
            r.last_button_state,
            r.blink_counter == 0,
    {
        Monitor {
            alarm_count: 0,
            health: SensorHealth::new(),
            loop_count: 0,
            alarm_state: AlarmState::new(),
            paused: false,
            running: false,
            last_button_state: true,
            blink_counter: 0,
        }
    }

    /// A monitor that runs from the start, for a board without a run
    /// button; otherwise as `new`.
    pub fn new_running() -> (r: Self)
        ensures
            r.running,
            r.alarm_count == 0,
            r.health.top_count() == 0,
            r.health.bottom_count() == 0,
            r.health.both_count() == 0,
            r.loop_count == 0,
            !r.alarm_state.is_playing,
            r.alarm_state.phase == 0,
            r.alarm_state.step == 0,
            !r.paused,
            r.last_button_state,
            r.blink_counter == 0,
    {
        let mut r = Monitor::new();
        r.running = true;
        r
    }

    /// Whether a reading of the button starts a press, which the caller
    /// then confirms after a debounce delay: it is pressed now and was not
    /// at the last reading.
    pub fn press_started(&self, pressed: bool) -> (r: bool)
        ensures
            r == (pressed && !self.last_button_state),
    {
        pressed && !self.last_button_state
    }

    /// Ends a press that `press_started` reported, with the reading taken
    /// after the debounce delay: if the button is still pressed, the monitor
    /// starts or stops, logs `Resumed` or `Paused`, and restarts the blink.
    pub fn confirm_press(&mut self, still_pressed: bool, log: &mut EventLog)
        requires
            old(log).wf(),
        ensures
            final(log).wf(),
            final(log).uptime() == old(log).uptime(),
            (final(self).running, final(self).blink_counter) == after_confirmed_press(
                old(self).running,
                old(self).blink_counter,
                still_pressed,
            ),
            still_pressed ==> {
                &&& final(self).running == !old(self).running
                &&& final(self).blink_counter == 0
                &&& final(log).entries() == old(log).entries().drop_first().push(
                    LogEntry {
                        timestamp_ms: old(log).uptime(),
                        event: if final(self).running {
                            Event::Resumed
                        } else {
                            Event::Paused
                        },
                    },
                )
            },
            !still_pressed ==> {
                &&& final(self).running == old(self).running
                &&& final(self).blink_counter == old(self).blink_counter
                &&& final(log).entries() == old(log).entries()
            },
            final(self).paused == old(self).paused,
            final(self).alarm_count == old(self).alarm_count,
            final(self).alarm_state == old(self).alarm_state,
            final(self).loop_count == old(self).loop_count,
            final(self).health == old(self).health,
            final(self).last_button_state == old(self).last_button_state,
    {
        if still_pressed {
            self.running = !self.running;
            self.blink_counter = 0;
            if self.running {
                log.log_event(Event::Resumed);
            } else {
                log.log_event(Event::Paused);
            }
        }
    }

    /// Remembers this iteration's reading of the button.
    pub fn record_button(&mut self, pressed: bool)
        ensures
            *final(self) == (Monitor { last_button_state: pressed, ..*old(self) }),
    {
        self.last_button_state = pressed;
    }

    /// Advances the blink of the button's light by one iteration. Returns
    /// whether the light's line is to be driven low in this iteration: only
    /// while running, in the second half of each blink period.
    pub fn blink_tick(&mut self) -> (drive_low: bool)
        ensures
            old(self).running ==> *final(self) == (Monitor {
                blink_counter: next_blink(old(self).blink_counter),
                ..*old(self)
            }),
            !old(self).running ==> *final(self) == *old(self),
            drive_low == (old(self).running && final(self).blink_counter >= BLINK_HALF_PERIOD),
    {
        if self.running {
            self.blink_counter = self.blink_counter.wrapping_add(1);
            if self.blink_counter >= BLINK_HALF_PERIOD * 2 {
                self.blink_counter = 0;
            }
            self.blink_counter >= BLINK_HALF_PERIOD
        } else {
            false
        }
    }

    /// Takes one sensor reading: moves the uptime clock on by
    /// `UPTIME_STEP_MS` and lets the sensor health check judge the reading
    /// (see `SensorHealth::check`). Returns whether the sensors are healthy.
    pub fn check_sensors(&mut self, top: bool, bottom: bool, log: &mut EventLog) -> (healthy: bool)
        requires
            old(log).wf(),
        ensures
            final(log).wf(),
            final(log).uptime() == old(log).uptime().wrapping_add(UPTIME_STEP_MS),
            final(self).health.bottom_count() == old(self).health.bottom_count(),
            final(self).health.both_count() == old(self).health.both_count(),
            final(self).health.top_count() == next_top_count(old(self).health.top_count(), top, bottom),
            healthy <==> !(top_only_reading(top, bottom) && final(self).health.top_count()
                == STUCK_THRESHOLD),
            healthy ==> final(log).entries() == old(log).entries(),
            !healthy ==> final(log).entries() == old(log).entries().drop_first().push(
                LogEntry { timestamp_ms: final(log).uptime(), event: Event::SensorTopStuck },
            ),
            *final(self) == (Monitor { health: final(self).health, ..*old(self) }),
    {
        log.advance_uptime(UPTIME_STEP_MS);
        self.health.check(top, bottom, log)
    }

    /// Feeds one sensor reading to the alarm. A reading with only the
    /// bottom sensor active counts towards the alarm (the count held at
    /// `u8::MAX`), which starts, logging `AlarmTriggered`, once the count
    /// reaches `ALARM_THRESHOLD`. Any other reading sets the count to 0 and
    /// stops a sounding alarm, logging `AlarmCleared`. Returns whether the
    /// alarm was just stopped, so that the buzzer is to be silenced.
    pub fn update_alarm(&mut self, top: bool, bottom: bool, log: &mut EventLog) -> (silence: bool)
        requires
            old(log).wf(),
        ensures
            final(log).wf(),
            final(log).uptime() == old(log).uptime(),
            (final(self).alarm_count, final(self).alarm_state.is_playing) == alarm_next(
                old(self).alarm_count,
                old(self).alarm_state.is_playing,
                top,
                bottom,
            ),
            silence == (!alarm_reading(top, bottom) && old(self).alarm_state.is_playing),
            final(self).alarm_state.is_playing != old(self).alarm_state.is_playing ==> {
                &&& final(self).alarm_state.phase == 0
                &&& final(self).alarm_state.step == 0
                &&& final(log).entries() == old(log).entries().drop_first().push(
                    LogEntry {
                        timestamp_ms: old(log).uptime(),
                        event: if final(self).alarm_state.is_playing {
                            Event::AlarmTriggered
                        } else {
                            Event::AlarmCleared
                        },
                    },
                )
            },
            final(self).alarm_state.is_playing == old(self).alarm_state.is_playing ==> {
                &&& final(self).alarm_state == old(self).alarm_state
                &&& final(log).entries() == old(log).entries()
            },
            *final(self) == (Monitor {
                alarm_count: final(self).alarm_count,
                alarm_state: final(self).alarm_state,
                ..*old(self)
            }),
    {
        if bottom && !top {
            self.alarm_count = self.alarm_count.saturating_add(1);
            if self.alarm_count >= ALARM_THRESHOLD && !self.alarm_state.is_playing {
                log.log_event(Event::AlarmTriggered);
                self.alarm_state.is_playing = true;
                self.alarm_state.phase = 0;
                self.alarm_state.step = 0;
            }
            false
        } else {
            self.alarm_count = 0;
            if self.alarm_state.is_playing {
                log.log_event(Event::AlarmCleared);
                self.alarm_state.reset();
                true
            } else {
                false
            }
        }
    }

    /// Counts one more sensor reading. Returns whether the periodic dump of
    /// the log is due: every `DUMP_INTERVAL` readings.
    pub fn count_iteration(&mut self) -> (dump_due: bool)
        requires
            old(self).loop_count < u32::MAX,
        ensures
            *final(self) == (Monitor { loop_count: (old(self).loop_count + 1) as u32, ..*old(self) }),
            dump_due == (final(self).loop_count % DUMP_INTERVAL == 0),
    {
        self.loop_count = self.loop_count + 1;
        self.loop_count % DUMP_INTERVAL == 0
    }

    pub fn is_running(&self) -> (r: bool)
        ensures
            r == self.running,
    {
        self.running
    }

    pub fn is_paused(&self) -> (r: bool)
        ensures
            r == self.paused,
    {
        self.paused
    }

    pub fn alarm_playing(&self) -> (r: bool)
        ensures
            r == self.alarm_state.is_playing,
    {
        self.alarm_state.is_playing
    }

    /// Acts on a byte from the serial line: `p` or `P` pauses and logs
    /// `Paused`, `r` or `R` resumes and logs `Resumed`, each only when that
    /// changes anything; `d` or `D` asks for a dump of the log; `e` asks for
    /// a dump of the EEPROM log and `c` clears it (by its write pointer).
    /// Other bytes do nothing.
    pub fn handle_command(&mut self, byte: u8, log: &mut EventLog, eeprom: &mut EepromImage) -> (r: Command)
        requires
            old(log).wf(),
            old(eeprom).wf(),
        ensures
            final(log).wf(),
            final(eeprom).wf(),
            r == Command::EepromClear ==> {
                &&& final(eeprom).contents() == with_ptr(old(eeprom).contents(), 0)
                &&& final(eeprom).pending() == old(eeprom).pending() + ptr_writes(0)
            },
            r != Command::EepromClear ==> *final(eeprom) == *old(eeprom),
            final(log).uptime() == old(log).uptime(),
            r == command_for(byte, old(self).paused),
            (byte == 0x70 || byte == 0x50) ==> r == if old(self).paused {
                Command::Ignored
            } else {
                Command::Pause
            },
            (byte == 0x72 || byte == 0x52) ==> r == if old(self).paused {
                Command::Resume
            } else {
                Command::Ignored
            },
            (byte == 0x64 || byte == 0x44) ==> r == Command::Dump,
            byte == 0x65 ==> r == Command::EepromDump,
            byte == 0x63 ==> r == Command::EepromClear,
            !(byte == 0x70 || byte == 0x50 || byte == 0x72 || byte == 0x52 || byte == 0x64 || byte
                == 0x44 || byte == 0x65 || byte == 0x63) ==> r == Command::Ignored,
            r == Command::Pause ==> final(self).paused,
            r == Command::Resume ==> !final(self).paused,
            r != Command::Pause && r != Command::Resume ==> final(self).paused == old(self).paused,
            r == Command::Pause ==> *final(self) == (Monitor { paused: true, ..*old(self) })
                && final(log).entries() == old(log).entries().drop_first().push(
                LogEntry { timestamp_ms: old(log).uptime(), event: Event::Paused },
            ),
            r == Command::Resume ==> *final(self) == (Monitor { paused: false, ..*old(self) })
                && final(log).entries() == old(log).entries().drop_first().push(
                LogEntry { timestamp_ms: old(log).uptime(), event: Event::Resumed },
            ),
            r != Command::Pause && r != Command::Resume ==> *final(self) == *old(self)
                && final(log).entries() == old(log).entries(),
    {
        if byte == CMD_PAUSE || byte == CMD_PAUSE_UPPER {
            if !self.paused {
                self.paused = true;
                log.log_event(Event::Paused);
                return Command::Pause;
            }
            Command::Ignored
        } else if byte == CMD_RESUME || byte == CMD_RESUME_UPPER {
            if self.paused {
                self.paused = false;
                log.log_event(Event::Resumed);
                return Command::Resume;
            }
            Command::Ignored
        } else if byte == CMD_DUMP || byte == CMD_DUMP_UPPER {
            Command::Dump
        } else if byte == CMD_EEPROM_DUMP {
            Command::EepromDump
        } else if byte == CMD_EEPROM_CLEAR {
            eeprom.eeprom_clear_logs();
            Command::EepromClear
        } else {
            Command::Ignored
        }
    }

    /// The button part of an iteration of the main loop. `pressed` is this
    /// iteration's reading of the button; `still_pressed` the reading taken
    /// after the debounce delay when `press_started(pressed)` asked for one
    /// (it is not looked at otherwise). A confirmed press starts or stops
    /// the monitor (see `confirm_press`); then the reading is remembered and
    /// the light's blink advances (see `blink_tick`).
    pub fn button_step(&mut self, pressed: bool, still_pressed: bool, log: &mut EventLog) -> (acts:
        ButtonActions)
        requires
            old(log).wf(),
        ensures
            final(log).wf(),
            final(log).uptime() == old(log).uptime(),
            ({
                let m0 = *old(self);
                let toggles = pressed && !m0.last_button_state && still_pressed;
                let (running1, blink1) = after_confirmed_press(
                    m0.running,
                    m0.blink_counter,
                    toggles,
                );
                let blink2 = if running1 { next_blink(blink1) } else { blink1 };
                &&& *final(self) == (Monitor {
                    running: running1,
                    blink_counter: blink2,
                    last_button_state: pressed,
                    ..m0
                })
                &&& final(log).entries() == if toggles {
                    logged(
                        old(log).entries(),
                        old(log).uptime(),
                        if running1 { Event::Resumed } else { Event::Paused },
                    )
                } else {
                    old(log).entries()
                }
                &&& acts == (ButtonActions {
                    drive_light_low: running1 && blink2 >= BLINK_HALF_PERIOD,
                    active: running1,
                })
            }),
    {
        if self.press_started(pressed) {
            self.confirm_press(still_pressed, log);
        }
        self.record_button(pressed);
        let drive_light_low = self.blink_tick();
        ButtonActions { drive_light_low, active: self.running }
    }

    /// The serial part of an iteration of the running monitor: answers
    /// the byte, if one came (see `handle_command`), and says whether the
    /// sensors are to be read: only while the monitor is not paused. The
    /// dump it hands out is the log right after the command.
    pub fn command_step(&mut self, serial: Option<u8>, log: &mut EventLog, eeprom: &mut EepromImage) -> (acts:
        CommandActions)
        requires
            old(self).running,
            old(log).wf(),
            old(eeprom).wf(),
        ensures
            final(log).wf(),
            final(eeprom).wf(),
            final(log).uptime() == old(log).uptime(),
            ({
                let m0 = *old(self);
                let cmd = serial_command(serial, m0.paused);
                let e1 = command_log(old(log).entries(), old(log).uptime(), cmd);
                &&& acts.command == cmd
                &&& *final(self) == (Monitor { paused: final(self).paused, ..m0 })
                &&& final(self).paused == paused_after(m0.paused, cmd)
                &&& final(log).entries() == e1
                &&& acts.read_sensors == !final(self).paused
                &&& (cmd == Command::Pause || cmd == Command::Dump) ==> holds(
                    acts.command_dump,
                    dumped(e1),
                )
                &&& !(cmd == Command::Pause || cmd == Command::Dump) ==> acts.command_dump is None
                &&& cmd == Command::EepromDump ==> holds(
                    acts.eeprom_dump,
                    stored_entries(old(eeprom).contents()),
                )
                &&& cmd != Command::EepromDump ==> acts.eeprom_dump is None
                &&& cmd == Command::EepromClear ==> {
                    &&& final(eeprom).contents() == with_ptr(old(eeprom).contents(), 0)
                    &&& final(eeprom).pending() == old(eeprom).pending() + ptr_writes(0)
                }
                &&& cmd != Command::EepromClear ==> *final(eeprom) == *old(eeprom)
            }),
            serial is None ==> acts.command == Command::Ignored,
            serial matches Some(b) && (b == 0x70 || b == 0x50) ==> acts.command == if old(
                self,
            ).paused {
                Command::Ignored
            } else {
                Command::Pause
            },
            serial matches Some(b) && (b == 0x72 || b == 0x52) ==> acts.command == if old(
                self,
            ).paused {
                Command::Resume
            } else {
                Command::Ignored
            },
            serial matches Some(b) && (b == 0x64 || b == 0x44) ==> acts.command == Command::Dump,
            serial matches Some(b) && b == 0x65 ==> acts.command == Command::EepromDump,
            serial matches Some(b) && b == 0x63 ==> acts.command == Command::EepromClear,
            acts.command == Command::Pause ==> final(self).paused,
            acts.command == Command::Resume ==> !final(self).paused,
            acts.command != Command::Pause && acts.command != Command::Resume ==> final(self).paused
                == old(self).paused,
            acts.command != Command::EepromClear ==> *final(eeprom) == *old(eeprom),
            acts.read_sensors == !final(self).paused,
    {
        let mut command = Command::Ignored;
        let mut command_dump: Option<Vec<LogEntry>> = None;
        let mut eeprom_dump: Option<Vec<LogEntry>> = None;
        if let Some(b) = serial {
            command = self.handle_command(b, log, eeprom);
            match command {
                Command::Pause | Command::Dump => {
                    command_dump = Some(log.dump_logs());
                },
                Command::EepromDump => {
                    eeprom_dump = Some(eeprom.eeprom_dump_logs());
                },
                _ => {},
            }
        }
        CommandActions { command, command_dump, eeprom_dump, read_sensors: !self.paused }
    }

    /// The sensor part of an iteration of the running, unpaused monitor:
    /// takes the reading (see `check_sensors`), feeds it to the alarm (see
    /// `update_alarm`) and counts it (see `count_iteration`). The fault dump
    /// is the log right after the health check, before the alarm logs
    /// anything; the periodic dump is the log at the end.
    pub fn reading_step(&mut self, top: bool, bottom: bool, log: &mut EventLog) -> (acts:
        ReadingActions)
        requires
            old(self).running,
            old(log).wf(),
            !old(self).paused,
            old(self).loop_count < u32::MAX,
        ensures
            final(log).wf(),
            ({
                let m0 = *old(self);
                let e1 = old(log).entries();
                let u1 = old(log).uptime().wrapping_add(UPTIME_STEP_MS);
                let top1 = next_top_count(m0.health.top_count(), top, bottom);
                let healthy = !(top_only_reading(top, bottom) && top1 == STUCK_THRESHOLD);
                let e2 = if healthy {
                    e1
                } else {
                    logged(e1, u1, Event::SensorTopStuck)
                };
                let (c3, p3) = alarm_next(m0.alarm_count, m0.alarm_state.is_playing, top, bottom);
                let e3 = if p3 != m0.alarm_state.is_playing {
                    logged(
                        e2,
                        u1,
                        if p3 {
                            Event::AlarmTriggered
                        } else {
                            Event::AlarmCleared
                        },
                    )
                } else {
                    e2
                };
                let lc = (m0.loop_count + 1) as u32;
                &&& !healthy ==> holds(acts.fault_dump, dumped(e2))
                &&& healthy ==> acts.fault_dump is None
                &&& acts.silence == (!alarm_reading(top, bottom) && m0.alarm_state.is_playing)
                &&& acts.play_alarm == p3
                &&& lc % DUMP_INTERVAL == 0 ==> holds(acts.periodic_dump, dumped(e3))
                &&& lc % DUMP_INTERVAL != 0 ==> acts.periodic_dump is None
                &&& final(log).entries() == e3
                &&& final(log).uptime() == u1
                &&& final(self).health.top_count() == top1
                &&& final(self).health.bottom_count() == m0.health.bottom_count()
                &&& final(self).health.both_count() == m0.health.both_count()
                &&& p3 != m0.alarm_state.is_playing ==> final(self).alarm_state == (AlarmState {
                    is_playing: p3,
                    phase: 0,
                    step: 0,
                })
                &&& p3 == m0.alarm_state.is_playing ==> final(self).alarm_state == m0.alarm_state
                &&& *final(self) == (Monitor {
                    alarm_count: c3,
                    health: final(self).health,
                    alarm_state: final(self).alarm_state,
                    loop_count: lc,
                    ..m0
                })
            }),
    {
        let healthy = self.check_sensors(top, bottom, log);
        let fault_dump = if healthy {
            None
        } else {
            Some(log.dump_logs())
        };
        let silence = self.update_alarm(top, bottom, log);
        let play_alarm = self.alarm_state.is_playing;
        let periodic_dump = if self.count_iteration() {
            Some(log.dump_logs())
        } else {
            None
        };
        ReadingActions { fault_dump, silence, play_alarm, periodic_dump }
    }
}

} // verus!
