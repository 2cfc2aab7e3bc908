use vstd::prelude::*;

pub mod eeprom;

pub use eeprom::{
    EEPROM_DATA_START, EEPROM_ENTRY_SIZE, EEPROM_MAGIC, EEPROM_MAGIC_ADDR, EEPROM_MAX_ENTRIES,
    EEPROM_PTR_HI_ADDR, EEPROM_PTR_LO_ADDR, EEPROM_SIZE, EepromImage,
};

verus! {

/// What the monitor records in its logs.
#[derive(Clone, Copy, Debug, PartialEq, Eq, Structural)]
pub enum Event {
    Empty,
    Startup,
    SensorTopStuck,
    SensorBottomStuck,
    BothSensorsStuck,
    AlarmTriggered,
    AlarmCleared,
    SensorReadInconsistent,
    Paused,
    Resumed,
}

/// The byte that stands for an event in persistent storage.
pub open spec fn event_code(e: Event) -> u8 {
    match e {
        Event::Empty => 0,
        Event::Startup => 1,
        Event::SensorTopStuck => 2,
        Event::SensorBottomStuck => 3,
        Event::BothSensorsStuck => 4,
        Event::AlarmTriggered => 5,
        Event::AlarmCleared => 6,
        Event::SensorReadInconsistent => 7,
        Event::Paused => 8,
        Event::Resumed => 9,
    }
}

/// The event that a stored byte stands for; unknown bytes read as `Empty`.
pub open spec fn event_of_code(v: u8) -> Event {
    if v == 1 {
        Event::Startup
    } else if v == 2 {
        Event::SensorTopStuck
    } else if v == 3 {
        Event::SensorBottomStuck
    } else if v == 4 {
        Event::BothSensorsStuck
    } else if v == 5 {
        Event::AlarmTriggered
    } else if v == 6 {
        Event::AlarmCleared
    } else if v == 7 {
        Event::SensorReadInconsistent
    } else if v == 8 {
        Event::Paused
    } else if v == 9 {
        Event::Resumed
    } else {
        Event::Empty
    }
}

/// The human-readable name of an event.
pub open spec fn event_name(e: Event) -> Seq<char> {
    match e {
        Event::Empty => "Empty"@,
        Event::Startup => "Startup"@,
        Event::SensorTopStuck => "Top sensor stuck"@,
        Event::SensorBottomStuck => "Bottom sensor stuck"@,
        Event::BothSensorsStuck => "Both sensors stuck"@,
        Event::AlarmTriggered => "ALARM"@,
        Event::AlarmCleared => "Alarm cleared"@,
        Event::SensorReadInconsistent => "Sensor inconsistent"@,
        Event::Paused => "Paused"@,
        Event::Resumed => "Resumed"@,
    }
}

impl Event {
    /// The byte that stands for the event in the EEPROM log.
    pub fn to_u8(self) -> (r: u8)
        ensures
            r == event_code(self),
    {
        match self {
            Event::Empty => 0,
            Event::Startup => 1,
            Event::SensorTopStuck => 2,
            Event::SensorBottomStuck => 3,
            Event::BothSensorsStuck => 4,
            Event::AlarmTriggered => 5,
            Event::AlarmCleared => 6,
            Event::SensorReadInconsistent => 7,
            Event::Paused => 8,
            Event::Resumed => 9,
        }
    }

    /// The event that a byte of the EEPROM log stands for; bytes that are
    /// no event's code read as `Empty`.
    pub fn from_u8(v: u8) -> (r: Self)
        ensures
            r == event_of_code(v),
    {
        match v {
            1 => Event::Startup,
            2 => Event::SensorTopStuck,
            3 => Event::SensorBottomStuck,
            4 => Event::BothSensorsStuck,
            5 => Event::AlarmTriggered,
            6 => Event::AlarmCleared,
            7 => Event::SensorReadInconsistent,
            8 => Event::Paused,
            9 => Event::Resumed,
            _ => Event::Empty,
        }
    }

    /// The event's name, as dumps print it.
    pub fn name(self) -> (r: &'static str)
        ensures
            r@ == event_name(self),
    {
        match self {
            Event::Empty => "Empty",
            Event::Startup => "Startup",
            Event::SensorTopStuck => "Top sensor stuck",
            Event::SensorBottomStuck => "Bottom sensor stuck",
            Event::BothSensorsStuck => "Both sensors stuck",
            Event::AlarmTriggered => "ALARM",
            Event::AlarmCleared => "Alarm cleared",
            Event::SensorReadInconsistent => "Sensor inconsistent",
            Event::Paused => "Paused",
            Event::Resumed => "Resumed",
        }
    }
}

/// The stored code of each event, and the event each code reads as: 0 to
/// 9 in declaration order, every other byte reading as `Empty`.
pub proof fn lemma_event_code_table(v: u8)
    ensures
        event_code(Event::Empty) == 0,
        event_code(Event::Startup) == 1,
        event_code(Event::SensorTopStuck) == 2,
        event_code(Event::SensorBottomStuck) == 3,
        event_code(Event::BothSensorsStuck) == 4,
        event_code(Event::AlarmTriggered) == 5,
        event_code(Event::AlarmCleared) == 6,
        event_code(Event::SensorReadInconsistent) == 7,
        event_code(Event::Paused) == 8,
        event_code(Event::Resumed) == 9,
        v == 0 || v > 9 ==> event_of_code(v) == Event::Empty,
        v == 1 ==> event_of_code(v) == Event::Startup,
        v == 2 ==> event_of_code(v) == Event::SensorTopStuck,
        v == 3 ==> event_of_code(v) == Event::SensorBottomStuck,
        v == 4 ==> event_of_code(v) == Event::BothSensorsStuck,
        v == 5 ==> event_of_code(v) == Event::AlarmTriggered,
        v == 6 ==> event_of_code(v) == Event::AlarmCleared,
        v == 7 ==> event_of_code(v) == Event::SensorReadInconsistent,
        v == 8 ==> event_of_code(v) == Event::Paused,
        v == 9 ==> event_of_code(v) == Event::Resumed,
{
}

/// The name of each event, as dumps print it.
pub proof fn lemma_event_names()
    ensures
        event_name(Event::Empty) == "Empty"@,
        event_name(Event::Startup) == "Startup"@,
        event_name(Event::SensorTopStuck) == "Top sensor stuck"@,
        event_name(Event::SensorBottomStuck) == "Bottom sensor stuck"@,
        event_name(Event::BothSensorsStuck) == "Both sensors stuck"@,
        event_name(Event::AlarmTriggered) == "ALARM"@,
        event_name(Event::AlarmCleared) == "Alarm cleared"@,
        event_name(Event::SensorReadInconsistent) == "Sensor inconsistent"@,
        event_name(Event::Paused) == "Paused"@,
        event_name(Event::Resumed) == "Resumed"@,
{
}

/// Decoding the code of an event gives the event back.
pub proof fn lemma_event_code_roundtrip(e: Event)
    ensures
        event_of_code(event_code(e)) == e,
{
}

/// Encoding the event of a byte gives the byte back exactly when the byte is
/// a known code (0 to 9); every other byte reads as `Empty`, whose code is 0.
pub proof fn lemma_code_event_roundtrip(v: u8)
    ensures
        v <= 9 ==> event_code(event_of_code(v)) == v,
        v > 9 ==> event_of_code(v) == Event::Empty && event_code(event_of_code(v)) == 0,
{
}


/// Number of entries that the in-memory log keeps.
pub const LOG_SIZE: usize = 64;

/// One record of the log: the uptime when it happened and what happened.
#[derive(Clone, Copy, Debug, PartialEq, Eq, Structural)]
pub struct LogEntry {
    pub timestamp_ms: u32,
    pub event: Event,
}

impl LogEntry {
    /// The record that fills a slot nothing has been logged into.
    pub fn empty() -> (r: Self)
        ensures
            r == (LogEntry { timestamp_ms: 0, event: Event::Empty }),
    {
        LogEntry { timestamp_ms: 0, event: Event::Empty }
    }
}

/// Whether a record has a line of its own in a dump of the log.
pub open spec fn shown_in_dump(e: Event) -> bool {
    match e {
        Event::Empty | Event::BothSensorsStuck | Event::SensorReadInconsistent => false,
        _ => true,
    }
}

impl Event {
    /// Whether a record of this event has a line in a dump of the log.
    pub fn shown_in_dump(self) -> (r: bool)
        ensures
            r == shown_in_dump(self),
    {
        match self {
            Event::Empty | Event::BothSensorsStuck | Event::SensorReadInconsistent => false,
            _ => true,
        }
    }
}

/// The records of `s`, in order, that have a line in a dump.
pub open spec fn dumped(s: Seq<LogEntry>) -> Seq<LogEntry>
    decreases s.len(),
{
    if s.len() == 0 {
        Seq::empty()
    } else if shown_in_dump(s.last().event) {
        dumped(s.drop_last()).push(s.last())
    } else {
        dumped(s.drop_last())
    }
}

/// Exactly three events have no line in a dump: `Empty`,
/// `BothSensorsStuck` and `SensorReadInconsistent`.
pub proof fn lemma_shown_in_dump(e: Event)
    ensures
        !shown_in_dump(e) <==> (e == Event::Empty || e == Event::BothSensorsStuck || e
            == Event::SensorReadInconsistent),
{
}

/// A dump keeps the records with a line, in their order, and drops the
/// others: it splits over concatenation, and shows a single record exactly
/// when its event has a line.
pub proof fn lemma_dumped_filters(s: Seq<LogEntry>, t: Seq<LogEntry>, x: LogEntry)
    ensures
        dumped(s + t) == dumped(s) + dumped(t),
        dumped(seq![x]) == if shown_in_dump(x.event) {
            seq![x]
        } else {
            Seq::<LogEntry>::empty()
        },
        dumped(Seq::<LogEntry>::empty()) == Seq::<LogEntry>::empty(),
    decreases t.len(),
{
    assert(seq![x].drop_last() =~= Seq::<LogEntry>::empty());
    assert(seq![x].last() == x);
    assert(dumped(Seq::<LogEntry>::empty()) == Seq::<LogEntry>::empty());
    if shown_in_dump(x.event) {
        assert(dumped(seq![x]) == Seq::<LogEntry>::empty().push(x));
        assert(Seq::<LogEntry>::empty().push(x) =~= seq![x]);
    }
    if t.len() == 0 {
        assert(s + t =~= s);
        assert(dumped(t) =~= Seq::<LogEntry>::empty());
        assert(dumped(s) + dumped(t) =~= dumped(s));
    } else {
        lemma_dumped_filters(s, t.drop_last(), x);
        assert((s + t).drop_last() =~= s + t.drop_last());
        assert((s + t).last() == t.last());
        if shown_in_dump(t.last().event) {
            assert(dumped(s) + dumped(t) =~= (dumped(s) + dumped(t.drop_last())).push(t.last()));
        }
    }
}

/// A record just logged is the last line of the next dump when its event
/// is shown in dumps, and adds no line otherwise.
pub proof fn lemma_dump_shows_latest(entries: Seq<LogEntry>, entry: LogEntry)
    requires
        entries.len() > 0,
    ensures
        shown_in_dump(entry.event) ==> dumped(entries.drop_first().push(entry)) == dumped(
            entries.drop_first(),
        ).push(entry),
        !shown_in_dump(entry.event) ==> dumped(entries.drop_first().push(entry)) == dumped(
            entries.drop_first(),
        ),
{
    assert(entries.drop_first().push(entry).drop_last() =~= entries.drop_first());
}

/// A ring buffer of the last `LOG_SIZE` records, together with the uptime
/// clock that stamps them.
pub struct EventLog {
    buffer: Vec<LogEntry>,
    index: usize,
    uptime_ms: u32,
}

impl EventLog {
    /// The ring is full-sized and its write position lies inside it.
    pub closed spec fn wf(&self) -> bool {
        &&& self.buffer.len() == LOG_SIZE
        &&& self.index < LOG_SIZE
    }

    /// A well-formed log holds exactly `LOG_SIZE` records.
    pub proof fn lemma_wf_len(&self)
        requires
            self.wf(),
        ensures
            self.entries().len() == LOG_SIZE,
    {
    }

    /// The slot that holds the `i`-th oldest record.
    closed spec fn slot(&self, i: int) -> int {
        if self.index + i < LOG_SIZE {
            self.index + i
        } else {
            self.index + i - LOG_SIZE
        }
    }

    /// The records, oldest first; always `LOG_SIZE` of them, slots that were
    /// never written reading as `LogEntry::empty()`.
    pub closed spec fn entries(&self) -> Seq<LogEntry> {
        Seq::new(LOG_SIZE as nat, |i: int| self.buffer@[self.slot(i)])
    }

    /// The uptime clock, in milliseconds.
    pub closed spec fn uptime(&self) -> u32 {
        self.uptime_ms
    }

    /// An empty log at uptime 0.
    pub fn new() -> (r: Self)
        ensures
            r.wf(),
            r.entries() == Seq::new(LOG_SIZE as nat, |i: int| LogEntry { timestamp_ms: 0, event: Event::Empty }),
            r.uptime() == 0,
    {
        let mut buffer: Vec<LogEntry> = Vec::new();
        while buffer.len() < LOG_SIZE
            invariant
                buffer.len() <= LOG_SIZE,
                forall|j: int| 0 <= j < buffer.len() ==> buffer@[j] == (LogEntry { timestamp_ms: 0, event: Event::Empty }),
            decreases LOG_SIZE - buffer.len(),
        {
            buffer.push(LogEntry::empty());
        }
        let r = EventLog { buffer, index: 0, uptime_ms: 0 };
        assert(r.entries() =~= Seq::new(LOG_SIZE as nat, |i: int| LogEntry { timestamp_ms: 0, event: Event::Empty }));
        r
    }

    /// The log at start-up: empty but for `Startup`, at uptime 0.
    pub fn startup() -> (r: Self)
        ensures
            r.wf(),
            r.entries() == Seq::new(LOG_SIZE as nat, |i: int| LogEntry { timestamp_ms: 0, event: Event::Empty }).drop_first().push(
                LogEntry { timestamp_ms: 0, event: Event::Startup },
            ),
            r.uptime() == 0,
    {
        let mut r = EventLog::new();
        r.log_event(Event::Startup);
        r
    }

    /// The uptime clock, in milliseconds.
    pub fn uptime_ms(&self) -> (r: u32)
        ensures
            r == self.uptime(),
    {
        self.uptime_ms
    }

    /// Moves the uptime clock on by `ms`, wrapping around at `u32::MAX`.
    pub fn advance_uptime(&mut self, ms: u32)
        requires
            old(self).wf(),
        ensures
            final(self).wf(),
            final(self).entries() == old(self).entries(),
            final(self).uptime() == old(self).uptime().wrapping_add(ms),
    {
        self.uptime_ms = self.uptime_ms.wrapping_add(ms);
    }

    /// Records `event` at the current uptime, overwriting the oldest record.
    pub fn log_event(&mut self, event: Event)
        requires
            old(self).wf(),
        ensures
            final(self).wf(),
            final(self).entries() == old(self).entries().drop_first().push(
                LogEntry { timestamp_ms: old(self).uptime(), event },
            ),
            final(self).uptime() == old(self).uptime(),
    {
        let entry = LogEntry { timestamp_ms: self.uptime_ms, event };
        let i = self.index;
        self.buffer.set(i, entry);
        self.index = if i + 1 == LOG_SIZE { 0 } else { i + 1 };
        proof {
            let o = old(self).entries();
            let n = self.entries();
            assert forall|k: int| 0 <= k < LOG_SIZE implies n[k] == o.drop_first().push(entry)[k] by {
                if k + 1 < LOG_SIZE {
                    assert(o.drop_first().push(entry)[k] == o[k + 1]);
                }
            }
            assert(n =~= o.drop_first().push(entry));
        }
    }

    /// The records that a dump of the log shows, oldest first.
    pub fn dump_logs(&self) -> (r: Vec<LogEntry>)
        requires
            self.wf(),
        ensures
            r@ == dumped(self.entries()),
    {
        let mut r: Vec<LogEntry> = Vec::new();
        let mut i: usize = 0;
        while i < LOG_SIZE
            invariant
                self.wf(),
                i <= LOG_SIZE,
                r@ == dumped(self.entries().take(i as int)),
            decreases LOG_SIZE - i,
        {
            let idx = if self.index + i < LOG_SIZE { self.index + i } else { self.index + i - LOG_SIZE };
            let entry = self.buffer[idx];
            proof {
                let s = self.entries().take(i as int + 1);
                assert(s.drop_last() =~= self.entries().take(i as int));
                assert(s.last() == entry);
            }
            if entry.event.shown_in_dump() {
                r.push(entry);
            }
            i = i + 1;
        }
        assert(self.entries().take(LOG_SIZE as int) =~= self.entries());
        r
    }
}

} // verus!
