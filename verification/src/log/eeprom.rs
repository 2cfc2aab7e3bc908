use vstd::prelude::*;
use super::{Event, LogEntry, event_code, event_of_code};

verus! {

/// Size of the EEPROM, in bytes.
pub const EEPROM_SIZE: usize = 1024;
/// The byte at `EEPROM_MAGIC_ADDR` that marks a formatted log.
pub const EEPROM_MAGIC: u8 = 0xab;
pub const EEPROM_MAGIC_ADDR: u16 = 0;
pub const EEPROM_PTR_LO_ADDR: u16 = 1;
pub const EEPROM_PTR_HI_ADDR: u16 = 2;
pub const EEPROM_DATA_START: u16 = 3;
/// One byte of event code, then the uptime in four bytes, least significant first.
pub const EEPROM_ENTRY_SIZE: u16 = 5;
pub const EEPROM_MAX_ENTRIES: u16 = (1024 - 3) / 5;

/// The write pointer that the EEPROM holds: the number of records written.
pub open spec fn stored_ptr(c: Seq<u8>) -> int {
    c[EEPROM_PTR_LO_ADDR as int] + 256 * c[EEPROM_PTR_HI_ADDR as int]
}

/// The address of the first byte of record `i`.
pub open spec fn entry_base(i: int) -> int {
    EEPROM_DATA_START + EEPROM_ENTRY_SIZE * i
}

/// The 32-bit number whose bytes, least significant first, are `b0` to `b3`.
pub open spec fn le_u32(b0: u8, b1: u8, b2: u8, b3: u8) -> int {
    b0 + 256 * b1 + 65536 * b2 + 16777216 * b3
}

/// Byte `k` (0 to 3, least significant first) of `u`.
pub open spec fn u32_byte(u: u32, k: int) -> u8 {
    if k == 0 {
        (u % 256) as u8
    } else if k == 1 {
        ((u / 256) % 256) as u8
    } else if k == 2 {
        ((u / 65536) % 256) as u8
    } else {
        (u / 16777216) as u8
    }
}

/// Record `i` as the EEPROM holds it.
pub open spec fn stored_entry(c: Seq<u8>, i: int) -> LogEntry {
    let b = entry_base(i);
    LogEntry {
        timestamp_ms: le_u32(c[b + 1], c[b + 2], c[b + 3], c[b + 4]) as u32,
        event: event_of_code(c[b]),
    }
}

/// How many records a dump shows: the write pointer, but no more than fit.
pub open spec fn stored_count(c: Seq<u8>) -> int {
    if stored_ptr(c) < EEPROM_MAX_ENTRIES {
        stored_ptr(c)
    } else {
        EEPROM_MAX_ENTRIES as int
    }
}

/// The records that a dump of the EEPROM log shows, in the order written.
pub open spec fn stored_entries(c: Seq<u8>) -> Seq<LogEntry> {
    Seq::new(stored_count(c) as nat, |i: int| stored_entry(c, i))
}

/// The contents after the write pointer is set to `ptr`, low byte first.
pub open spec fn with_ptr(c: Seq<u8>, ptr: u16) -> Seq<u8> {
    c.update(EEPROM_PTR_LO_ADDR as int, (ptr % 256) as u8).update(
        EEPROM_PTR_HI_ADDR as int,
        (ptr / 256) as u8,
    )
}

/// The writes that set the write pointer to `ptr`, in order.
pub open spec fn ptr_writes(ptr: u16) -> Seq<(u16, u8)> {
    seq![(EEPROM_PTR_LO_ADDR, (ptr % 256) as u8), (EEPROM_PTR_HI_ADDR, (ptr / 256) as u8)]
}

/// The writes that store `event` at `uptime_ms` as record `ptr`, in order.
pub open spec fn entry_writes(ptr: int, event: Event, uptime_ms: u32) -> Seq<(u16, u8)> {
    let b = entry_base(ptr);
    seq![
        (b as u16, event_code(event)),
        ((b + 1) as u16, u32_byte(uptime_ms, 0)),
        ((b + 2) as u16, u32_byte(uptime_ms, 1)),
        ((b + 3) as u16, u32_byte(uptime_ms, 2)),
        ((b + 4) as u16, u32_byte(uptime_ms, 3)),
    ]
}

/// The contents after record `ptr` is set to `event` at `uptime_ms`.
pub open spec fn with_entry(c: Seq<u8>, ptr: int, event: Event, uptime_ms: u32) -> Seq<u8> {
    let b = entry_base(ptr);
    c.update(b, event_code(event)).update(b + 1, u32_byte(uptime_ms, 0)).update(
        b + 2,
        u32_byte(uptime_ms, 1),
    ).update(b + 3, u32_byte(uptime_ms, 2)).update(b + 4, u32_byte(uptime_ms, 3))
}

/// Splitting a number into its four bytes and joining them again gives the
/// number back.
pub proof fn lemma_u32_bytes_roundtrip(u: u32)
    ensures
        le_u32(u32_byte(u, 0), u32_byte(u, 1), u32_byte(u, 2), u32_byte(u, 3)) == u,
{
    assert(u % 256 + 256 * ((u / 256) % 256) + 65536 * ((u / 65536) % 256) + 16777216 * (u
        / 16777216) == u) by (bit_vector);
}

/// Storing a record in the slot after the last one and moving the write
/// pointer past it appends that record to what a dump shows.
pub proof fn lemma_append_entry(c: Seq<u8>, event: Event, uptime_ms: u32)
    requires
        c.len() == EEPROM_SIZE,
        stored_ptr(c) < EEPROM_MAX_ENTRIES,
    ensures
        stored_entries(with_ptr(with_entry(c, stored_ptr(c), event, uptime_ms), (stored_ptr(c) + 1) as u16))
            == stored_entries(c).push(LogEntry { timestamp_ms: uptime_ms, event }),
{
    let p = stored_ptr(c);
    let n = with_ptr(with_entry(c, p, event, uptime_ms), (p + 1) as u16);
    lemma_u32_bytes_roundtrip(uptime_ms);
    assert(stored_ptr(n) == p + 1);
    assert forall|i: int| 0 <= i < p implies stored_entry(n, i) == stored_entry(c, i) by {
        let b = entry_base(i);
        assert(n[b] == c[b]);
        assert(n[b + 1] == c[b + 1]);
        assert(n[b + 2] == c[b + 2]);
        assert(n[b + 3] == c[b + 3]);
        assert(n[b + 4] == c[b + 4]);
    }
    assert(stored_entry(n, p) == LogEntry { timestamp_ms: uptime_ms, event });
    assert(stored_entries(n) =~= stored_entries(c).push(LogEntry { timestamp_ms: uptime_ms, event }));
}

/// Every byte of every record the log can hold lies inside the EEPROM,
/// after the magic byte and the write pointer.
pub proof fn lemma_records_fit(i: int, k: int)
    requires
        0 <= i < EEPROM_MAX_ENTRIES,
        0 <= k < EEPROM_ENTRY_SIZE,
    ensures
        EEPROM_PTR_HI_ADDR < entry_base(i) + k < EEPROM_SIZE,
{
}

/// Setting the write pointer touches no byte but its own two: clearing the
/// log erases no record, which stays until it is overwritten.
pub proof fn lemma_ptr_write_keeps_records(c: Seq<u8>, ptr: u16, a: int)
    requires
        c.len() == EEPROM_SIZE,
        0 <= a < EEPROM_SIZE,
        a != EEPROM_PTR_LO_ADDR,
        a != EEPROM_PTR_HI_ADDR,
    ensures
        with_ptr(c, ptr)[a] == c[a],
        with_ptr(c, ptr).len() == c.len(),
{
}

/// The contents after `eeprom_log_event(event, uptime_ms)`: a full log is
/// left alone; otherwise the record goes into the slot the write pointer
/// names, and the pointer moves past it.
pub open spec fn log_contents(c: Seq<u8>, event: Event, uptime_ms: u32) -> Seq<u8> {
    let p = stored_ptr(c);
    if p >= EEPROM_MAX_ENTRIES {
        c
    } else {
        with_ptr(with_entry(c, p, event, uptime_ms), (p + 1) as u16)
    }
}

/// The contents after logging each of `records`, in order, each event at
/// its record's timestamp.
pub open spec fn log_all(c: Seq<u8>, records: Seq<LogEntry>) -> Seq<u8>
    decreases records.len(),
{
    if records.len() == 0 {
        c
    } else {
        let last = records.last();
        log_contents(log_all(c, records.drop_last()), last.event, last.timestamp_ms)
    }
}

/// After the log is cleared and up to `EEPROM_MAX_ENTRIES` records are
/// logged, a dump shows exactly those records, in the order logged, and
/// the write pointer counts them.
pub proof fn lemma_clear_then_log_all(c: Seq<u8>, records: Seq<LogEntry>)
    requires
        c.len() == EEPROM_SIZE,
        records.len() <= EEPROM_MAX_ENTRIES,
    ensures
        log_all(with_ptr(c, 0), records).len() == EEPROM_SIZE,
        stored_ptr(log_all(with_ptr(c, 0), records)) == records.len(),
        stored_entries(log_all(with_ptr(c, 0), records)) == records,
    decreases records.len(),
{
    let c0 = with_ptr(c, 0);
    if records.len() == 0 {
        assert(stored_entries(c0) =~= records);
    } else {
        let prev = records.drop_last();
        lemma_clear_then_log_all(c, prev);
        let cp = log_all(c0, prev);
        let last = records.last();
        lemma_append_entry(cp, last.event, last.timestamp_ms);
        let n = log_contents(cp, last.event, last.timestamp_ms);
        assert(stored_ptr(n) == records.len());
        assert(LogEntry { timestamp_ms: last.timestamp_ms, event: last.event } == last);
        assert(stored_entries(n) =~= records);
    }
}

/// The contents after `eeprom_init`: unchanged when the magic byte is
/// there; otherwise with the magic byte written and the write pointer 0.
pub open spec fn init_contents(c: Seq<u8>) -> Seq<u8> {
    if c[EEPROM_MAGIC_ADDR as int] == EEPROM_MAGIC {
        c
    } else {
        with_ptr(c.update(EEPROM_MAGIC_ADDR as int, EEPROM_MAGIC), 0)
    }
}

/// Formatting the log twice is formatting it once; a freshly formatted log
/// is empty.
pub proof fn lemma_init_idempotent(c: Seq<u8>)
    requires
        c.len() == EEPROM_SIZE,
    ensures
        init_contents(init_contents(c)) == init_contents(c),
        c[EEPROM_MAGIC_ADDR as int] != EEPROM_MAGIC ==> stored_entries(init_contents(c)) == Seq::<
            LogEntry,
        >::empty(),
{
    if c[EEPROM_MAGIC_ADDR as int] != EEPROM_MAGIC {
        assert(stored_entries(init_contents(c)) =~= Seq::<LogEntry>::empty());
    }
}

/// The layout of the EEPROM log, byte by byte: the magic byte `0xab` at 0,
/// the write pointer at 1 (low byte) and 2 (high byte), then records of
/// five bytes from address 3, each its event's code followed by its
/// timestamp, least significant byte first; at most 204 records.
pub proof fn lemma_eeprom_layout(c: Seq<u8>, event: Event, u: u32, q: u16)
    requires
        c.len() == 1024,
    ensures
        stored_ptr(c) == c[1] + 256 * c[2],
        stored_entries(c).len() == if c[1] + 256 * c[2] < 204 {
            c[1] + 256 * c[2]
        } else {
            204
        },
        forall|i: int|
            0 <= i < stored_entries(c).len() ==> #[trigger] stored_entries(c)[i] == (LogEntry {
                timestamp_ms: (c[4 + 5 * i] + 256 * c[5 + 5 * i] + 65536 * c[6 + 5 * i] + 16777216
                    * c[7 + 5 * i]) as u32,
                event: event_of_code(c[3 + 5 * i]),
            }),
        init_contents(c) == if c[0] == 0xab {
            c
        } else {
            c.update(0, 0xab).update(1, 0).update(2, 0)
        },
        with_ptr(c, 0) == c.update(1, 0).update(2, 0),
        with_ptr(c, q) == c.update(1, (q % 256) as u8).update(2, (q / 256) as u8),
        ptr_writes(q) == seq![(1u16, (q % 256) as u8), (2u16, (q / 256) as u8)],
        c[1] + 256 * c[2] >= 204 ==> log_contents(c, event, u) == c,
        ({
            let p = c[1] + 256 * c[2];
            p < 204 ==> {
                &&& log_contents(c, event, u) == c.update(3 + 5 * p, event_code(event)).update(
                    4 + 5 * p,
                    (u % 256) as u8,
                ).update(5 + 5 * p, ((u / 256) % 256) as u8).update(
                    6 + 5 * p,
                    ((u / 65536) % 256) as u8,
                ).update(7 + 5 * p, (u / 16777216) as u8).update(1, ((p + 1) % 256) as u8).update(
                    2,
                    ((p + 1) / 256) as u8,
                )
                &&& entry_writes(p, event, u) == seq![
                    ((3 + 5 * p) as u16, event_code(event)),
                    ((4 + 5 * p) as u16, (u % 256) as u8),
                    ((5 + 5 * p) as u16, ((u / 256) % 256) as u8),
                    ((6 + 5 * p) as u16, ((u / 65536) % 256) as u8),
                    ((7 + 5 * p) as u16, (u / 16777216) as u8),
                ]
            }
        }),
{
    assert(with_ptr(c, 0) =~= c.update(1, 0).update(2, 0));
    let p = c[1] + 256 * c[2];
    if c[0] != 0xab {
        assert(init_contents(c) =~= c.update(0, 0xab).update(1, 0).update(2, 0));
    }
}

/// The bytes of the EEPROM as the log sees them, with the writes made to
/// them that the device has still to perform, oldest first.
pub struct EepromImage {
    bytes: Vec<u8>,
    writes: Vec<(u16, u8)>,
}

impl EepromImage {
    pub closed spec fn wf(&self) -> bool {
        self.bytes.len() == EEPROM_SIZE
    }

    /// A well-formed image holds exactly `EEPROM_SIZE` bytes.
    pub proof fn lemma_wf_len(&self)
        requires
            self.wf(),
        ensures
            self.contents().len() == EEPROM_SIZE,
    {
    }

    /// The bytes of the EEPROM.
    pub closed spec fn contents(&self) -> Seq<u8> {
        self.bytes@
    }

    /// The writes, `(address, byte)`, made since the last `take_writes`.
    pub closed spec fn pending(&self) -> Seq<(u16, u8)> {
        self.writes@
    }

    /// An image of the EEPROM with the given contents; `None` unless there
    /// are exactly `EEPROM_SIZE` bytes.
    pub fn from_bytes(bytes: Vec<u8>) -> (r: Option<Self>)
        ensures
            bytes@.len() == EEPROM_SIZE <==> r is Some,
            r matches Some(img) ==> img.wf() && img.contents() == bytes@ && img.pending() == Seq::<
                (u16, u8),
            >::empty(),
    {
        if bytes.len() == EEPROM_SIZE {
            Some(EepromImage { bytes, writes: Vec::new() })
        } else {
            None
        }
    }

    /// The bytes of the EEPROM.
    pub fn bytes(&self) -> (r: &Vec<u8>)
        ensures
            r@ == self.contents(),
    {
        &self.bytes
    }

    /// Hands out the pending writes, oldest first, and forgets them.
    pub fn take_writes(&mut self) -> (r: Vec<(u16, u8)>)
        requires
            old(self).wf(),
        ensures
            final(self).wf(),
            r@ == old(self).pending(),
            final(self).contents() == old(self).contents(),
            final(self).pending() == Seq::<(u16, u8)>::empty(),
    {
        let mut w: Vec<(u16, u8)> = Vec::new();
        std::mem::swap(&mut w, &mut self.writes);
        w
    }

    /// The byte at `addr`.
    pub fn ee_read(&self, addr: u16) -> (r: u8)
        requires
            self.wf(),
            addr < EEPROM_SIZE,
        ensures
            r == self.contents()[addr as int],
    {
        self.bytes[addr as usize]
    }

    /// Writes `data` at `addr`.
    pub fn ee_write(&mut self, addr: u16, data: u8)
        requires
            old(self).wf(),
            addr < EEPROM_SIZE,
        ensures
            final(self).wf(),
            final(self).contents() == old(self).contents().update(addr as int, data),
            final(self).pending() == old(self).pending().push((addr, data)),
    {
        self.bytes.set(addr as usize, data);
        self.writes.push((addr, data));
    }

    /// The write pointer: the number of records written so far.
    pub fn ee_read_ptr(&self) -> (r: u16)
        requires
            self.wf(),
        ensures
            r == stored_ptr(self.contents()),
    {
        let lo = self.ee_read(EEPROM_PTR_LO_ADDR) as u16;
        let hi = self.ee_read(EEPROM_PTR_HI_ADDR) as u16;
        assert((hi << 8u16) | lo == hi * 256 + lo) by (bit_vector)
            requires
                lo < 256,
                hi < 256,
        ;
        (hi << 8u16) | lo
    }

    /// Sets the write pointer to `ptr`, low byte first.
    pub fn ee_write_ptr(&mut self, ptr: u16)
        requires
            old(self).wf(),
        ensures
            final(self).wf(),
            final(self).contents() == with_ptr(old(self).contents(), ptr),
            final(self).pending() == old(self).pending() + ptr_writes(ptr),
            stored_ptr(final(self).contents()) == ptr,
    {
        assert((ptr & 0xffu16) == ptr % 256 && (ptr >> 8u16) == ptr / 256) by (bit_vector);
        self.ee_write(EEPROM_PTR_LO_ADDR, (ptr & 0xff) as u8);
        self.ee_write(EEPROM_PTR_HI_ADDR, (ptr >> 8) as u8);
        assert(self.pending() =~= old(self).pending() + ptr_writes(ptr));
    }

    /// Formats the log unless the magic byte says it already is: then the
    /// magic byte is written and the write pointer set to 0.
    pub fn eeprom_init(&mut self)
        requires
            old(self).wf(),
        ensures
            final(self).wf(),
            final(self).contents() == init_contents(old(self).contents()),
            old(self).contents()[EEPROM_MAGIC_ADDR as int] == EEPROM_MAGIC ==> final(self).pending()
                == old(self).pending(),
            old(self).contents()[EEPROM_MAGIC_ADDR as int] != EEPROM_MAGIC ==> {
                &&& final(self).pending() == old(self).pending().push(
                    (EEPROM_MAGIC_ADDR, EEPROM_MAGIC),
                ) + ptr_writes(0)
            },
            final(self).contents()[EEPROM_MAGIC_ADDR as int] == EEPROM_MAGIC,
    {
        if self.ee_read(EEPROM_MAGIC_ADDR) != EEPROM_MAGIC {
            self.ee_write(EEPROM_MAGIC_ADDR, EEPROM_MAGIC);
            self.ee_write_ptr(0);
        }
    }

    /// Appends `event`, stamped `uptime_ms`, to the log: the record's five
    /// bytes first, then the write pointer. A full log is left alone.
    pub fn eeprom_log_event(&mut self, event: Event, uptime_ms: u32)
        requires
            old(self).wf(),
        ensures
            final(self).wf(),
            final(self).contents() == log_contents(old(self).contents(), event, uptime_ms),
            ({
                let c = old(self).contents();
                let p = stored_ptr(c);
                if p >= EEPROM_MAX_ENTRIES {
                    &&& final(self).contents() == c
                    &&& final(self).pending() == old(self).pending()
                } else {
                    &&& final(self).contents() == with_ptr(
                        with_entry(c, p, event, uptime_ms),
                        (p + 1) as u16,
                    )
                    &&& final(self).pending() == old(self).pending() + entry_writes(
                        p,
                        event,
                        uptime_ms,
                    ) + ptr_writes((p + 1) as u16)
                    &&& stored_entries(final(self).contents()) == stored_entries(c).push(
                        LogEntry { timestamp_ms: uptime_ms, event },
                    )
                }
            }),
    {
        let ptr = self.ee_read_ptr();
        if ptr >= EEPROM_MAX_ENTRIES {
            return ;
        }
        let base = EEPROM_DATA_START + ptr * EEPROM_ENTRY_SIZE;
        let ghost c = self.contents();
        let ghost w = self.pending();
        proof {
            assert((uptime_ms & 0xffu32) == uptime_ms % 256) by (bit_vector);
            assert(((uptime_ms >> 8u32) & 0xffu32) == (uptime_ms / 256) % 256) by (bit_vector);
            assert(((uptime_ms >> 16u32) & 0xffu32) == (uptime_ms / 65536) % 256) by (bit_vector);
            assert(((uptime_ms >> 24u32) & 0xffu32) == uptime_ms / 16777216) by (bit_vector);
        }
        self.ee_write(base, event.to_u8());
        self.ee_write(base + 1, (uptime_ms & 0xff) as u8);
        self.ee_write(base + 2, ((uptime_ms >> 8) & 0xff) as u8);
        self.ee_write(base + 3, ((uptime_ms >> 16) & 0xff) as u8);
        self.ee_write(base + 4, ((uptime_ms >> 24) & 0xff) as u8);
        assert(self.contents() =~= with_entry(c, ptr as int, event, uptime_ms));
        assert(self.pending() =~= w + entry_writes(ptr as int, event, uptime_ms));
        self.ee_write_ptr(ptr + 1);
        proof {
            lemma_append_entry(c, event, uptime_ms);
        }
    }

    /// The records of the log, in the order written.
    pub fn eeprom_dump_logs(&self) -> (r: Vec<LogEntry>)
        requires
            self.wf(),
        ensures
            r@ == stored_entries(self.contents()),
    {
        let ptr = self.ee_read_ptr();
        let count = if ptr < EEPROM_MAX_ENTRIES { ptr } else { EEPROM_MAX_ENTRIES };
        let mut r: Vec<LogEntry> = Vec::new();
        let mut i: u16 = 0;
        while i < count
            invariant
                self.wf(),
                count == stored_count(self.contents()),
                i <= count,
                r@ == stored_entries(self.contents()).take(i as int),
            decreases count - i,
        {
            let base = EEPROM_DATA_START + i * EEPROM_ENTRY_SIZE;
            let event = Event::from_u8(self.ee_read(base));
            let b1 = self.ee_read(base + 1);
            let b2 = self.ee_read(base + 2);
            let b3 = self.ee_read(base + 3);
            let b4 = self.ee_read(base + 4);
            let t = (b1 as u32) | ((b2 as u32) << 8u32) | ((b3 as u32) << 16u32) | ((b4 as u32)
                << 24u32);
            assert(t == le_u32(b1, b2, b3, b4)) by {
                assert((b1 as u32) | ((b2 as u32) << 8u32) | ((b3 as u32) << 16u32) | ((b4 as u32)
                    << 24u32) == b1 + 256 * b2 + 65536 * b3 + 16777216 * b4) by (bit_vector);
            }
            r.push(LogEntry { timestamp_ms: t, event });
            i = i + 1;
            assert(r@ =~= stored_entries(self.contents()).take(i as int));
        }
        assert(r@ =~= stored_entries(self.contents()));
        r
    }

    /// Empties the log by setting the write pointer to 0; the records
    /// themselves stay until they are overwritten.
    pub fn eeprom_clear_logs(&mut self)
        requires
            old(self).wf(),
        ensures
            final(self).wf(),
            final(self).contents() == with_ptr(old(self).contents(), 0),
            final(self).pending() == old(self).pending() + ptr_writes(0),
            stored_entries(final(self).contents()) == Seq::<LogEntry>::empty(),
    {
        self.ee_write_ptr(0);
        assert(stored_entries(self.contents()) =~= Seq::<LogEntry>::empty());
    }
}

} // verus!
