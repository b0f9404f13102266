//! The event log: audit events, each serialized by the caller and stored as a
//! record framed by its length (4 bytes, little-endian) in an append-only file.

use vstd::prelude::*;

verus! {

/// What an event records.
#[derive(Clone, Copy, Debug, PartialEq, Eq, Structural)]
pub enum EventType {
    VaultCreated,
    EntryCreated,
    EntryUpdated,
    EntryDeleted,
    EntryAccessed,
}

/// One audit event. `event_id` and `entry_id` are 128-bit UUID values and
/// `timestamp` is in seconds since the Unix epoch.
pub struct Event {
    pub event_id: u128,
    pub timestamp: i64,
    pub event_type: EventType,
    pub entry_id: Option<u128>,
    pub payload: Vec<u8>,
}

/// Why the log could not be read back.
#[derive(Clone, Copy, Debug, PartialEq, Eq, Structural)]
pub enum LogError {
    /// A record is shorter than its length header says.
    Truncated,
}

/// The four little-endian bytes of `n`.
pub open spec fn le32(n: u32) -> Seq<u8> {
    seq![(n % 256) as u8, ((n / 256) % 256) as u8, ((n / 65536) % 256) as u8, ((n / 16777216) % 256) as u8]
}

/// The number whose little-endian bytes are `b[0..4]`.
pub open spec fn le32_value(b: Seq<u8>) -> nat {
    (b[0] + 256 * b[1] + 65536 * b[2] + 16777216 * b[3]) as nat
}

/// One framed record: the length of `data` (truncated to 32 bits), then
/// `data`.
pub open spec fn frame(data: Seq<u8>) -> Seq<u8> {
    le32((data.len() % 0x1_0000_0000) as u32) + data
}

/// The records framed one after another.
pub open spec fn framed_all(records: Seq<Seq<u8>>) -> Seq<u8>
    decreases records.len(),
{
    if records.len() == 0 {
        Seq::empty()
    } else {
        frame(records[0]) + framed_all(records.drop_first())
    }
}

/// The records of a log, read from the front: reading stops when fewer than
/// four bytes are left; a record shorter than its header makes the log
/// unreadable (`None`).
pub open spec fn records_of(log: Seq<u8>) -> Option<Seq<Seq<u8>>>
    decreases log.len(),
{
    if log.len() < 4 {
        Some(Seq::empty())
    } else {
        let n = le32_value(log);
        if log.len() - 4 < n {
            None
        } else {
            match records_of(log.skip(4 + n as int)) {
                Some(rest) => Some(seq![log.subrange(4, 4 + n as int)] + rest),
                None => None,
            }
        }
    }
}

/// The little-endian bytes of a number give the number back.
pub proof fn lemma_le32_roundtrip(n: u32)
    ensures
        le32_value(le32(n)) == n,
{
    let b0: u32 = n % 256;
    let b1: u32 = (n / 256) % 256;
    let b2: u32 = (n / 65536) % 256;
    let b3: u32 = (n / 16777216) % 256;
    assert(b0 + 256 * b1 + 65536 * b2 + 16777216 * b3 == n) by (bit_vector)
        requires
            b0 == n % 256,
            b1 == (n / 256) % 256,
            b2 == (n / 65536) % 256,
            b3 == (n / 16777216) % 256,
    ;
    let s = le32(n);
    assert(s[0] == b0 && s[1] == b1 && s[2] == b2 && s[3] == b3);
}

/// The frame of a record: its length as four little-endian bytes, then the
/// record.
pub fn frame_record(encoded: &[u8]) -> (res: Vec<u8>)
    ensures
        res@ == frame(encoded@),
{
    let len: u32 = (encoded.len() as u64 % 0x1_0000_0000) as u32;
    let mut res: Vec<u8> = Vec::new();
    res.push((len % 256) as u8);
    res.push(((len / 256) % 256) as u8);
    res.push(((len / 65536) % 256) as u8);
    res.push(((len / 16777216) % 256) as u8);
    let mut k: usize = 0;
    while k < encoded.len()
        invariant
            k <= encoded.len(),
            res@ == le32(len) + encoded@.subrange(0, k as int),
        decreases encoded.len() - k,
    {
        res.push(encoded[k]);
        k = k + 1;
        assert(res@ =~= le32(len) + encoded@.subrange(0, k as int));
    }
    assert(encoded@.subrange(0, k as int) =~= encoded@);
    res
}

/// A copy of `log[from..to]`.
fn copy_range(log: &[u8], from: usize, to: usize) -> (res: Vec<u8>)
    requires
        from <= to <= log.len(),
    ensures
        res@ == log@.subrange(from as int, to as int),
{
    let mut res: Vec<u8> = Vec::new();
    let mut k: usize = from;
    while k < to
        invariant
            from <= k <= to,
            to <= log.len(),
            res@ == log@.subrange(from as int, k as int),
        decreases to - k,
    {
        res.push(log[k]);
        k = k + 1;
        assert(res@ =~= log@.subrange(from as int, k as int));
    }
    res
}

/// The records of an event log (see `records_of`), or `Truncated` when a
/// record is cut short.
pub fn split_records(log: &[u8]) -> (res: Result<Vec<Vec<u8>>, LogError>)
    ensures
        match records_of(log@) {
            Some(rs) => res is Ok && res->Ok_0@.map_values(|r: Vec<u8>| r@) == rs,
            None => res == Err::<Vec<Vec<u8>>, LogError>(LogError::Truncated),
        },
{
    let mut records: Vec<Vec<u8>> = Vec::new();
    let mut pos: usize = 0;
    proof {
        assert(log@.skip(0) =~= log@);
        match records_of(log@) {
            Some(rest) => {
                assert(records@.map_values(|r: Vec<u8>| r@) + rest =~= rest);
            },
            None => {},
        }
    }
    loop
        invariant
            pos <= log.len(),
            match records_of(log@.skip(pos as int)) {
                Some(rest) => records_of(log@) == Some(records@.map_values(|r: Vec<u8>| r@) + rest),
                None => records_of(log@) is None,
            },
        decreases log.len() - pos,
    {
        let ghost tail = log@.skip(pos as int);
        if log.len() - pos < 4 {
            proof {
                assert(records@.map_values(|r: Vec<u8>| r@) + Seq::<Seq<u8>>::empty() =~= records@.map_values(
                    |r: Vec<u8>| r@,
                ));
            }
            return Ok(records);
        }
        let n: usize = log[pos] as usize + 256 * (log[pos + 1] as usize) + 65536 * (log[pos + 2] as usize)
            + 16777216 * (log[pos + 3] as usize);
        assert(n == le32_value(tail));
        if log.len() - pos - 4 < n {
            return Err(LogError::Truncated);
        }
        let record = copy_range(log, pos + 4, pos + 4 + n);
        proof {
            assert(tail.skip(4 + n as int) =~= log@.skip((pos + 4 + n) as int));
            assert(tail.subrange(4, 4 + n as int) =~= record@);
            let before = records@.map_values(|r: Vec<u8>| r@);
            let after = records@.push(record).map_values(|r: Vec<u8>| r@);
            assert(after =~= before.push(record@));
            match records_of(log@.skip((pos + 4 + n) as int)) {
                Some(rest) => {
                    assert(before + (seq![record@] + rest) =~= after + rest);
                },
                None => {},
            }
        }
        records.push(record);
        pos = pos + 4 + n;
    }
}

/// Records framed one after another read back as exactly those records, in
/// order, when each is shorter than 2^32 bytes. As the log is only ever
/// appended to, this is also what reading gives after any number of appends.
pub proof fn law_records_after_frames(records: Seq<Seq<u8>>)
    requires
        forall|k: int| 0 <= k < records.len() ==> (#[trigger] records[k]).len() < 0x1_0000_0000,
    ensures
        records_of(framed_all(records)) == Some(records),
    decreases records.len(),
{
    if records.len() > 0 {
        let x = records[0];
        let rest = records.drop_first();
        assert forall|k: int| 0 <= k < rest.len() implies (#[trigger] rest[k]).len() < 0x1_0000_0000 by {
            assert(rest[k] == records[k + 1]);
        }
        law_records_after_frames(rest);
        let log = framed_all(records);
        let n = x.len() as u32;
        lemma_le32_roundtrip(n);
        assert(log.subrange(0, 4) =~= le32(n));
        assert(le32_value(log) == le32_value(le32(n)));
        assert(log.skip(4 + x.len() as int) =~= framed_all(rest));
        assert(log.subrange(4, 4 + x.len() as int) =~= x);
        assert(seq![x] + rest =~= records);
    }
}

/// Appending the frame of a record to a log of framed records.
pub proof fn lemma_framed_all_push(records: Seq<Seq<u8>>, x: Seq<u8>)
    ensures
        framed_all(records.push(x)) == framed_all(records) + frame(x),
    decreases records.len(),
{
    if records.len() == 0 {
        assert(records.push(x).drop_first() =~= Seq::<Seq<u8>>::empty());
        assert(records.push(x)[0] == x);
        assert(framed_all(records.push(x).drop_first()) == Seq::<u8>::empty());
        assert(framed_all(records.push(x)) =~= frame(x));
    } else {
        assert(records.push(x).drop_first() =~= records.drop_first().push(x));
        lemma_framed_all_push(records.drop_first(), x);
        assert(framed_all(records.push(x)) =~= framed_all(records) + frame(x));
    }
}

} // verus!
