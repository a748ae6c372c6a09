use crate::clock::unix_seconds;
use vstd::prelude::*;

verus! {

/// Whether a record written at `inserted_at` with time-to-live `ttl` counts as
/// expired when the clock reads `now`, all in whole seconds.
///
/// A zero `ttl` never expires, a negative one is expired from the start, and a
/// positive one expires once strictly more than `ttl` seconds have passed. A
/// clock reading that lies before `inserted_at` counts as no time passed.
pub open spec fn expired(inserted_at: nat, ttl: int, now: nat) -> bool {
    if ttl == 0 {
        false
    } else if ttl < 0 {
        true
    } else {
        now - inserted_at > ttl
    }
}

/// One stored value with its metadata.
#[derive(Debug, PartialEq, Eq)]
pub struct Data {
    /// Opaque tag supplied by the client and handed back unchanged.
    pub flags: u16,
    /// Length the client declared for the value; stored and echoed, never
    /// checked against `data_block`.
    pub byte_count: u128,
    /// The stored value.
    pub data_block: String,
    /// Clock reading at write time, in seconds since the Unix epoch.
    pub inserted_at: u64,
    /// Time-to-live in seconds: 0 never expires, negative is already expired.
    pub expiry_sec: i128,
}

/// The mathematical content of a [`Data`].
pub struct DataView {
    pub flags: nat,
    pub byte_count: nat,
    pub data_block: Seq<char>,
    pub inserted_at: nat,
    pub expiry_sec: int,
}

impl DataView {
    /// Expiry of this record at clock reading `now`.
    pub open spec fn expired_at(self, now: nat) -> bool {
        expired(self.inserted_at, self.expiry_sec, now)
    }
}

impl View for Data {
    type V = DataView;

    open spec fn view(&self) -> DataView {
        DataView {
            flags: self.flags as nat,
            byte_count: self.byte_count as nat,
            data_block: self.data_block@,
            inserted_at: self.inserted_at as nat,
            expiry_sec: self.expiry_sec as int,
        }
    }
}

impl Clone for Data {
    fn clone(&self) -> (copy: Data)
        ensures
            copy@ == self@,
    {
        Data {
            flags: self.flags,
            byte_count: self.byte_count,
            data_block: self.data_block.clone(),
            inserted_at: self.inserted_at,
            expiry_sec: self.expiry_sec,
        }
    }
}

impl Data {
    /// A record stamped with the given clock reading.
    pub fn new_at(
        flags: u16,
        byte_count: u128,
        data_block: String,
        expiry_sec: i128,
        now: u64,
    ) -> (data: Data)
        ensures
            data@ == (DataView {
                flags: flags as nat,
                byte_count: byte_count as nat,
                data_block: data_block@,
                inserted_at: now as nat,
                expiry_sec: expiry_sec as int,
            }),
    {
        Data { flags, byte_count, data_block, inserted_at: now, expiry_sec }
    }

    /// A record stamped with the current clock reading, whatever it is.
    pub fn new(flags: u16, byte_count: u128, data_block: String, expiry_sec: i128) -> (data: Data)
        ensures
            data@.flags == flags,
            data@.byte_count == byte_count,
            data@.data_block == data_block@,
            data@.expiry_sec == expiry_sec,
    {
        let now: u64 = unix_seconds();
        Data::new_at(flags, byte_count, data_block, expiry_sec, now)
    }

    /// Whether the record is expired at clock reading `now`.
    pub fn is_expired_at(&self, now: u64) -> (gone: bool)
        ensures
            gone == self@.expired_at(now as nat),
    {
        if self.expiry_sec == 0 {
            false
        } else if self.expiry_sec < 0 {
            true
        } else if now <= self.inserted_at {
            false
        } else {
            let elapsed: u64 = now - self.inserted_at;
            elapsed as i128 > self.expiry_sec
        }
    }

    /// Whether the record is expired at the current clock reading. The answer
    /// is the one `is_expired_at` gives for some reading; for a time-to-live
    /// that is zero or negative every reading gives the same answer.
    pub fn is_expired(&self) -> (gone: bool)
        ensures
            exists|now: u64| gone == #[trigger] self@.expired_at(now as nat),
    {
        let now: u64 = unix_seconds();
        let gone = self.is_expired_at(now);
        assert(gone == self@.expired_at(now as nat));
        gone
    }
}

} // verus!
