use vstd::prelude::*;

use crate::gen::FlakeErr;

verus! {

/// The per-node sequence counter: the last-used millisecond timestamp and
/// the last-used sequence number. A successful [`SeqGen::next`] call is the
/// only thing that changes it, and successive successful calls yield
/// strictly increasing `(timestamp, sequence)` pairs.
pub struct SeqGen {
    timestamp: u64,
    seq: u16,
}

/// Whether the pair `(ts1, sq1)` is strictly greater than `(ts0, sq0)` in
/// lexicographic order: the order in which one counter hands pairs out.
pub open spec fn advances(ts0: u64, sq0: u16, ts1: u64, sq1: u16) -> bool {
    ts1 > ts0 || (ts1 == ts0 && sq1 > sq0)
}

/// Relies on `std::time::SystemTime`: the wall clock's reading as
/// milliseconds since the Unix epoch, or `None` when the clock reads
/// before the epoch. The outcome depends on the host's clock, so nothing
/// more is assumed of it.
#[verifier::external_body]
fn clock_millis() -> (r: Option<u128>) {
    match std::time::SystemTime::now().duration_since(std::time::SystemTime::UNIX_EPOCH) {
        Ok(elapsed) => Some(elapsed.as_millis()),
        Err(_) => None,
    }
}

impl Default for SeqGen {
    /// A fresh counter, with no pair issued yet.
    fn default() -> (r: SeqGen)
        ensures
            r.last_timestamp() == 0,
            r.last_sequence() == 0,
    {
        SeqGen { timestamp: 0, seq: 0 }
    }
}

impl SeqGen {
    /// The last-used millisecond timestamp.
    pub closed spec fn last_timestamp(self) -> u64 {
        self.timestamp
    }

    /// The last-used sequence number.
    pub closed spec fn last_sequence(self) -> u16 {
        self.seq
    }

    /// The next `(timestamp, sequence)` pair for the wall-clock reading
    /// `now`, in milliseconds since the Unix epoch.
    ///
    /// A later millisecond restarts the sequence at zero; the same
    /// millisecond advances it by one, failing with `Exhausted` once the
    /// 16-bit space is spent; an earlier millisecond fails with
    /// `TimeDrift`, since it could repeat an already-issued pair. On
    /// failure the counter is left unchanged, so the next well-clocked
    /// call behaves as if the failed one had never happened.
    pub fn next(&mut self, now: u64) -> (r: Result<(u64, u16), FlakeErr>)
        ensures
            now > old(self).last_timestamp() ==> {
                &&& r == Ok::<(u64, u16), FlakeErr>((now, 0u16))
                &&& final(self).last_timestamp() == now
                &&& final(self).last_sequence() == 0
            },
            now == old(self).last_timestamp() && old(self).last_sequence() < 0xffff ==> {
                &&& r == Ok::<(u64, u16), FlakeErr>(
                    (now, (old(self).last_sequence() + 1) as u16),
                )
                &&& final(self).last_timestamp() == now
                &&& final(self).last_sequence() == old(self).last_sequence() + 1
            },
            now == old(self).last_timestamp() && old(self).last_sequence() == 0xffff ==> {
                &&& r == Err::<(u64, u16), FlakeErr>(FlakeErr::Exhausted)
                &&& *final(self) == *old(self)
            },
            now < old(self).last_timestamp() ==> {
                &&& r == Err::<(u64, u16), FlakeErr>(FlakeErr::TimeDrift)
                &&& *final(self) == *old(self)
            },
            r is Ok ==> {
                &&& advances(
                    old(self).last_timestamp(),
                    old(self).last_sequence(),
                    final(self).last_timestamp(),
                    final(self).last_sequence(),
                )
                &&& r->Ok_0 == (final(self).last_timestamp(), final(self).last_sequence())
            },
    {
        if self.timestamp < now {
            self.timestamp = now;
            self.seq = 0;
            Ok((now, 0))
        } else if self.timestamp == now {
            if self.seq == 0xffff {
                Err(FlakeErr::Exhausted)
            } else {
                self.seq = self.seq + 1;
                Ok((now, self.seq))
            }
        } else {
            Err(FlakeErr::TimeDrift)
        }
    }

    /// The next `(timestamp, sequence)` pair for the wall clock's current
    /// reading. Whatever the clock reports, a success advances the counter
    /// to exactly the issued pair and a failure leaves it unchanged.
    pub fn try_next(&mut self) -> (r: Result<(u64, u16), FlakeErr>)
        ensures
            match r {
                Ok(p) => {
                    &&& p == (final(self).last_timestamp(), final(self).last_sequence())
                    &&& advances(
                        old(self).last_timestamp(),
                        old(self).last_sequence(),
                        final(self).last_timestamp(),
                        final(self).last_sequence(),
                    )
                },
                Err(_) => *final(self) == *old(self),
            },
            r == Err::<(u64, u16), FlakeErr>(FlakeErr::Exhausted) ==> old(self).last_sequence()
                == 0xffff,
    {
        let now = Self::time()?;
        self.next(now)
    }

    /// The wall clock's current reading in milliseconds since the Unix
    /// epoch. A clock before the epoch, or one so far past it that the
    /// milliseconds no longer fit in 64 bits, cannot order identifiers
    /// and is reported as drift.
    pub fn time() -> (r: Result<u64, FlakeErr>)
        ensures
            r is Err ==> r == Err::<u64, FlakeErr>(FlakeErr::TimeDrift),
    {
        match clock_millis() {
            Some(ms) => {
                if ms <= u64::MAX as u128 {
                    Ok(ms as u64)
                } else {
                    Err(FlakeErr::TimeDrift)
                }
            },
            None => Err(FlakeErr::TimeDrift),
        }
    }
}

} // verus!
