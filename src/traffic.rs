//! Turning cumulative network byte counters into transfer rates.
use vstd::prelude::*;
use crate::text::{chars_of, decimal_u64, parse_u64, split_chars, split_on, split_words, words};

verus! {

/// Why no rates could be taken this time.
#[derive(Debug, Clone, Copy, PartialEq, Eq, Structural)]
pub enum TrafficError {
    /// The statistics tool could not be run, or its output was not text.
    Unavailable,
    /// The statistics report lacks the counter line or fields, or they are not numbers.
    MalformedReport,
    /// The clock shows no time passed since the last sample, or went backwards.
    ClockNotAdvanced,
}

/// A transfer rate of `bytes / seconds` bytes per second; `seconds` is at
/// least one. A counter that went backwards gives negative `bytes`.
#[derive(Debug, Clone, Copy, PartialEq, Eq, Structural)]
pub struct Rate {
    pub bytes: i128,
    pub seconds: u64,
}

/// Download and upload rates of one sample.
#[derive(Debug, Clone, Copy, PartialEq, Eq, Structural)]
pub struct Rates {
    pub download: Rate,
    pub upload: Rate,
}

/// Last observed cumulative network counters, and the second (since the
/// epoch) at which they were read; a `timestamp` of zero means "never sampled".
#[derive(Debug, Clone, Copy, PartialEq, Eq, Structural)]
pub struct NetworkTraffic {
    pub bytes_received: u64,
    pub bytes_sent: u64,
    pub timestamp: u64,
}

/// The zero rate reported on the first sample.
pub open spec fn zero_rate() -> Rate {
    Rate { bytes: 0, seconds: 1 }
}

/// The rate at which a counter moved from `prev` to `cur` over `seconds`.
pub open spec fn rate_between(prev: u64, cur: u64, seconds: u64) -> Rate {
    Rate { bytes: (cur - prev) as i128, seconds }
}

/// The clock reading `now` cannot be measured against the baseline of `t`.
pub open spec fn clock_stalled(t: NetworkTraffic, now: u64) -> bool {
    t.timestamp != 0 && now <= t.timestamp
}

/// What a sample of counters `received` / `sent` at second `now` reports.
pub open spec fn rates_for(t: NetworkTraffic, received: u64, sent: u64, now: u64) -> Result<
    Rates,
    TrafficError,
> {
    if clock_stalled(t, now) {
        Err(TrafficError::ClockNotAdvanced)
    } else if t.timestamp == 0 {
        Ok(Rates { download: zero_rate(), upload: zero_rate() })
    } else {
        let secs = (now - t.timestamp) as u64;
        Ok(
            Rates {
                download: rate_between(t.bytes_received, received, secs),
                upload: rate_between(t.bytes_sent, sent, secs),
            },
        )
    }
}

/// The tracker's state after that sample.
pub open spec fn state_after(t: NetworkTraffic, received: u64, sent: u64, now: u64) -> NetworkTraffic {
    if clock_stalled(t, now) {
        t
    } else {
        NetworkTraffic { bytes_received: received, bytes_sent: sent, timestamp: now }
    }
}

/// The received and sent byte counters of a network statistics report: the
/// second and third whitespace-separated fields of its fifth line.
pub open spec fn counters_of(report: Seq<char>) -> Option<(u64, u64)> {
    let lines = split_on(report, '\n');
    if lines.len() < 5 {
        None
    } else {
        let fields = words(lines[4]);
        if fields.len() < 3 {
            None
        } else {
            match (decimal_u64(fields[1]), decimal_u64(fields[2])) {
                (Some(received), Some(sent)) => Some((received, sent)),
                _ => None,
            }
        }
    }
}

/// Reads the received and sent byte counters out of a statistics report.
pub fn read_counters(report: &str) -> (r: Result<(u64, u64), TrafficError>)
    ensures
        r == (match counters_of(report@) {
            Some(c) => Ok(c),
            None => Err(TrafficError::MalformedReport),
        }),
{
    let chars = chars_of(report);
    let lines = split_chars(&chars, '\n');
    if lines.len() < 5 {
        return Err(TrafficError::MalformedReport);
    }
    assert(lines.deep_view()[4] == lines@[4]@);
    let fields = split_words(&lines[4]);
    if fields.len() < 3 {
        return Err(TrafficError::MalformedReport);
    }
    assert(fields.deep_view()[1] == fields@[1]@);
    assert(fields.deep_view()[2] == fields@[2]@);
    match (parse_u64(&fields[1]), parse_u64(&fields[2])) {
        (Some(received), Some(sent)) => Ok((received, sent)),
        _ => Err(TrafficError::MalformedReport),
    }
}

impl NetworkTraffic {
    /// A tracker that has never sampled: every field is zero.
    pub fn new() -> (r: NetworkTraffic)
        ensures
            r.bytes_received == 0,
            r.bytes_sent == 0,
            r.timestamp == 0,
    {
        NetworkTraffic { bytes_received: 0, bytes_sent: 0, timestamp: 0 }
    }

    /// Takes a sample of the cumulative counters read at second `now`: the
    /// first one reports zero rates, each later one the change per second
    /// since the last. Where the clock did not move forward, nothing changes.
    pub fn record(&mut self, received: u64, sent: u64, now: u64) -> (r: Result<Rates, TrafficError>)
        ensures
            r == rates_for(*old(self), received, sent, now),
            *final(self) == state_after(*old(self), received, sent, now),
            r matches Ok(x) ==> x.download.seconds >= 1 && x.upload.seconds >= 1,
    {
        if self.timestamp != 0 && now <= self.timestamp {
            return Err(TrafficError::ClockNotAdvanced);
        }
        let rates = if self.timestamp == 0 {
            Rates { download: Rate { bytes: 0, seconds: 1 }, upload: Rate { bytes: 0, seconds: 1 } }
        } else {
            let secs = now - self.timestamp;
            Rates {
                download: Rate {
                    bytes: received as i128 - self.bytes_received as i128,
                    seconds: secs,
                },
                upload: Rate { bytes: sent as i128 - self.bytes_sent as i128, seconds: secs },
            }
        };
        self.bytes_received = received;
        self.bytes_sent = sent;
        self.timestamp = now;
        Ok(rates)
    }

    /// Takes a sample from a network statistics report read at second `now`.
    /// A malformed report leaves the tracker as it was.
    pub fn update(&mut self, report: &str, now: u64) -> (r: Result<Rates, TrafficError>)
        ensures
            match counters_of(report@) {
                Some((received, sent)) => {
                    &&& r == rates_for(*old(self), received, sent, now)
                    &&& *final(self) == state_after(*old(self), received, sent, now)
                },
                None => {
                    &&& r == Err::<Rates, TrafficError>(TrafficError::MalformedReport)
                    &&& *final(self) == *old(self)
                },
            },
    {
        match read_counters(report) {
            Ok((received, sent)) => self.record(received, sent, now),
            Err(e) => Err(e),
        }
    }
}

/// Once a baseline exists and the clock has moved forward, each rate is the
/// change of its counter divided by the seconds elapsed, and the tracker then
/// holds the new counters and time.
pub proof fn lemma_rate_is_change_over_time(t: NetworkTraffic, received: u64, sent: u64, now: u64)
    requires
        t.timestamp != 0,
        now > t.timestamp,
    ensures
        rates_for(t, received, sent, now) == Ok::<Rates, TrafficError>(
            Rates {
                download: Rate {
                    bytes: (received - t.bytes_received) as i128,
                    seconds: (now - t.timestamp) as u64,
                },
                upload: Rate {
                    bytes: (sent - t.bytes_sent) as i128,
                    seconds: (now - t.timestamp) as u64,
                },
            },
        ),
        state_after(t, received, sent, now) == (NetworkTraffic {
            bytes_received: received,
            bytes_sent: sent,
            timestamp: now,
        }),
{
}

/// The first sample after construction reports zero rates, whatever the
/// counters, and keeps them as the baseline.
pub proof fn lemma_first_sample_is_zero(received: u64, sent: u64, now: u64)
    ensures
        rates_for(NetworkTraffic { bytes_received: 0, bytes_sent: 0, timestamp: 0 }, received, sent, now)
            == Ok::<Rates, TrafficError>(Rates { download: zero_rate(), upload: zero_rate() }),
        state_after(NetworkTraffic { bytes_received: 0, bytes_sent: 0, timestamp: 0 }, received, sent, now)
            == (NetworkTraffic { bytes_received: received, bytes_sent: sent, timestamp: now }),
{
}

} // verus!
