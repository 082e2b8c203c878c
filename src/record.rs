//! One sample of host metrics, written as a single line-protocol record.
use vstd::prelude::*;
use vstd::string::StringExecFns;
use crate::traffic::TrafficError;

verus! {

/// The readings of one tick. Numeric readings are held as the decimal text
/// that goes into the record; `None` marks a reading that is unavailable or
/// excluded this tick, written as the sentinel `-1`.
#[derive(Debug, Clone)]
pub struct Sample {
    pub cpu_usage: String,
    pub ram_usage: String,
    pub heaviest_process_name: String,
    pub gpu_usage: Option<String>,
    pub gpu_temp: Option<String>,
    pub gpu_power: Option<String>,
    pub download_rate: Option<String>,
    pub upload_rate: Option<String>,
    /// Nanoseconds since the Unix epoch.
    pub timestamp: u128,
}

impl Sample {
    /// The sample of one tick from what each source gave. A network reading
    /// that failed gives the sentinel for both rates, and only for them.
    pub fn from_readings(
        cpu_usage: String,
        ram_usage: String,
        heaviest_process_name: String,
        gpu: (Option<String>, Option<String>, Option<String>),
        rates: Result<(String, String), TrafficError>,
        timestamp: u128,
    ) -> (r: Sample)
        ensures
            r.cpu_usage == cpu_usage,
            r.ram_usage == ram_usage,
            r.heaviest_process_name == heaviest_process_name,
            (r.gpu_usage, r.gpu_temp, r.gpu_power) == gpu,
            r.timestamp == timestamp,
            rates matches Ok((down, up)) ==> r.download_rate == Some(down) && r.upload_rate == Some(
                up,
            ),
            rates is Err ==> r.download_rate is None && r.upload_rate is None,
    {
        let (download_rate, upload_rate) = match rates {
            Ok((down, up)) => (Some(down), Some(up)),
            Err(_) => (None, None),
        };
        let (gpu_usage, gpu_temp, gpu_power) = gpu;
        Sample {
            cpu_usage,
            ram_usage,
            heaviest_process_name,
            gpu_usage,
            gpu_temp,
            gpu_power,
            download_rate,
            upload_rate,
            timestamp,
        }
    }
}

/// The decimal digit character for `d < 10`.
pub open spec fn digit_char(d: nat) -> char {
    ((d + '0' as nat) as u32) as char
}

/// The decimal numeral of `n`, without leading zeros.
pub open spec fn decimal_of(n: nat) -> Seq<char>
    decreases n,
{
    if n < 10 {
        seq![digit_char(n)]
    } else {
        decimal_of(n / 10).push(digit_char(n % 10))
    }
}

/// `s` as the body of a quoted string field: each `"` and `\` gets a
/// backslash before it.
pub open spec fn escaped(s: Seq<char>) -> Seq<char>
    decreases s.len(),
{
    if s.len() == 0 {
        Seq::empty()
    } else if s.last() == '"' || s.last() == '\\' {
        escaped(s.drop_last()) + seq!['\\', s.last()]
    } else {
        escaped(s.drop_last()).push(s.last())
    }
}

/// The text of a reading that may be unavailable.
pub open spec fn reading(r: Option<String>) -> Seq<char> {
    match r {
        Some(t) => t@,
        None => "-1"@,
    }
}

/// The line-protocol record of a sample: measurement `system_metrics`, tag
/// `host=localhost`, every field in a fixed order, then the timestamp.
pub open spec fn record_of(s: Sample) -> Seq<char> {
    "system_metrics,host=localhost cpu_usage="@ + s.cpu_usage@ + ",ram_usage="@ + s.ram_usage@
        + ",heaviest_process=\""@ + escaped(s.heaviest_process_name@) + "\",gpu_usage="@ + reading(
        s.gpu_usage,
    ) + ",gpu_temp="@ + reading(s.gpu_temp) + ",gpu_power="@ + reading(s.gpu_power)
        + ",download_rate="@ + reading(s.download_rate) + ",upload_rate="@ + reading(
        s.upload_rate,
    ) + " "@ + decimal_of(s.timestamp as nat)
}

/// Relies on `String::push`: appends one character.
#[verifier::external_body]
fn push_char(out: &mut String, c: char)
    ensures
        final(out)@ == old(out)@.push(c),
{
    out.push(c);
}

/// Appends the decimal numeral of `n`.
fn push_decimal(out: &mut String, n: u128)
    ensures
        final(out)@ == old(out)@ + decimal_of(n as nat),
    decreases n,
{
    if n >= 10 {
        push_decimal(out, n / 10);
    }
    let d = (n % 10) as u8;
    let c = (d + 0x30) as char;
    push_char(out, c);
    assert(final(out)@ =~= old(out)@ + decimal_of(n as nat));
}

/// Appends `s` as the body of a quoted string field.
fn push_escaped(out: &mut String, s: &str)
    ensures
        final(out)@ == old(out)@ + escaped(s@),
{
    let ghost start = out@;
    for c in it: s.chars()
        invariant
            it.seq() == s@,
            out@ == start + escaped(s@.take(it.index() as int)),
    {
        assert(s@.take(it.index() + 1).drop_last() =~= s@.take(it.index() as int));
        if c == '"' || c == '\\' {
            push_char(out, '\\');
        }
        push_char(out, c);
        assert(out@ =~= start + escaped(s@.take(it.index() + 1)));
    }
    assert(s@.take(s@.len() as int) =~= s@);
}

/// Appends the text of a reading, or the sentinel `-1` where it is unavailable.
fn push_reading(out: &mut String, r: &Option<String>)
    ensures
        final(out)@ == old(out)@ + reading(*r),
{
    match r {
        Some(t) => out.append(t.as_str()),
        None => {
            proof {
                reveal_strlit("-1");
            }
            out.append("-1");
        },
    }
}

/// Writes a sample as one line-protocol record.
pub fn encode(s: &Sample) -> (r: String)
    ensures
        r@ == record_of(*s),
{
    let mut out = String::new();
    out.append("system_metrics,host=localhost cpu_usage=");
    out.append(s.cpu_usage.as_str());
    out.append(",ram_usage=");
    out.append(s.ram_usage.as_str());
    out.append(",heaviest_process=\"");
    push_escaped(&mut out, s.heaviest_process_name.as_str());
    out.append("\",gpu_usage=");
    push_reading(&mut out, &s.gpu_usage);
    out.append(",gpu_temp=");
    push_reading(&mut out, &s.gpu_temp);
    out.append(",gpu_power=");
    push_reading(&mut out, &s.gpu_power);
    out.append(",download_rate=");
    push_reading(&mut out, &s.download_rate);
    out.append(",upload_rate=");
    push_reading(&mut out, &s.upload_rate);
    out.append(" ");
    push_decimal(&mut out, s.timestamp);
    assert(out@ =~= record_of(*s));
    out
}

} // verus!
