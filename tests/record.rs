use host_metrics::record::{encode, Sample};
use host_metrics::traffic::TrafficError;

fn sample() -> Sample {
    Sample {
        cpu_usage: "12.5".to_string(),
        ram_usage: "3.2".to_string(),
        heaviest_process_name: "chrome".to_string(),
        gpu_usage: None,
        gpu_temp: None,
        gpu_power: None,
        download_rate: Some("1024".to_string()),
        upload_rate: Some("512".to_string()),
        timestamp: 1700000000000000000,
    }
}

#[test]
fn encodes_line_protocol_record() {
    assert_eq!(
        encode(&sample()),
        "system_metrics,host=localhost cpu_usage=12.5,ram_usage=3.2,heaviest_process=\"chrome\",gpu_usage=-1,gpu_temp=-1,gpu_power=-1,download_rate=1024,upload_rate=512 1700000000000000000"
    );
}

#[test]
fn failed_network_reading_is_sentinel_only() {
    let mut s = sample();
    s.download_rate = None;
    s.upload_rate = None;
    s.gpu_usage = Some("45".to_string());
    s.gpu_temp = Some("70".to_string());
    s.gpu_power = Some("120".to_string());
    assert_eq!(
        encode(&s),
        "system_metrics,host=localhost cpu_usage=12.5,ram_usage=3.2,heaviest_process=\"chrome\",gpu_usage=45,gpu_temp=70,gpu_power=120,download_rate=-1,upload_rate=-1 1700000000000000000"
    );
}

#[test]
fn process_name_is_escaped() {
    let mut s = sample();
    s.heaviest_process_name = "a\"b\\c".to_string();
    s.timestamp = 0;
    assert_eq!(
        encode(&s),
        "system_metrics,host=localhost cpu_usage=12.5,ram_usage=3.2,heaviest_process=\"a\\\"b\\\\c\",gpu_usage=-1,gpu_temp=-1,gpu_power=-1,download_rate=1024,upload_rate=512 0"
    );
}

#[test]
fn largest_timestamp_is_written_in_full() {
    let mut s = sample();
    s.heaviest_process_name = String::new();
    s.timestamp = u128::MAX;
    let line = encode(&s);
    assert!(line.ends_with("heaviest_process=\"\",gpu_usage=-1,gpu_temp=-1,gpu_power=-1,download_rate=1024,upload_rate=512 340282366920938463463374607431768211455"));
}

#[test]
fn non_ascii_process_name_is_kept() {
    let mut s = sample();
    s.heaviest_process_name = "naïve–proc\"".to_string();
    assert!(encode(&s).contains("heaviest_process=\"naïve–proc\\\"\",gpu_usage=-1"));
}

#[test]
fn tick_with_failing_network_keeps_other_fields() {
    let s = Sample::from_readings(
        "12.5".to_string(),
        "3.2".to_string(),
        "chrome".to_string(),
        (Some("45".to_string()), None, Some("120".to_string())),
        Err(TrafficError::Unavailable),
        1700000000000000000,
    );
    assert_eq!(s.download_rate, None);
    assert_eq!(s.upload_rate, None);
    assert_eq!(s.cpu_usage, "12.5");
    assert_eq!(s.heaviest_process_name, "chrome");
    assert_eq!(
        encode(&s),
        "system_metrics,host=localhost cpu_usage=12.5,ram_usage=3.2,heaviest_process=\"chrome\",gpu_usage=45,gpu_temp=-1,gpu_power=120,download_rate=-1,upload_rate=-1 1700000000000000000"
    );
}

#[test]
fn tick_with_working_network_keeps_rates() {
    let s = Sample::from_readings(
        "1".to_string(),
        "2".to_string(),
        String::new(),
        (None, None, None),
        Ok(("0".to_string(), "0.5".to_string())),
        7,
    );
    assert_eq!(s.download_rate, Some("0".to_string()));
    assert_eq!(s.upload_rate, Some("0.5".to_string()));
    assert_eq!(s.timestamp, 7);
}
