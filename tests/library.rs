use core::time::Duration;
use proviler::control::{AbsentAction, Controller, KeyAction};
use proviler::format::{format_memory_human, format_sample, header, push_decimal, Sample};
use proviler::log_buffer::LogBuffer;
use proviler::target::{ConfigError, Resolution, Target};
use proviler::{Outcome, ProcessStats, Profiler, NOT_FOUND};

#[test]
fn it_works() {}

fn buffer_after(capacity: usize, n: usize) -> Vec<String> {
    let mut b = LogBuffer::new(capacity);
    for i in 0..n {
        b.push(format!("line {}", i));
    }
    b.entries().clone()
}

#[test]
fn log_buffer_keeps_last_entries() {
    for cap in 0..5usize {
        for n in 0..9usize {
            let got = buffer_after(cap, n);
            assert_eq!(got.len(), n.min(cap));
            let first = n - n.min(cap);
            let want: Vec<String> = (first..n).map(|i| format!("line {}", i)).collect();
            assert_eq!(got, want);
        }
    }
}

#[test]
fn log_buffer_zero_capacity_stays_empty() {
    let mut b = LogBuffer::new(0);
    b.push("a".to_string());
    b.push("b".to_string());
    assert_eq!(b.len(), 0);
    assert_eq!(b.capacity(), 0);
}

#[test]
fn human_memory_boundaries() {
    assert_eq!(format_memory_human(1023), "1023 B");
    assert_eq!(format_memory_human(1024), "1.00 KiB");
    assert_eq!(format_memory_human(1024 * 1024 - 1), "1024.00 KiB");
    assert_eq!(format_memory_human(1024 * 1024), "1.00 MiB");
    assert_eq!(format_memory_human(1024 * 1024 * 1024), "1.00 GiB");
    assert_eq!(format_memory_human(0), "0 B");
}

#[test]
fn human_memory_values() {
    assert_eq!(format_memory_human(1536), "1.50 KiB");
    assert_eq!(format_memory_human(5 * 1024 * 1024 + 512 * 1024), "5.50 MiB");
    assert_eq!(format_memory_human(u64::MAX), "17179869184.00 GiB");
}

#[test]
fn human_memory_matches_float_formatting() {
    let mut m: u64 = 1000;
    while m < 1 << 40 {
        let (unit, name) = if m >= 1 << 30 {
            (1u64 << 30, "GiB")
        } else if m >= 1 << 20 {
            (1u64 << 20, "MiB")
        } else {
            (1u64 << 10, "KiB")
        };
        let want = if m >= 1024 {
            format!("{:.2} {}", m as f64 / unit as f64, name)
        } else {
            format!("{} B", m)
        };
        assert_eq!(format_memory_human(m), want, "m = {}", m);
        m = m * 3 / 2 + 7;
    }
    for m in [1152u64, 1024 + 128, 1024 + 384, 2048 + 640] {
        let want = format!("{:.2} KiB", m as f64 / 1024.0);
        assert_eq!(format_memory_human(m), want, "m = {}", m);
    }
}

#[test]
fn decimal_digits() {
    let mut s = String::from("x");
    push_decimal(&mut s, 0);
    push_decimal(&mut s, 907);
    push_decimal(&mut s, u64::MAX);
    assert_eq!(s, format!("x0907{}", u64::MAX));
}

#[test]
fn sample_lines() {
    let s = Sample { timestamp_ms: 1700000000123, cpu: "12.50".to_string(), memory_bytes: 2048 };
    assert_eq!(format_sample(&s, false), "1700000000123 12.50 2048");
    assert_eq!(format_sample(&s, true), "1700000000123 12.50 2.00 KiB");
    let again = format_sample(&s, true);
    assert_eq!(again, format_sample(&s, true));
}

#[test]
fn header_lines() {
    assert_eq!(header(false), "timestamp_ms cpu_usage mem");
    assert_eq!(header(true), "timestamp_ms cpu_usage mem mem_units");
}

#[test]
fn keys_drive_the_controller() {
    let mut c = Controller::new();
    assert!(c.sample_due(1000, 1000));
    assert!(!c.sample_due(999, 1000));
    assert_eq!(c.on_key(' '), KeyAction::Paused);
    assert!(c.paused);
    assert_eq!(c.on_key('x'), KeyAction::Unknown('x'));
    assert!(c.paused && !c.step_requested);
    assert_eq!(c.on_key(' '), KeyAction::Resumed);
    assert!(!c.paused);
    assert_eq!(c.on_key('q'), KeyAction::Quit);
    assert!(c.is_stopped());
    assert!(!c.sample_due(5000, 1000));
}

#[test]
fn paused_takes_no_samples() {
    let mut c = Controller::new();
    c.on_key(' ');
    for elapsed in [0u64, 1000, 2000, 1_000_000, u64::MAX] {
        assert!(!c.sample_due(elapsed, 1000));
    }
}

#[test]
fn single_step_while_paused() {
    let mut c = Controller::new();
    c.on_key(' ');
    assert_eq!(c.on_key('s'), KeyAction::StepRequested);
    assert_eq!(c.on_key('s'), KeyAction::StepRequested);
    assert!(!c.sample_due(10, 1000));
    assert!(c.sample_due(1000, 1000));
    c.begin_sample();
    assert!(c.paused);
    assert!(!c.sample_due(1000, 1000));
    assert!(!c.sample_due(9000, 1000));
    c.on_key(' ');
    assert!(c.sample_due(1000, 1000));
}

#[test]
fn target_configuration() {
    assert_eq!(Target::new(Some(3), Some("a".to_string())).err(), Some(ConfigError::BothPidAndWatch));
    assert_eq!(Target::new(None, None).err(), Some(ConfigError::NeitherPidNorWatch));
    let t = Target::new(Some(42), None).ok().unwrap();
    assert_eq!(t.current(), Some(42));
    assert!(!t.watches());
    let w = Target::new(None, Some("sleep".to_string())).ok().unwrap();
    assert_eq!(w.current(), None);
    assert_eq!(w.watched_name().map(|s| s.as_str()), Some("sleep"));
}

#[test]
fn watch_waits_then_binds() {
    let mut t = Target::new(None, Some("worker".to_string())).ok().unwrap();
    let mut c = Controller::new();
    for _ in 0..3 {
        assert_eq!(c.on_absent(&t), AbsentAction::Resolve);
        assert_eq!(t.resolve(&vec![]), Resolution::Waiting);
        assert_eq!(t.current(), None);
        assert!(!c.is_stopped());
    }
    assert_eq!(t.resolve(&vec![77]), Resolution::Bound(77));
    assert_eq!(t.current(), Some(77));
    assert_eq!(t.resolve(&vec![5, 6]), Resolution::Ambiguous(2));
    assert_eq!(t.current(), None);
}

#[test]
fn explicit_pid_absent_stops() {
    let mut t = Target::new(Some(9), None).ok().unwrap();
    let mut c = Controller::new();
    assert_eq!(t.resolve(&vec![1]), Resolution::Waiting);
    assert_eq!(t.current(), Some(9));
    assert_eq!(c.on_absent(&t), AbsentAction::Stop);
    assert!(c.is_stopped());
    assert!(!c.sample_due(u64::MAX, 1000));
}

#[test]
fn profiler_records_samples() {
    let mut p = Profiler::new(1, Duration::from_millis(250), 2);
    assert_eq!(p.interval(), Duration::from_millis(250));
    let line = p.record(ProcessStats { cpu: "0.00".to_string(), memory_bytes: 10 }, 5);
    assert_eq!(line, "5 0.00 10");
    p.set_human(true);
    p.record(ProcessStats { cpu: "1.25".to_string(), memory_bytes: 3072 }, 6);
    p.record(ProcessStats { cpu: "2.00".to_string(), memory_bytes: 7 }, 7);
    assert_eq!(p.log().entries(), vec!["6 1.25 3.00 KiB".to_string(), "7 2.00 7 B".to_string()]);
    assert_eq!(p.target().current(), Some(1));
}

#[test]
fn profiler_missing_process_is_an_error() {
    let mut p = Profiler::new(u32::MAX, Duration::from_millis(10), 4);
    assert_eq!(p.step(1), Err(NOT_FOUND));
    assert_eq!(p.step(1), Err("process not found"));
    assert_eq!(p.log().len(), 0);
    assert!(p.control().stopped);
    assert!(!p.sample_due(u64::MAX, 10));
}

#[test]
fn profiler_pause_toggles() {
    let mut p = Profiler::new(1, Duration::from_millis(100), 3);
    assert!(!p.control().paused);
    p.pause();
    assert!(p.control().paused);
    assert!(!p.sample_due(1000, 100));
    assert_eq!(p.on_key('s'), KeyAction::StepRequested);
    assert!(p.sample_due(1000, 100));
    p.pause();
    assert!(!p.control().paused);
    assert_eq!(p.target().current(), Some(1));
    assert_eq!(p.log().len(), 0);
}

#[test]
fn profiler_step_uses_up_a_step_request() {
    let mut p = Profiler::new(u32::MAX, Duration::from_millis(100), 3);
    p.pause();
    p.on_key('s');
    assert!(p.sample_due(100, 100));
    let _ = p.step(1);
    assert!(p.control().paused);
    assert!(!p.control().step_requested);
    assert!(!p.sample_due(100, 100));
}

#[test]
fn profiler_watch_waits_without_error() {
    let w = Target::new(None, Some("nobody-has-this-name".to_string())).ok().unwrap();
    let mut p = Profiler::with_target(w, Duration::from_millis(100), 3);
    for ts in 0..3u64 {
        assert_eq!(p.step(ts), Ok(Outcome::Waiting(Resolution::Waiting)));
        assert_eq!(p.target().current(), None);
        assert!(!p.control().stopped);
        assert_eq!(p.log().len(), 0);
    }
}

#[test]
fn profiler_absent_by_mode() {
    let w = Target::new(None, Some("worker".to_string())).ok().unwrap();
    let mut p = Profiler::with_target(w, Duration::from_millis(100), 3);
    assert_eq!(p.absent(&vec![]), Ok(Outcome::Waiting(Resolution::Waiting)));
    assert_eq!(p.absent(&vec![4, 5]), Ok(Outcome::Waiting(Resolution::Ambiguous(2))));
    assert_eq!(p.target().current(), None);
    assert_eq!(p.absent(&vec![12]), Ok(Outcome::Waiting(Resolution::Bound(12))));
    assert_eq!(p.target().current(), Some(12));
    assert!(!p.control().stopped);
    let mut q = Profiler::new(9, Duration::from_millis(100), 3);
    assert_eq!(q.absent(&vec![1]), Err(NOT_FOUND));
    assert_eq!(q.target().current(), Some(9));
    assert!(q.control().stopped);
}
