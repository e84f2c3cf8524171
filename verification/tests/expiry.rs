use fetra::aggregator::Aggregator;
use fetra::event::FileAccessEvent;
use fetra::machine::MachineInfo;
use std::time::{Duration, Instant};

fn event(tgid: u32) -> FileAccessEvent {
    let mut e = FileAccessEvent::zeroed();
    e.tgid = tgid;
    e.comm[..3].copy_from_slice(b"app");
    e
}

fn aggregator() -> Aggregator {
    Aggregator::new(MachineInfo {
        id: "id".to_string(),
        ips: Vec::new(),
        string_ips: "".to_string(),
        hostname: "box".to_string(),
    })
}

fn wait(d: Duration) {
    let start = Instant::now();
    while start.elapsed() < d {
        std::hint::spin_loop();
    }
}

#[test]
fn idle_entry_is_looked_up_again() {
    let mut agg = aggregator();
    let first = agg.get_cmd(&event(500), || Some(b"one\0".to_vec()));
    assert!(first.fresh);
    let again = agg.get_cmd(&event(500), || Some(b"two\0".to_vec()));
    assert_eq!((again.value.as_str(), again.fresh), ("one", false));
    wait(Duration::from_millis(5300));
    let later = agg.get_cmd(&event(500), || Some(b"two\0".to_vec()));
    assert_eq!((later.value.as_str(), later.fresh), ("two", true));
}

#[test]
fn old_entry_is_looked_up_again_though_it_was_asked_for() {
    let mut agg = aggregator();
    let first = agg.get_cmd(&event(500), || Some(b"one\0".to_vec()));
    assert!(first.fresh);
    for _ in 0..3 {
        wait(Duration::from_millis(3000));
        let again = agg.get_cmd(&event(500), || Some(b"two\0".to_vec()));
        assert_eq!((again.value.as_str(), again.fresh), ("one", false));
    }
    wait(Duration::from_millis(1500));
    let later = agg.get_cmd(&event(500), || Some(b"two\0".to_vec()));
    assert_eq!((later.value.as_str(), later.fresh), ("two", true));
}
