use attack_simulator::attacks::{Attack, MetricsSnapshot};
use attack_simulator::ddos::{
    bandwidth_text, format_source, random_source, DDoSAttack, DDoSTick, DDoSWorker, BATCH_CEILING, IDLE_TICK_MS,
    PACKET_SIZE_BYTES, TICK_MS,
};
use attack_simulator::intensity::Intensity;

fn octets(address: &str) -> Vec<u32> {
    address.split('.').map(|part| part.parse::<u32>().unwrap()).collect()
}

#[test]
fn flood_rate_at_fifty_percent_is_five_thousand() {
    let unit = DDoSAttack::new(Intensity::from_percent(50));
    assert_eq!(unit.calculate_packets_per_second(), 5000);
}

#[test]
fn flood_rate_at_zero_is_zero() {
    let unit = DDoSAttack::new(Intensity::from_percent(0));
    assert_eq!(unit.calculate_packets_per_second(), 0);
}

#[test]
fn flood_rate_is_one_hundred_per_point() {
    for percent in 0..=100u32 {
        let unit = DDoSAttack::new(Intensity::from_percent(percent));
        assert_eq!(unit.calculate_packets_per_second(), percent * 100);
    }
    let unit = DDoSAttack::new(Intensity::from_tenths(305));
    assert_eq!(unit.calculate_packets_per_second(), 3050);
}

#[test]
fn flood_starts_with_one_worker() {
    let mut unit = DDoSAttack::new(Intensity::from_percent(50));
    assert!(!unit.is_running());
    assert_eq!(unit.thread_count(), 0);
    assert_eq!(unit.start(), 1);
    assert!(unit.is_running());
    assert_eq!(unit.thread_count(), 1);
}

#[test]
fn flood_start_twice_launches_nothing_more() {
    let mut unit = DDoSAttack::new(Intensity::from_percent(50));
    assert_eq!(unit.start(), 1);
    assert_eq!(unit.start(), 0);
    assert!(unit.is_running());
    assert_eq!(unit.thread_count(), 1);
}

#[test]
fn flood_stop_is_idempotent() {
    let mut unit = DDoSAttack::new(Intensity::from_percent(50));
    assert_eq!(unit.stop(), 0);
    assert!(!unit.is_running());
    unit.start();
    assert_eq!(unit.stop(), 1);
    assert!(!unit.is_running());
    assert_eq!(unit.thread_count(), 0);
    assert_eq!(unit.stop(), 0);
    assert!(!unit.is_running());
    assert_eq!(unit.thread_count(), 0);
}

#[test]
fn flood_reports_bandwidth() {
    let mut unit = DDoSAttack::new(Intensity::from_percent(50));
    unit.start();
    let report = unit.get_metrics();
    // 5000 packets of 1500 bytes are 7.1526 binary megabytes
    assert_eq!(PACKET_SIZE_BYTES, 1500);
    assert_eq!(
        report,
        MetricsSnapshot {
            intensity: Intensity::from_percent(50),
            quantity: 5000,
            summary: String::from("7.15 MB/s")
        }
    );
    unit.stop();
    assert_eq!(unit.get_metrics().quantity, 5000);
    assert_eq!(unit.get_metrics().summary, "7.15 MB/s");
}

#[test]
fn flood_reports_full_bandwidth() {
    let mut unit = DDoSAttack::new(Intensity::from_percent(100));
    unit.start();
    // 10000 packets of 1500 bytes are 14.3051 binary megabytes
    assert_eq!(unit.get_metrics().quantity, 10_000);
    assert_eq!(unit.get_metrics().summary, "14.31 MB/s");
}

#[test]
fn flood_small_change_applies_live() {
    let mut unit = DDoSAttack::new(Intensity::from_percent(50));
    unit.start();
    assert_eq!(unit.update_intensity(Intensity::from_percent(60)), None);
    assert_eq!(unit.calculate_packets_per_second(), 6000);
    assert_eq!(unit.get_metrics().quantity, 6000);
    assert_eq!(unit.get_metrics().summary, "8.58 MB/s");
    assert_eq!(unit.update_intensity(Intensity::from_percent(50)), None);
    assert!(unit.is_running());
    assert_eq!(unit.thread_count(), 1);
}

#[test]
fn flood_large_change_restarts() {
    let mut unit = DDoSAttack::new(Intensity::from_percent(50));
    unit.start();
    assert_eq!(unit.update_intensity(Intensity::from_tenths(601)), Some(1));
    assert!(unit.is_running());
    assert_eq!(unit.thread_count(), 1);
    assert_eq!(unit.update_intensity(Intensity::from_percent(10)), Some(1));
    assert_eq!(unit.calculate_packets_per_second(), 1000);
}

#[test]
fn flood_idle_unit_never_restarts() {
    let mut unit = DDoSAttack::new(Intensity::from_percent(10));
    assert_eq!(unit.update_intensity(Intensity::from_percent(90)), None);
    assert!(!unit.is_running());
    assert_eq!(unit.thread_count(), 0);
    assert_eq!(unit.get_metrics().intensity, Intensity::from_percent(90));
    assert_eq!(unit.get_metrics().quantity, 9000);
    assert_eq!(unit.get_metrics().summary, "12.87 MB/s");
}

#[test]
fn flood_worker_at_rate_zero_only_sleeps() {
    let mut worker = DDoSWorker::new(0, 0);
    for now in [0u64, 500, 1000, 5000, 100_000] {
        let tick = worker.tick(now);
        assert_eq!(tick, DDoSTick { generated: 0, drained: None, sleep_ms: IDLE_TICK_MS });
        assert!(worker.last_batch().is_empty());
    }
    assert_eq!(IDLE_TICK_MS, 1000);
}

#[test]
fn flood_worker_below_ten_per_second_only_sleeps() {
    let mut worker = DDoSWorker::new(9, 0);
    let tick = worker.tick(2000);
    assert_eq!(tick, DDoSTick { generated: 0, drained: None, sleep_ms: 1000 });
}

#[test]
fn flood_worker_makes_a_tenth_of_the_rate() {
    let mut worker = DDoSWorker::new(500, 0);
    let tick = worker.tick(100);
    assert_eq!(tick, DDoSTick { generated: 50, drained: None, sleep_ms: TICK_MS });
    assert_eq!(worker.last_batch().len(), 50);
    assert_eq!(TICK_MS, 100);
}

#[test]
fn flood_worker_batch_is_capped() {
    let mut worker = DDoSWorker::new(5000, 0);
    let tick = worker.tick(100);
    assert_eq!(tick.generated, 100);
    assert_eq!(worker.last_batch().len(), 100);
    assert_eq!(BATCH_CEILING, 100);
    let mut worker = DDoSWorker::new(u32::MAX, 0);
    assert_eq!(worker.tick(1).generated, 100);
}

#[test]
fn flood_worker_reports_once_per_second() {
    let mut worker = DDoSWorker::new(5000, 1_000);
    let mut reports = Vec::new();
    let mut now = 1_000;
    for _ in 0..25 {
        now += 100;
        let tick = worker.tick(now);
        assert_eq!(tick.generated, 100);
        assert_eq!(tick.sleep_ms, 100);
        if let Some(count) = tick.drained {
            reports.push((now, count));
        }
    }
    assert_eq!(reports, vec![(2_000, 1_000), (3_000, 1_000)]);
}

#[test]
fn flood_worker_tolerates_slipping_ticks() {
    let mut worker = DDoSWorker::new(200, 0);
    assert_eq!(worker.tick(999).drained, None);
    assert_eq!(worker.tick(1_000).drained, Some(40));
    assert_eq!(worker.tick(1_999).drained, None);
    assert_eq!(worker.tick(7_500).drained, Some(40));
    assert_eq!(worker.tick(8_499).drained, None);
    assert_eq!(worker.tick(8_500).drained, Some(40));
}

#[test]
fn flood_worker_ignores_a_clock_that_runs_backwards() {
    let mut worker = DDoSWorker::new(100, 10_000);
    assert_eq!(worker.tick(5_000).drained, None);
    assert_eq!(worker.tick(0).drained, None);
    assert_eq!(worker.tick(10_999).drained, None);
    assert_eq!(worker.tick(11_000).drained, Some(40));
}

#[test]
fn flood_worker_batch_holds_plausible_sources() {
    let mut worker = DDoSWorker::new(5000, 0);
    for round in 0..20u64 {
        worker.tick(round * 100);
        for address in worker.last_batch() {
            let parts = octets(address);
            assert_eq!(parts.len(), 4);
            assert!(parts[0] >= 1 && parts[0] < 255, "{}", address);
            for part in &parts[1..] {
                assert!(*part < 255, "{}", address);
            }
            let again = format!("{}.{}.{}.{}", parts[0], parts[1], parts[2], parts[3]);
            assert_eq!(&again, address);
        }
    }
}

#[test]
fn flood_sources_vary() {
    let mut seen = std::collections::HashSet::new();
    for _ in 0..200 {
        seen.insert(random_source());
    }
    assert!(seen.len() > 100);
    assert!(seen.iter().any(|s| octets(s)[0] != 1));
    assert!(seen.iter().any(|s| octets(s)[1] != 0));
    assert!(seen.iter().any(|s| octets(s)[3] != 0));
}

#[test]
fn source_is_written_as_a_dotted_quad() {
    assert_eq!(format_source(1, 0, 0, 0), "1.0.0.0");
    assert_eq!(format_source(192, 168, 1, 254), "192.168.1.254");
    assert_eq!(format_source(255, 255, 255, 255), "255.255.255.255");
    assert_eq!(format_source(10, 20, 30, 40), "10.20.30.40");
}

#[test]
fn bandwidth_is_written_in_megabytes_per_second() {
    assert_eq!(bandwidth_text(0), "0.00 MB/s");
    assert_eq!(bandwidth_text(7_500_000), "7.15 MB/s");
    assert_eq!(bandwidth_text(1_048_576), "1.00 MB/s");
    assert_eq!(bandwidth_text(150_000_000), "143.05 MB/s");
}

#[test]
fn flood_reports_its_target_rate_before_it_starts() {
    let unit = DDoSAttack::new(Intensity::from_percent(50));
    let report = unit.get_metrics();
    assert_eq!(report.intensity, Intensity::from_percent(50));
    assert_eq!(report.quantity, 5000);
    assert_eq!(report.summary, "7.15 MB/s");
    let idle = DDoSAttack::new(Intensity::from_percent(0));
    assert_eq!(idle.get_metrics().quantity, 0);
    assert_eq!(idle.get_metrics().summary, "0.00 MB/s");
}

#[test]
fn flood_worker_takes_up_a_new_rate() {
    let mut worker = DDoSWorker::new(500, 0);
    assert_eq!(worker.tick(100).generated, 50);
    worker.set_rate(600);
    let tick = worker.tick(200);
    assert_eq!(tick, DDoSTick { generated: 60, drained: None, sleep_ms: 100 });
    worker.set_rate(0);
    assert_eq!(worker.tick(5_000), DDoSTick { generated: 0, drained: None, sleep_ms: 1000 });
    worker.set_rate(100);
    // the counter and the interval were kept: 50 + 60 + 10 packets since time 0
    assert_eq!(worker.tick(5_100).drained, Some(120));
}
