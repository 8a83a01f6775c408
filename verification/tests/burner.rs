use attack_simulator::attacks::{next_nap_ms, Attack, MAX_NAP_MS};
use attack_simulator::cpu_spike::{sleep_ms_for, workers_for, CPUSpikeAttack, CYCLE_MS};
use attack_simulator::intensity::Intensity;

#[test]
fn burner_never_has_zero_workers() {
    for cores in [0usize, 1, 2, 8, 64, 1024] {
        assert!(workers_for(cores, Intensity::from_percent(0)) >= 1);
        assert_eq!(workers_for(cores, Intensity::from_percent(0)), 1);
    }
    for tenths in 0..=1000i64 {
        assert!(workers_for(8, Intensity::from_tenths(tenths)) >= 1);
    }
}

#[test]
fn burner_uses_every_core_at_full_dial() {
    for cores in [1usize, 2, 8, 64, 1024] {
        assert_eq!(workers_for(cores, Intensity::from_percent(100)), cores);
    }
    assert_eq!(workers_for(usize::MAX, Intensity::from_percent(100)), usize::MAX);
}

#[test]
fn burner_rounds_the_share_of_cores_to_the_nearest() {
    // 2.4 cores, 1.6 cores, 4 cores, 0.4 cores, a half of one core
    assert_eq!(workers_for(8, Intensity::from_percent(30)), 2);
    assert_eq!(workers_for(8, Intensity::from_percent(20)), 2);
    assert_eq!(workers_for(8, Intensity::from_percent(50)), 4);
    assert_eq!(workers_for(8, Intensity::from_percent(5)), 1);
    assert_eq!(workers_for(1, Intensity::from_percent(50)), 1);
    assert_eq!(workers_for(3, Intensity::from_percent(50)), 2);
    assert_eq!(workers_for(16, Intensity::from_tenths(281)), 4);
    assert_eq!(workers_for(16, Intensity::from_tenths(282)), 5);
}

#[test]
fn burner_sleep_fills_the_idle_part_of_the_cycle() {
    assert_eq!(CYCLE_MS, 10_000);
    assert_eq!(sleep_ms_for(Intensity::from_percent(0)), 10_000);
    assert_eq!(sleep_ms_for(Intensity::from_percent(30)), 7_000);
    assert_eq!(sleep_ms_for(Intensity::from_percent(50)), 5_000);
    assert_eq!(sleep_ms_for(Intensity::from_tenths(999)), 10);
    assert_eq!(sleep_ms_for(Intensity::from_percent(100)), 0);
}

#[test]
fn burner_starts_with_the_workers_for_its_cores() {
    let mut unit = CPUSpikeAttack::new(Intensity::from_percent(50));
    assert_eq!(unit.start_with_cores(8), 4);
    assert!(unit.is_running());
    assert_eq!(unit.thread_count(), 4);
    assert_eq!(unit.start_with_cores(64), 0);
    assert_eq!(unit.thread_count(), 4);
}

#[test]
fn burner_starts_on_this_machine() {
    let mut unit = CPUSpikeAttack::new(Intensity::from_percent(100));
    let spawned = unit.start();
    assert!(spawned >= 1);
    assert_eq!(unit.thread_count(), spawned);
    assert!(unit.is_running());
    assert_eq!(unit.start(), 0);
    assert_eq!(unit.stop(), spawned);
    assert_eq!(unit.thread_count(), 0);
}

#[test]
fn burner_stop_is_idempotent() {
    let mut unit = CPUSpikeAttack::new(Intensity::from_percent(50));
    assert_eq!(unit.stop(), 0);
    unit.start_with_cores(8);
    assert_eq!(unit.stop(), 4);
    assert!(!unit.is_running());
    assert_eq!(unit.thread_count(), 0);
    assert_eq!(unit.stop(), 0);
    assert!(!unit.is_running());
    assert_eq!(unit.thread_count(), 0);
    assert_eq!(unit.get_metrics().intensity, Intensity::from_percent(50));
}

#[test]
fn burner_restarts_when_the_dial_leaves_its_bucket() {
    let mut unit = CPUSpikeAttack::new(Intensity::from_percent(39));
    unit.start_with_cores(10);
    assert_eq!(unit.thread_count(), 4);
    assert_eq!(unit.update_intensity_with_cores(Intensity::from_percent(41), 10), Some(4));
    assert_eq!(unit.update_intensity_with_cores(Intensity::from_percent(85), 10), Some(9));
    assert_eq!(unit.thread_count(), 9);
    assert!(unit.is_running());
}

#[test]
fn burner_keeps_its_workers_inside_a_bucket() {
    let mut unit = CPUSpikeAttack::new(Intensity::from_percent(20));
    unit.start_with_cores(10);
    assert_eq!(unit.thread_count(), 2);
    assert_eq!(unit.update_intensity_with_cores(Intensity::from_tenths(399), 10), None);
    assert_eq!(unit.thread_count(), 2);
    assert_eq!(unit.get_metrics().intensity, Intensity::from_tenths(399));
    assert_eq!(unit.update_intensity(Intensity::from_percent(25)), None);
    assert_eq!(unit.thread_count(), 2);
}

#[test]
fn burner_restart_on_this_machine() {
    let mut unit = CPUSpikeAttack::new(Intensity::from_percent(10));
    unit.start();
    let respawned = unit.update_intensity(Intensity::from_percent(100));
    assert_eq!(respawned, Some(unit.thread_count()));
    assert!(unit.thread_count() >= 1);
}

#[test]
fn burner_idle_unit_never_restarts() {
    let mut unit = CPUSpikeAttack::new(Intensity::from_percent(10));
    assert_eq!(unit.update_intensity_with_cores(Intensity::from_percent(90), 8), None);
    assert_eq!(unit.update_intensity(Intensity::from_percent(10)), None);
    assert!(!unit.is_running());
    assert_eq!(unit.thread_count(), 0);
}

#[test]
fn burner_reports_its_dial() {
    let unit = CPUSpikeAttack::new(Intensity::from_percent(30));
    let report = unit.get_metrics();
    assert_eq!(report.intensity, Intensity::from_percent(30));
    assert_eq!(report.quantity, 300);
    assert_eq!(report.summary, "30.0% CPU");
    assert_eq!(CPUSpikeAttack::new(Intensity::from_tenths(5)).get_metrics().summary, "0.5% CPU");
    assert_eq!(
        CPUSpikeAttack::new(Intensity::from_percent(100)).get_metrics().summary,
        "100.0% CPU"
    );
}

#[test]
fn workers_sleep_in_short_naps() {
    assert_eq!(MAX_NAP_MS, 100);
    assert_eq!(next_nap_ms(0), 0);
    assert_eq!(next_nap_ms(1), 1);
    assert_eq!(next_nap_ms(99), 99);
    assert_eq!(next_nap_ms(100), 100);
    assert_eq!(next_nap_ms(10_000), 100);
    assert_eq!(next_nap_ms(u64::MAX), 100);
    // a full idle cycle of the burner is slept in a hundred naps
    let mut left = sleep_ms_for(Intensity::from_percent(0));
    let mut naps = 0;
    while left > 0 {
        left -= next_nap_ms(left);
        naps += 1;
    }
    assert_eq!(naps, 100);
}
