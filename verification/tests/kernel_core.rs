//! Scenario tests for the CPU core manager and the heterogeneous scheduler.

use starry_core::cpu::{CoreId, CoreState, CpuManager, EnhancedScheduler, TaskInfo};
use starry_core::errors::KernelError;

#[test]
fn start_core_twice_reports_already_in_state() {
    let mut manager = CpuManager::new();
    assert_eq!(manager.get_core_state(CoreId::A76_1), CoreState::Off);
    assert!(manager.start_core(CoreId::A76_1).is_ok());
    assert_eq!(manager.get_core_state(CoreId::A76_1), CoreState::Running);
    let second = manager.start_core(CoreId::A76_1);
    assert_eq!(second, Err(KernelError::AlreadyInState));
    // the state is not corrupted by the refused transition
    assert_eq!(manager.get_core_state(CoreId::A76_1), CoreState::Running);
}

#[test]
fn stop_core_follows_lifecycle() {
    let mut manager = CpuManager::new();
    assert_eq!(manager.stop_core(CoreId::A55_0), Err(KernelError::AlreadyInState));
    assert!(manager.start_core(CoreId::A55_0).is_ok());
    assert!(manager.stop_core(CoreId::A55_0).is_ok());
    assert_eq!(manager.get_core_state(CoreId::A55_0), CoreState::Off);
}

#[test]
fn core_tasks_are_tracked_per_core() {
    let mut manager = CpuManager::new();
    manager.set_core_task(CoreId::A76_2, 77);
    assert_eq!(manager.get_core_task(CoreId::A76_2), 77);
    assert_eq!(manager.get_core_task(CoreId::A76_3), 0);
}

#[test]
fn core_classes_are_split_four_and_four() {
    assert!(CoreId::A76_0.is_performance_core());
    assert!(CoreId::A76_3.is_performance_core());
    assert!(!CoreId::A55_0.is_performance_core());
    assert!(CoreId::A55_3.is_efficiency_core());
    assert!(!CoreId::A76_0.is_efficiency_core());
}

#[test]
fn compute_intensive_task_goes_to_least_loaded_performance_core() {
    let mut scheduler = EnhancedScheduler::new();
    scheduler.update_core_load(CoreId::A76_0, 50);
    scheduler.update_core_load(CoreId::A76_1, 10);
    scheduler.update_core_load(CoreId::A76_2, 30);
    scheduler.update_core_load(CoreId::A76_3, 90);
    // efficiency cores are even less loaded, but a compute-intensive task
    // outside energy mode never lands there
    let task = TaskInfo::new(true, false, 100, 1024, 80);
    let placed = scheduler.schedule_task_intelligent(&task, 0);
    assert_eq!(placed, CoreId::A76_1);
}

#[test]
fn tie_break_picks_lowest_indexed_performance_core() {
    let mut scheduler = EnhancedScheduler::new();
    // all performance loads equal
    scheduler.update_core_load(CoreId::A76_0, 40);
    scheduler.update_core_load(CoreId::A76_1, 40);
    scheduler.update_core_load(CoreId::A76_2, 40);
    scheduler.update_core_load(CoreId::A76_3, 40);
    let task = TaskInfo::new(true, false, 10, 64, 50);
    assert_eq!(scheduler.schedule_task_intelligent(&task, 0), CoreId::A76_0);
}

#[test]
fn energy_mode_sends_ordinary_tasks_to_efficiency_cores() {
    let mut scheduler = EnhancedScheduler::new();
    scheduler.set_energy_efficiency_mode(true);
    scheduler.update_core_load(CoreId::A55_0, 20);
    scheduler.update_core_load(CoreId::A55_1, 5);
    scheduler.update_core_load(CoreId::A55_2, 30);
    scheduler.update_core_load(CoreId::A55_3, 9);
    let task = TaskInfo::new(false, false, 10, 64, 50);
    assert_eq!(scheduler.schedule_task_intelligent(&task, 0), CoreId::A55_1);
}

#[test]
fn latency_sensitive_task_prefers_performance_cores() {
    let mut scheduler = EnhancedScheduler::new();
    scheduler.update_core_load(CoreId::A76_2, 1);
    scheduler.update_core_load(CoreId::A76_0, 2);
    scheduler.update_core_load(CoreId::A76_1, 2);
    scheduler.update_core_load(CoreId::A76_3, 2);
    let task = TaskInfo::new(false, true, 10, 64, 50);
    assert_eq!(scheduler.schedule_task_intelligent(&task, 0), CoreId::A76_2);
}

#[test]
fn boot_scenario_places_first_task_on_primary_core() {
    // boot with all eight cores off and loads at zero
    let mut manager = starry_core::cpu::init();
    assert_eq!(manager.get_core_state(CoreId::A76_0), CoreState::Running);
    assert_eq!(manager.get_core_state(CoreId::A55_3), CoreState::Off);
    let mut scheduler = EnhancedScheduler::new();
    let task = TaskInfo::new(true, false, 100, 1024, 80);
    let placed = scheduler.schedule_task_intelligent(&task, 0);
    assert_eq!(placed, CoreId::A76_0);
    manager.set_core_task(placed, 1);
    assert_eq!(manager.get_core_task(CoreId::A76_0), 1);
}

#[test]
fn frequency_governor_raises_frequencies_under_aggregate_load() {
    let mut scheduler = EnhancedScheduler::new();
    // aggregate load 650, above the 600 threshold
    scheduler.update_core_load(CoreId::A76_0, 82);
    scheduler.update_core_load(CoreId::A76_1, 82);
    scheduler.update_core_load(CoreId::A76_2, 82);
    scheduler.update_core_load(CoreId::A76_3, 82);
    scheduler.update_core_load(CoreId::A55_0, 81);
    scheduler.update_core_load(CoreId::A55_1, 81);
    scheduler.update_core_load(CoreId::A55_2, 80);
    scheduler.update_core_load(CoreId::A55_3, 80);
    // one performance core throttled below its ceiling beforehand: two
    // thermal steps at 80 degrees would be needed; instead lower it via the
    // idle governor by running a rebalance with low load first
    let task = TaskInfo::new(false, false, 1, 1, 1);
    // every core starts at its class ceiling: 2400 or 1800
    let placed = scheduler.schedule_task_intelligent(&task, 200_000_001);
    assert_eq!(placed, CoreId::A76_0);
    // cores already at their ceiling stay clamped
    assert_eq!(scheduler.core_frequency(CoreId::A76_0), 2400);
    assert_eq!(scheduler.core_frequency(CoreId::A55_0), 1800);
}

#[test]
fn frequency_governor_steps_throttled_core_back_up() {
    let mut scheduler = EnhancedScheduler::new();
    // heat one performance core so the thermal governor drops it 200 MHz
    scheduler.update_core_temperature(CoreId::A76_1, 95);
    scheduler.update_core_load(CoreId::A76_0, 82);
    scheduler.update_core_load(CoreId::A76_1, 82);
    scheduler.update_core_load(CoreId::A76_2, 82);
    scheduler.update_core_load(CoreId::A76_3, 82);
    scheduler.update_core_load(CoreId::A55_0, 81);
    scheduler.update_core_load(CoreId::A55_1, 81);
    scheduler.update_core_load(CoreId::A55_2, 80);
    scheduler.update_core_load(CoreId::A55_3, 80);
    let task = TaskInfo::new(false, false, 1, 1, 1);
    let _ = scheduler.schedule_task_intelligent(&task, 200_000_001);
    // thermal step first (2400 - 200), then the governor's +100
    assert_eq!(scheduler.core_frequency(CoreId::A76_1), 2300);
    assert!(scheduler.is_migration_flagged(CoreId::A76_1));
}

#[test]
fn thermal_governor_throttles_and_flags_hot_cores() {
    let mut scheduler = EnhancedScheduler::new();
    scheduler.update_core_temperature(CoreId::A55_2, 85);
    let task = TaskInfo::new(false, false, 1, 1, 1);
    let _ = scheduler.schedule_task_intelligent(&task, 100_000_001);
    // the thermal step drops 200 MHz, then the idle governor another 100
    assert_eq!(scheduler.core_frequency(CoreId::A55_2), 1500);
    assert!(scheduler.is_migration_flagged(CoreId::A55_2));
    assert!(!scheduler.is_migration_flagged(CoreId::A55_3));
    scheduler.clear_migration_flag(CoreId::A55_2);
    assert!(!scheduler.is_migration_flagged(CoreId::A55_2));
}

#[test]
fn idle_governor_lowers_frequencies_to_the_floor() {
    let mut scheduler = EnhancedScheduler::new();
    // aggregate load stays zero, below the 200 threshold
    let task = TaskInfo::new(false, false, 1, 1, 1);
    let _ = scheduler.schedule_task_intelligent(&task, 100_000_001);
    assert_eq!(scheduler.core_frequency(CoreId::A76_0), 2300);
    assert_eq!(scheduler.core_frequency(CoreId::A55_0), 1700);
    // no rebalance within the interval: frequencies stay put
    let _ = scheduler.schedule_task_intelligent(&task, 100_000_002);
    assert_eq!(scheduler.core_frequency(CoreId::A76_0), 2300);
}

#[test]
fn overloaded_core_is_flagged_for_migration() {
    let mut scheduler = EnhancedScheduler::new();
    scheduler.update_core_load(CoreId::A76_0, 100);
    scheduler.update_core_load(CoreId::A76_1, 10);
    let task = TaskInfo::new(false, false, 1, 1, 1);
    let _ = scheduler.schedule_task_intelligent(&task, 100_000_001);
    // mean load is 110 / 8 = 13; only the 100-load core exceeds mean + 20
    assert!(scheduler.is_migration_flagged(CoreId::A76_0));
    assert!(!scheduler.is_migration_flagged(CoreId::A76_1));
}

#[test]
fn task_info_fields_round_trip() {
    let task = TaskInfo::new(true, false, 250, 4096, 99);
    assert!(task.is_compute_intensive);
    assert!(!task.is_latency_sensitive);
    assert_eq!(task.estimated_runtime, 250);
    assert_eq!(task.memory_usage, 4096);
    assert_eq!(task.priority, 99);
}
