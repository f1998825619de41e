use rtop::snapshot::CoreFigures;
use rtop::system::{get_ram_info, read_cores, sample};
use rtop::utils::SystemState;

fn figures(brand: &str, model_name: &str, usage_percent: u8, frequency_mhz: u64) -> CoreFigures {
    CoreFigures {
        brand: String::from(brand),
        model_name: String::from(model_name),
        usage_percent,
        frequency_mhz,
    }
}

#[test]
fn ram_info_keeps_used_within_total() {
    let (total, used) = get_ram_info();
    assert!(used <= total);
}

#[test]
fn each_core_gets_its_reading_in_order() {
    let cores = vec![
        figures("Acme", "cpu0", 12, 2400),
        figures("Acme", "cpu1", 100, 1800),
        figures("Apex", "cpu2", 0, 3000),
    ];
    let readings = read_cores(&cores);
    assert_eq!(readings.len(), 3);
    assert_eq!(readings[0].core_index(), 0);
    assert_eq!(readings[0].brand(), "Acme");
    assert_eq!(readings[0].model_name(), "cpu0");
    assert_eq!(readings[0].usage_percent(), 12);
    assert_eq!(readings[0].frequency_mhz(), 2400);
    assert_eq!(readings[1].core_index(), 1);
    assert_eq!(readings[1].model_name(), "cpu1");
    assert_eq!(readings[1].usage_percent(), 100);
    assert_eq!(readings[1].frequency_mhz(), 1800);
    assert_eq!(readings[2].core_index(), 2);
    assert_eq!(readings[2].brand(), "Apex");
    assert_eq!(readings[2].usage_percent(), 0);
    assert_eq!(readings[2].frequency_mhz(), 3000);
}

#[test]
fn core_usage_above_a_hundred_counts_as_a_hundred() {
    let readings = read_cores(&[figures("Acme", "cpu0", 101, 1), figures("Acme", "cpu1", 255, 2)]);
    assert_eq!(readings.len(), 2);
    assert_eq!(readings[0].usage_percent(), 100);
    assert_eq!(readings[1].usage_percent(), 100);
    assert_eq!(readings[1].core_index(), 1);
}

#[test]
fn no_cores_give_no_readings() {
    assert!(read_cores(&[]).is_empty());
}

#[test]
fn source_gives_consistent_snapshots() {
    let mut source = SystemState::new();
    let cores = vec![figures("Acme", "cpu0", 7, 2400), figures("Acme", "cpu1", 180, 2500)];
    let mut pass = 0;
    while pass < 3 {
        if let Some(snapshot) = source.refresh(&cores) {
            let memory = snapshot.memory();
            assert!(memory.total_memory() > 0);
            assert!(memory.used_memory() <= memory.total_memory());
            assert_eq!(snapshot.cpu_count(), 2);
            assert_eq!(snapshot.cpu(0).unwrap().core_index(), 0);
            assert_eq!(snapshot.cpu(0).unwrap().usage_percent(), 7);
            assert_eq!(snapshot.cpu(1).unwrap().core_index(), 1);
            assert_eq!(snapshot.cpu(1).unwrap().model_name(), "cpu1");
            assert_eq!(snapshot.cpu(1).unwrap().usage_percent(), 100);
            assert_eq!(snapshot.cpu(1).unwrap().frequency_mhz(), 2500);
        }
        pass += 1;
    }
}

#[test]
fn sample_reads_a_handle_of_the_callers() {
    let mut source = SystemState::new();
    if let Some(snapshot) = sample(&mut source.sys, &[figures("Acme", "cpu0", 55, 900)]) {
        assert!(snapshot.memory().total_memory() > 0);
        assert!(snapshot.memory().used_memory() <= snapshot.memory().total_memory());
        assert_eq!(snapshot.cpu_count(), 1);
        assert_eq!(snapshot.cpu(0).unwrap().brand(), "Acme");
        assert_eq!(snapshot.cpu(0).unwrap().usage_percent(), 55);
    }
}

#[test]
fn default_source_can_be_refreshed() {
    let mut source = SystemState::default();
    if let Some(snapshot) = source.refresh(&[]) {
        assert!(snapshot.memory().total_memory() > 0);
        assert_eq!(snapshot.cpu_count(), 0);
    }
}
