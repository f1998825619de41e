use rtop::memory::RamUsage;

#[test]
fn reading_keeps_total_and_used() {
    let reading = RamUsage::new(10_000_000_000, 5_000_000_000).unwrap();
    assert_eq!(reading.total_memory(), 10_000_000_000);
    assert_eq!(reading.used_memory(), 5_000_000_000);
    assert_eq!(reading.free_memory(), 5_000_000_000);
    assert!(reading.is_available());
}

#[test]
fn reading_with_more_used_than_total_is_refused() {
    assert!(RamUsage::new(10, 11).is_none());
    assert!(RamUsage::new(0, 1).is_none());
    assert!(RamUsage::new(10, 10).is_some());
    assert!(RamUsage::new(0, 0).is_some());
}

#[test]
fn half_used_is_fifty_percent() {
    let reading = RamUsage::new(10_000_000_000, 5_000_000_000).unwrap();
    assert_eq!(reading.usage_percent(), Some(50));
}

#[test]
fn nothing_used_is_zero_percent() {
    let reading = RamUsage::new(10_000_000_000, 0).unwrap();
    assert_eq!(reading.usage_percent(), Some(0));
}

#[test]
fn all_used_is_a_hundred_percent() {
    let reading = RamUsage::new(u64::MAX, u64::MAX).unwrap();
    assert_eq!(reading.usage_percent(), Some(100));
}

#[test]
fn no_total_has_no_percentage() {
    let reading = RamUsage::new(0, 0).unwrap();
    assert!(!reading.is_available());
    assert_eq!(reading.usage_percent(), None);
    assert_eq!(RamUsage::default().usage_percent(), None);
}

#[test]
fn percentage_rounds_to_nearest_and_halves_up() {
    assert_eq!(RamUsage::new(1000, 4).unwrap().usage_percent(), Some(0));
    assert_eq!(RamUsage::new(1000, 5).unwrap().usage_percent(), Some(1));
    assert_eq!(RamUsage::new(1000, 14).unwrap().usage_percent(), Some(1));
    assert_eq!(RamUsage::new(1000, 15).unwrap().usage_percent(), Some(2));
    assert_eq!(RamUsage::new(3, 1).unwrap().usage_percent(), Some(33));
    assert_eq!(RamUsage::new(3, 2).unwrap().usage_percent(), Some(67));
    assert_eq!(RamUsage::new(1000, 994).unwrap().usage_percent(), Some(99));
    assert_eq!(RamUsage::new(1000, 995).unwrap().usage_percent(), Some(100));
}

#[test]
fn percentage_stays_within_a_hundred_on_sampled_readings() {
    let mut total: u64 = 1;
    while total < u64::MAX / 3 {
        let mut used: u64 = 0;
        while used <= total {
            let reading = RamUsage::new(total, used).unwrap();
            assert!(reading.used_memory() <= reading.total_memory());
            assert!(reading.usage_percent().unwrap() <= 100);
            let exact = (used as f64 / total as f64 * 100.0).round() as u64;
            let got = reading.usage_percent().unwrap();
            assert!(got == exact || got + 1 == exact || got == exact + 1);
            used = used + total / 7 + 1;
        }
        total = total * 3 + 1;
    }
}

#[test]
fn default_reading_is_empty() {
    let reading = RamUsage::default();
    assert_eq!(reading.total_memory(), 0);
    assert_eq!(reading.used_memory(), 0);
    assert_eq!(reading.free_memory(), 0);
}

#[test]
fn used_is_total_less_available() {
    let reading = RamUsage::from_available(16_000, 6_000);
    assert_eq!(reading.total_memory(), 16_000);
    assert_eq!(reading.used_memory(), 10_000);
    assert_eq!(reading.free_memory(), 6_000);
}

#[test]
fn more_available_than_total_means_nothing_used() {
    let reading = RamUsage::from_available(16_000, 16_001);
    assert_eq!(reading.total_memory(), 16_000);
    assert_eq!(reading.used_memory(), 0);
}

#[test]
fn measured_reading_needs_a_total() {
    assert!(RamUsage::measured(0, 0).is_none());
    assert!(RamUsage::measured(0, 5).is_none());
    let reading = RamUsage::measured(8, 3).unwrap();
    assert_eq!(reading.total_memory(), 8);
    assert_eq!(reading.used_memory(), 5);
}
