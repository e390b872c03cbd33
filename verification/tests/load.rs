use hwmonitor::load::average_load;
use hwmonitor::Percent;

fn percents(thousandths: &[u32]) -> Vec<Percent> {
    thousandths.iter().map(|&t| Percent::from_thousandths(t)).collect()
}

#[test]
fn average_of_no_readings_is_none() {
    assert_eq!(average_load(&Vec::new()), None);
}

#[test]
fn average_of_one_reading_is_that_reading() {
    assert_eq!(average_load(&percents(&[37_500])), Some(Percent::from_thousandths(37_500)));
}

#[test]
fn average_is_the_unweighted_mean() {
    // (10 + 20 + 30 + 100) / 4 = 40 %
    let usage = percents(&[10_000, 20_000, 30_000, 100_000]);
    assert_eq!(average_load(&usage), Some(Percent::from_thousandths(40_000)));
}

#[test]
fn average_does_not_depend_on_the_order() {
    let a = percents(&[5_000, 95_000, 50_000]);
    let b = percents(&[95_000, 50_000, 5_000]);
    assert_eq!(average_load(&a), Some(Percent::from_thousandths(50_000)));
    assert_eq!(average_load(&a), average_load(&b));
}

#[test]
fn average_is_rounded_down_to_a_thousandth() {
    // (0.001 + 0.002) / 2 = 0.0015 %, held as 0.001 %
    assert_eq!(average_load(&percents(&[1, 2])), Some(Percent::from_thousandths(1)));
    // (1 + 1 + 2) / 3 = 1.333.. thousandths
    assert_eq!(average_load(&percents(&[1, 1, 2])), Some(Percent::from_thousandths(1)));
    // (2 + 2 + 1) / 3 = 1.666.. thousandths
    assert_eq!(average_load(&percents(&[2, 2, 1])), Some(Percent::from_thousandths(1)));
}

#[test]
fn average_of_idle_cores_is_zero() {
    assert_eq!(average_load(&percents(&[0, 0, 0, 0])), Some(Percent::from_thousandths(0)));
}

#[test]
fn average_of_busy_cores_stays_at_one_hundred_percent() {
    let usage = percents(&[100_000; 64]);
    assert_eq!(average_load(&usage), Some(Percent::from_thousandths(100_000)));
}

#[test]
fn average_of_the_largest_readings_does_not_overflow() {
    let usage = percents(&[u32::MAX; 1000]);
    assert_eq!(average_load(&usage), Some(Percent::from_thousandths(u32::MAX)));
    let mixed = percents(&[u32::MAX, u32::MAX - 2]);
    assert_eq!(average_load(&mixed), Some(Percent::from_thousandths(u32::MAX - 1)));
}

#[test]
fn average_agrees_with_the_floating_point_mean() {
    let readings: [f32; 5] = [12.5, 0.0, 99.9, 47.25, 3.125];
    let usage: Vec<Percent> = readings
        .iter()
        .map(|&r| Percent::from_thousandths((r as f64 * 1000.0).round() as u32))
        .collect();
    let mean = readings.iter().sum::<f32>() / readings.len() as f32;
    let load = average_load(&usage).unwrap();
    assert!((load.thousandths() as f64 / 1000.0 - mean as f64).abs() < 0.001);
}

#[test]
fn average_lies_between_the_smallest_and_largest_reading() {
    let usage = percents(&[17_000, 3_250, 88_123, 42_000, 3_251]);
    let load = average_load(&usage).unwrap().thousandths();
    assert!(3_250 <= load && load <= 88_123);
    assert_eq!(load, (17_000 + 3_250 + 88_123 + 42_000 + 3_251) / 5);
}

#[test]
fn percent_keeps_its_thousandths() {
    assert_eq!(Percent::from_thousandths(12_500).thousandths(), 12_500);
    assert_eq!(Percent::from_thousandths(0).thousandths(), 0);
    assert_eq!(Percent::from_thousandths(u32::MAX).thousandths(), u32::MAX);
    assert_eq!(Percent::from_thousandths(12_500), Percent::from_thousandths(12_500));
    assert_ne!(Percent::from_thousandths(12_500), Percent::from_thousandths(12_501));
}
