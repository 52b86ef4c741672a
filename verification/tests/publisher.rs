use clock_tree::{BusDomain, ClockCell, Clocks, Hertz};

fn sample_clocks(sys: u32) -> Clocks {
    Clocks {
        sys: Hertz(sys),
        ahb1: Hertz(sys / 2),
        ahb2: Hertz(sys / 2),
        apb1: Hertz(sys / 4),
        apb1_tim: Hertz(sys / 2),
        apb2: Hertz(sys / 8),
        apb2_tim: Hertz(sys / 4),
    }
}

#[test]
fn empty_cell_answers_nothing() {
    let cell = ClockCell::new();
    assert_eq!(cell.get_freqs(), None);
    assert_eq!(cell.frequency(BusDomain::Sys), None);
    assert_eq!(cell.frequency(BusDomain::Apb2Tim), None);
}

#[test]
fn first_write_publishes() {
    let mut cell = ClockCell::new();
    let clocks = sample_clocks(48_000_000);
    assert!(cell.set_freqs(clocks));
    assert_eq!(cell.get_freqs(), Some(clocks));
    assert_eq!(cell.frequency(BusDomain::Sys), Some(Hertz(48_000_000)));
    assert_eq!(cell.frequency(BusDomain::Ahb1), Some(Hertz(24_000_000)));
    assert_eq!(cell.frequency(BusDomain::Ahb2), Some(Hertz(24_000_000)));
    assert_eq!(cell.frequency(BusDomain::Apb1), Some(Hertz(12_000_000)));
    assert_eq!(cell.frequency(BusDomain::Apb1Tim), Some(Hertz(24_000_000)));
    assert_eq!(cell.frequency(BusDomain::Apb2), Some(Hertz(6_000_000)));
    assert_eq!(cell.frequency(BusDomain::Apb2Tim), Some(Hertz(12_000_000)));
}

#[test]
fn second_write_is_rejected() {
    let mut cell = ClockCell::new();
    let first = sample_clocks(48_000_000);
    assert!(cell.set_freqs(first));
    let second = sample_clocks(16_000_000);
    assert!(!cell.set_freqs(second));
    assert_eq!(cell.get_freqs(), Some(first));
    assert_eq!(cell.frequency(BusDomain::Sys), Some(Hertz(48_000_000)));
}
