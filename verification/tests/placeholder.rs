use mukduk::placeholder::PROBE_BASE_PORT;
use mukduk::placeholder::countdown_millis;
use mukduk::placeholder::next_probe_port;

#[test]
fn countdown_is_in_milliseconds() {
    assert_eq!(countdown_millis(10), 10_000);
    assert_eq!(countdown_millis(0), 0);
    assert_eq!(countdown_millis(1), 1_000);
    assert_eq!(countdown_millis(255), 255_000);
}

#[test]
fn probing_moves_up_one_port() {
    assert_eq!(PROBE_BASE_PORT, 3000);
    assert_eq!(next_probe_port(3000), Some(3001));
    assert_eq!(next_probe_port(3001), Some(3002));
}

#[test]
fn probing_stops_at_the_end_of_the_port_space() {
    assert_eq!(next_probe_port(u16::MAX - 1), Some(u16::MAX));
    assert_eq!(next_probe_port(u16::MAX), None);
}
