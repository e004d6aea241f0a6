use control_system::system::SystemState;

#[test]
fn test_uptime_formatted() {
    let state = SystemState {
        uptime_secs: 90061, // 1 day, 1 hour, 1 minute, 1 second
        ..Default::default()
    };
    assert_eq!(state.uptime_formatted(), "1d 1h 1m");

    let state2 = SystemState {
        uptime_secs: 3661, // 1 hour, 1 minute, 1 second
        ..Default::default()
    };
    assert_eq!(state2.uptime_formatted(), "1h 1m");

    let state3 = SystemState {
        uptime_secs: 125, // 2 minutes, 5 seconds
        ..Default::default()
    };
    assert_eq!(state3.uptime_formatted(), "2m");
}

#[test]
fn uptime_at_the_edges() {
    let at = |uptime_secs: u64| SystemState { uptime_secs, ..Default::default() }.uptime_formatted();
    assert_eq!(at(0), "0m");
    assert_eq!(at(59), "0m");
    assert_eq!(at(3600), "1h 0m");
    assert_eq!(at(86_400), "1d 0h 0m");
    assert_eq!(at(86_400 + 59 * 60), "1d 0h 59m");
    assert_eq!(at(u64::MAX), "213503982334601d 7h 0m");
}

#[test]
fn readings_without_names_read_unknown() {
    let state = SystemState::from_readings(10, 20, 30, None, Some("Linux".to_string()), 4);
    assert_eq!(state.hostname, "unknown");
    assert_eq!(state.os_name, "Linux");
    assert_eq!(state.memory_used, 10);
    assert_eq!(state.memory_total, 20);
    assert_eq!(state.uptime_secs, 30);
    assert_eq!(state.cpu_count, 4);
    let copy = state.clone();
    assert_eq!(copy.hostname, "unknown");
    assert_eq!(copy.cpu_count, 4);
}
