use obot::host::{HostCommandWatchdog, HostCommandWatchdogStatus};

#[test]
fn disabled_or_non_output_commands_do_not_timeout() {
    let mut watchdog = HostCommandWatchdog::new(2);

    assert_eq!(
        watchdog.observe_command(false),
        HostCommandWatchdogStatus::default()
    );
    assert_eq!(watchdog.tick(), HostCommandWatchdogStatus::default());
    assert_eq!(watchdog.tick(), HostCommandWatchdogStatus::default());
}

#[test]
fn output_command_times_out_after_configured_ticks() {
    let mut watchdog = HostCommandWatchdog::new(2);

    assert_eq!(
        watchdog.observe_command(true),
        HostCommandWatchdogStatus {
            output_allowed: true,
            timed_out: false,
            just_timed_out: false,
        }
    );
    assert_eq!(
        watchdog.tick(),
        HostCommandWatchdogStatus {
            output_allowed: true,
            timed_out: false,
            just_timed_out: false,
        }
    );
    assert_eq!(
        watchdog.tick(),
        HostCommandWatchdogStatus {
            output_allowed: false,
            timed_out: true,
            just_timed_out: true,
        }
    );
    assert_eq!(
        watchdog.tick(),
        HostCommandWatchdogStatus {
            output_allowed: false,
            timed_out: true,
            just_timed_out: false,
        }
    );
}

#[test]
fn new_output_command_clears_timeout() {
    let mut watchdog = HostCommandWatchdog::new(1);
    watchdog.observe_command(true);
    assert!(watchdog.tick().timed_out);

    assert_eq!(
        watchdog.observe_command(true),
        HostCommandWatchdogStatus {
            output_allowed: true,
            timed_out: false,
            just_timed_out: false,
        }
    );
}

#[test]
fn zero_timeout_never_allows_output_and_times_out_on_first_tick() {
    let mut watchdog = HostCommandWatchdog::new(0);
    assert_eq!(watchdog.observe_command(true), HostCommandWatchdogStatus::default());
    assert_eq!(
        watchdog.tick(),
        HostCommandWatchdogStatus {
            output_allowed: false,
            timed_out: true,
            just_timed_out: true,
        }
    );
    assert_eq!(watchdog.observe_command(false), HostCommandWatchdogStatus::default());
}
