use trader_daemon::schedule::seconds_to_timestep_next;

#[test]
fn skips_imminent_boundary_in_final_five_seconds() {
    // 12:04:55 with a five-minute interval: skip 12:05:00, land on 12:10:00.
    assert_eq!(seconds_to_timestep_next(4, 55, 5), 305);
}

#[test]
fn advances_full_interval_when_exactly_on_boundary() {
    // 12:05:00 with a five-minute interval: never zero, wait until 12:10:00.
    assert_eq!(seconds_to_timestep_next(5, 0, 5), 300);
}

#[test]
fn lands_on_next_boundary_mid_interval() {
    // 12:02:30 with a five-minute interval: land on 12:05:00.
    assert_eq!(seconds_to_timestep_next(2, 30, 5), 150);
}

#[test]
fn skip_window_starts_at_55_seconds() {
    // 12:04:54 is just outside the window: the imminent boundary is kept.
    assert_eq!(seconds_to_timestep_next(4, 54, 5), 6);
    assert_eq!(seconds_to_timestep_next(4, 55, 5), 305);
    assert_eq!(seconds_to_timestep_next(4, 59, 5), 301);
}

#[test]
fn one_minute_interval() {
    assert_eq!(seconds_to_timestep_next(0, 0, 1), 60);
    assert_eq!(seconds_to_timestep_next(7, 30, 1), 30);
    assert_eq!(seconds_to_timestep_next(7, 55, 1), 65);
}

#[test]
fn sixty_minute_interval() {
    assert_eq!(seconds_to_timestep_next(0, 0, 60), 3600);
    assert_eq!(seconds_to_timestep_next(30, 0, 60), 1800);
    assert_eq!(seconds_to_timestep_next(59, 59, 60), 3601);
}

#[test]
fn every_time_of_day_lands_on_an_aligned_boundary() {
    // For each interval dividing the hour and every minute and second, the
    // delay is positive, bounded, and lands on a zero-second instant whose
    // minute-of-hour is a multiple of the interval.
    for &t in &[1u32, 5, 15, 30, 60] {
        for m in 0u32..60 {
            for s in 0u32..60 {
                let r = seconds_to_timestep_next(m, s, t);
                assert!(r >= 1);
                assert!(r <= (t as u64) * 60 + 5);
                let in_skip_window = m % t == t - 1 && s >= 55;
                if !in_skip_window {
                    assert!(r <= (t as u64) * 60);
                }
                let land = (m as u64) * 60 + (s as u64) + r;
                assert_eq!(land % 60, 0);
                assert_eq!(((land / 60) % 60) % (t as u64), 0);
            }
        }
    }
}

#[test]
fn scheduler_is_idempotent() {
    for &(m, s, t) in &[(4u32, 55u32, 5u32), (0, 0, 1), (12, 34, 15), (59, 59, 60)] {
        assert_eq!(
            seconds_to_timestep_next(m, s, t),
            seconds_to_timestep_next(m, s, t)
        );
    }
}
