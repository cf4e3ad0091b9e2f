use norn::driver::context::DriverContext;
use norn::timer::clock::{Clock, Duration, Instant, TimeSource, NANOS_PER_MILLI};
use norn::timer::error::{Error, ErrorKind};

#[test]
fn system_clock_shows_the_time_of_the_system() {
    let clock = Clock::system(Instant { nanos: 5_000_000 });
    assert_eq!(clock.time, TimeSource::System);
    assert_eq!(clock.now(Instant { nanos: 9_000_000 }), Instant { nanos: 9_000_000 });
    assert_eq!(clock.tick(Instant { nanos: 9_999_999 }), 4);
    // An instant before the start has tick zero.
    assert_eq!(clock.instant_to_tick(Instant { nanos: 1 }), 0);
    assert_eq!(clock.instant_to_tick(Instant { nanos: 5_000_000 }), 0);
    assert_eq!(clock.instant_to_tick(Instant { nanos: 6_000_000 }), 1);
}

#[test]
fn simulated_clock_moves_when_it_is_advanced() {
    let start = Instant { nanos: 1_000 };
    let mut clock = Clock::simulated(start);
    assert_eq!(clock.now(Instant { nanos: 77 }), start);
    assert_eq!(clock.tick(Instant { nanos: 77 }), 0);
    clock.advance(Duration::from_millis(1500));
    assert_eq!(clock.now(Instant { nanos: 77 }), Instant { nanos: 1_500_001_000 });
    assert_eq!(clock.tick(Instant { nanos: 77 }), 1500);
    clock.advance(Duration { nanos: 999_999 });
    assert_eq!(clock.tick(Instant { nanos: 77 }), 1500);
    clock.advance(Duration { nanos: 1 });
    assert_eq!(clock.tick(Instant { nanos: 77 }), 1501);
}

#[test]
fn ticks_are_milliseconds() {
    let clock = Clock::system(Instant { nanos: 0 });
    assert_eq!(NANOS_PER_MILLI, 1_000_000);
    assert_eq!(clock.tick_to_duration(3), Duration { nanos: 3_000_000 });
    assert_eq!(Duration::from_millis(u64::MAX).as_millis(), u64::MAX as u128);
    assert_eq!(Duration { nanos: 1_999_999 }.as_millis(), 1);
    assert_eq!(clock.tick_to_duration(0).as_millis(), 0);
}

#[test]
fn timer_error() {
    let e = Error::shutdown();
    assert_eq!(e.kind, ErrorKind::Shutdown);
    assert_eq!(e.message(), "the timer has shut down");
}

#[test]
fn driver_context_is_entered_and_left() {
    let mut context: DriverContext<&'static str> = DriverContext::new();
    assert!(!context.is_entered());
    assert_eq!(context.handle(), None);
    let guard = context.enter("driver");
    assert!(context.is_entered());
    assert_eq!(context.handle(), Some(&"driver"));
    assert_eq!(context.leave(guard), "driver");
    assert_eq!(context.handle(), None);
}

#[test]
fn advances_add_up() {
    let mut one = Clock::simulated(Instant { nanos: 10 });
    let mut two = Clock::simulated(Instant { nanos: 10 });
    one.advance(Duration { nanos: 7 });
    one.advance(Duration { nanos: 5 });
    two.advance(Duration { nanos: 12 });
    assert_eq!(one, two);
    two.advance(Duration { nanos: 0 });
    assert_eq!(one, two);
    assert_eq!(one.now(Instant { nanos: 0 }), Instant { nanos: 22 });
}
