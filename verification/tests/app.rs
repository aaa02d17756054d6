use issloc::app::App;
use issloc::app::DEFAULT_DELAY;
use issloc::app::DELAY_STEP;
use issloc::app::MAX_DELAY;
use issloc::app::NANOS_PER_MILLI;
use issloc::timer::Timer;
use issloc::tui::Action;

#[derive(Clone, Debug, Default, PartialEq)]
struct Position {
    name: String,
    id: u32,
    latitude: f64,
    longitude: f64,
    timestamp: u64,
}

fn station() -> Position {
    Position {
        name: String::from("iss"),
        id: 25544,
        latitude: 50.11496269845,
        longitude: 118.07900427317,
        timestamp: 1364069476,
    }
}

fn schedule(timer: &Timer) -> (u128, u128, bool) {
    (timer.time_of_last_execution(), timer.interval(), timer.is_first_execution())
}

#[test]
fn constants_are_those_of_the_dashboard() {
    assert_eq!(DEFAULT_DELAY, 500);
    assert_eq!(MAX_DELAY, 10_000);
    assert_eq!(DELAY_STEP, 100);
    assert_eq!(NANOS_PER_MILLI, 1_000_000);
}

#[test]
fn new_app_starts_with_defaults() {
    let app = App::new(Position::default());
    assert!(!app.exit());
    assert_eq!(app.delay(), 500);
    assert_eq!(*app.current_data(), Position::default());
    assert_eq!(app.current_data().latitude, 0.0);
    assert_eq!(app.current_data().name, "");
    assert_eq!(schedule(app.timer()), (0, 500_000_000, true));
}

#[test]
fn first_tick_of_a_new_app_is_due() {
    let mut app = App::new(0u8);
    assert!(app.apply_tick());
    assert!(!app.timer().is_first_execution());
    assert_eq!(app.delay(), 500);
    assert_eq!(*app.current_data(), 0);
    assert!(!app.exit());
}

#[test]
fn increase_adds_one_step() {
    let mut app = App::new(0u8);
    assert!(!app.apply(Action::IncreaseDelayTime));
    assert_eq!(app.delay(), 600);
    assert_eq!(app.timer().interval(), 600_000_000);
}

#[test]
fn decrease_takes_off_one_step() {
    let mut app = App::new(0u8);
    assert!(!app.apply(Action::DecreaseDelayTime));
    assert_eq!(app.delay(), 400);
    assert_eq!(app.timer().interval(), 400_000_000);
}

#[test]
fn sixty_decreases_from_the_default_end_at_zero() {
    let mut app = App::new(0u8);
    for step in 1..=60u64 {
        app.apply(Action::DecreaseDelayTime);
        assert_eq!(app.delay(), 500u64.saturating_sub(100 * step));
    }
    assert_eq!(app.delay(), 0);
    assert_eq!(app.timer().interval(), 0);
}

#[test]
fn decreases_at_zero_stay_at_zero() {
    let mut app = App::new(0u8);
    for _ in 0..5 {
        app.apply(Action::DecreaseDelayTime);
    }
    assert_eq!(app.delay(), 0);
    for _ in 0..1_000 {
        app.apply(Action::DecreaseDelayTime);
        assert_eq!(app.delay(), 0);
    }
}

#[test]
fn increases_stop_at_the_maximum() {
    let mut app = App::new(0u8);
    for step in 1..=95u64 {
        app.apply(Action::IncreaseDelayTime);
        assert_eq!(app.delay(), 500 + 100 * step);
    }
    assert_eq!(app.delay(), 10_000);
    for _ in 0..1_000 {
        app.apply(Action::IncreaseDelayTime);
        assert_eq!(app.delay(), 10_000);
        assert_eq!(app.timer().interval(), 10_000_000_000);
    }
}

#[test]
fn zero_delay_polls_on_every_tick() {
    let mut app = App::new(0u8);
    for _ in 0..5 {
        app.apply(Action::DecreaseDelayTime);
    }
    assert!(app.apply_tick());
    assert!(app.apply_tick());
    assert!(app.apply_tick());
}

#[test]
fn change_of_delay_arms_a_new_timer() {
    let mut app = App::new(0u8);
    assert!(app.apply_tick());
    assert!(!app.timer().is_first_execution());
    app.apply(Action::IncreaseDelayTime);
    assert!(app.timer().is_first_execution());
    assert!(app.apply_tick());

    app.apply(Action::DecreaseDelayTime);
    assert!(app.timer().is_first_execution());
    assert!(app.apply_tick());
}

#[test]
fn change_of_delay_at_a_bound_still_arms_a_new_timer() {
    let mut app = App::new(0u8);
    for _ in 0..5 {
        app.apply(Action::DecreaseDelayTime);
    }
    assert!(app.apply_tick());
    app.apply(Action::DecreaseDelayTime);
    assert_eq!(app.delay(), 0);
    assert!(app.timer().is_first_execution());
}

#[test]
fn five_increases_give_one_second_and_an_immediate_poll() {
    let mut app = App::new(0u8);
    assert!(app.apply_tick());
    for _ in 0..5 {
        app.apply(Action::IncreaseDelayTime);
    }
    assert_eq!(app.delay(), 1_000);
    assert_eq!(app.timer().interval(), 1_000_000_000);
    assert!(app.timer().is_first_execution());
    // Whatever the clock reads by then, the next tick fires.
    for now in [0, 1, 999_999_999, u128::MAX] {
        let mut timer = *app.timer();
        assert!(timer.tick_at(now));
    }
    assert!(app.apply_tick());
}

#[test]
fn only_a_poll_request_asks_for_a_poll() {
    let mut app = App::new(0u8);
    assert!(app.apply(Action::PingRESTAPI));
    assert!(!app.apply(Action::IncreaseDelayTime));
    assert!(!app.apply(Action::DecreaseDelayTime));
    assert!(!app.apply(Action::Error));
    assert!(!app.apply(Action::Exit));
}

#[test]
fn poll_request_leaves_the_state_and_the_timer_alone() {
    let mut app = App::new(station());
    assert!(app.apply_tick());
    let before = schedule(app.timer());
    assert!(app.apply(Action::PingRESTAPI));
    assert_eq!(schedule(app.timer()), before);
    assert_eq!(app.delay(), 500);
    assert!(!app.exit());
    assert_eq!(*app.current_data(), station());
}

#[test]
fn unbound_key_changes_nothing() {
    let mut app = App::new(station());
    assert!(app.apply_tick());
    let before = schedule(app.timer());
    assert!(!app.apply(Action::Error));
    assert_eq!(schedule(app.timer()), before);
    assert_eq!(app.delay(), 500);
    assert!(!app.exit());
    assert_eq!(*app.current_data(), station());
}

#[test]
fn exit_sets_the_flag_and_nothing_else() {
    let mut app = App::new(station());
    assert!(app.apply_tick());
    let before = schedule(app.timer());
    assert!(!app.apply(Action::Exit));
    assert!(app.exit());
    assert_eq!(schedule(app.timer()), before);
    assert_eq!(app.delay(), 500);
    assert_eq!(*app.current_data(), station());
}

#[test]
fn fetched_snapshot_replaces_the_previous_one_as_a_whole() {
    let mut app = App::new(Position::default());
    app.update(Some(station()));
    assert_eq!(*app.current_data(), station());
    let later = Position {
        name: String::from("iss"),
        id: 25544,
        latitude: -12.5,
        longitude: 0.25,
        timestamp: 1364069477,
    };
    app.update(Some(later.clone()));
    assert_eq!(*app.current_data(), later);
    assert_eq!(app.delay(), 500);
    assert!(!app.exit());
}

#[test]
fn failed_fetch_keeps_the_previous_snapshot() {
    let mut app = App::new(Position::default());
    app.update(None);
    assert_eq!(*app.current_data(), Position::default());
    app.update(Some(station()));
    app.update(None);
    assert_eq!(*app.current_data(), station());
    assert_eq!(app.delay(), 500);
    assert!(!app.exit());
}

#[test]
fn update_does_not_touch_the_timer() {
    let mut app = App::new(0u8);
    assert!(app.apply_tick());
    let before = schedule(app.timer());
    app.update(Some(1));
    app.update(None);
    assert_eq!(schedule(app.timer()), before);
}

#[test]
fn tick_at_a_reading_follows_the_schedule() {
    let mut app = App::new(0u8);
    assert!(app.apply_tick_at(1_000));
    assert_eq!(schedule(app.timer()), (1_000, 500_000_000, false));
    assert!(!app.apply_tick_at(1_000 + 499_999_999));
    assert_eq!(schedule(app.timer()), (1_000, 500_000_000, false));
    // 250 ms late: the next interval starts where this one ran out.
    assert!(app.apply_tick_at(1_000 + 750_000_000));
    assert_eq!(schedule(app.timer()), (1_000 + 500_000_000, 500_000_000, false));
    assert!(!app.apply_tick_at(1_000 + 999_999_999));
    assert!(app.apply_tick_at(1_000 + 1_000_000_000));
    assert_eq!(app.delay(), 500);
    assert!(!app.exit());
}

#[test]
fn change_of_delay_at_a_reading_resets_the_new_timer_there() {
    let mut app = App::new(0u8);
    assert!(app.apply_tick_at(10));
    assert!(!app.apply_at(Action::IncreaseDelayTime, 77));
    assert_eq!(app.delay(), 600);
    assert_eq!(schedule(app.timer()), (77, 600_000_000, true));
    assert!(!app.apply_at(Action::DecreaseDelayTime, 99));
    assert_eq!(app.delay(), 500);
    assert_eq!(schedule(app.timer()), (99, 500_000_000, true));
    // The next tick fires although no time has passed, and only once.
    assert!(app.apply_tick_at(99));
    assert!(!app.apply_tick_at(99));
    assert!(app.apply_tick_at(99 + 500_000_000));
}

#[test]
fn other_actions_at_a_reading_do_not_look_at_it() {
    let mut app = App::new(station());
    assert!(app.apply_tick_at(10));
    let before = schedule(app.timer());
    assert!(app.apply_at(Action::PingRESTAPI, 5_000_000_000));
    assert!(!app.apply_at(Action::Error, 6_000_000_000));
    assert_eq!(schedule(app.timer()), before);
    assert!(!app.exit());
    assert!(!app.apply_at(Action::Exit, 7_000_000_000));
    assert!(app.exit());
    assert_eq!(schedule(app.timer()), before);
    assert_eq!(app.delay(), 500);
    assert_eq!(*app.current_data(), station());
}

#[test]
fn poll_request_while_the_timer_is_not_due_keeps_the_next_timed_poll() {
    let mut app = App::new(0u8);
    assert!(app.apply_tick_at(0));
    assert!(!app.apply_tick_at(100_000_000));
    assert!(app.apply_at(Action::PingRESTAPI, 100_000_000));
    app.update(Some(1));
    assert!(!app.apply_tick_at(499_999_999));
    assert!(app.apply_tick_at(500_000_000));
}
