use gtfs_parser::display::countdown::{decimal_string, display_text_of, format_countdown, Countdown, Frame};
use gtfs_parser::display::link::{
    banner_color, keep_reading, next_connect_step, response_deadline, BannerColor, ConnectStep,
    LinkStatus,
};

#[test]
fn countdown_texts() {
    assert_eq!(format_countdown(15), "0 minutes");
    assert_eq!(format_countdown(120), "2 minutes");
    assert_eq!(format_countdown(185), "3 minutes");
    assert_eq!(format_countdown(60), "1 minute");
    assert_eq!(format_countdown(89), "1 minute");
    assert_eq!(format_countdown(90), "1.5 minutes");
    assert_eq!(format_countdown(45), "0.5 minutes");
    assert_eq!(format_countdown(0), "0 minutes");
    assert_eq!(format_countdown(-1), "0 minutes");
    assert_eq!(format_countdown(-61), "-1 minutes");
    assert_eq!(format_countdown(i32::MIN), "-35791394 minutes");
    assert_eq!(format_countdown(i32::MAX), "35791394 minutes");
    assert_eq!(format_countdown(35), "0.5 minutes");
    assert_eq!(format_countdown(-35), "0 minutes");
}

#[test]
fn decimal_strings_match_to_string() {
    for n in [0, 7, 10, 99, 100, -1, -10, 123456, i32::MAX, i32::MIN] {
        assert_eq!(decimal_string(n), n.to_string());
    }
}

#[test]
fn placeholder_when_nothing_is_left() {
    assert_eq!(display_text_of(&vec![]), "--");
    assert_eq!(display_text_of(&vec![-5]), "0 minutes");
}

#[test]
fn board_counts_down_and_redraws_only_on_change() {
    let mut board = Countdown::new(vec![15, 120, 185]);
    match board.tick() {
        Frame::Redraw(t) => assert_eq!(t, "0 minutes"),
        Frame::Unchanged => panic!("first tick must draw"),
    }
    assert_eq!(board.seconds_deltas, vec![14, 119, 184]);
    assert!(matches!(board.tick(), Frame::Unchanged));
    assert_eq!(board.seconds_deltas, vec![13, 118, 183]);
    assert_eq!(board.last_output, "0 minutes");
}

#[test]
fn departed_train_is_dropped_once_negative() {
    let mut board = Countdown::new(vec![0, 60]);
    board.tick();
    assert_eq!(board.seconds_deltas, vec![-1, 59]);
    match board.tick() {
        Frame::Redraw(t) => assert_eq!(t, "0.5 minutes"),
        Frame::Unchanged => panic!("text changed"),
    }
    assert_eq!(board.seconds_deltas, vec![58]);
}

#[test]
fn only_one_departure_leaves_per_second() {
    let mut board = Countdown::new(vec![-1, -1, 30]);
    board.tick();
    assert_eq!(board.seconds_deltas, vec![-2, 29]);
    assert_eq!(board.last_output, "0 minutes");
}

#[test]
fn empty_board_shows_placeholder_once() {
    let mut board = Countdown::new(vec![]);
    assert!(matches!(board.tick(), Frame::Redraw(ref t) if t == "--"));
    assert!(matches!(board.tick(), Frame::Unchanged));
    assert!(board.seconds_deltas.is_empty());
}

#[test]
fn order_is_kept_by_ticks() {
    let mut board = Countdown::new(vec![-3, 2, 2, 9]);
    for _ in 0..5 {
        board.tick();
        assert!(board.seconds_deltas.windows(2).all(|w| w[0] <= w[1]));
    }
}

#[test]
fn connect_polling() {
    assert_eq!(next_connect_step(0, LinkStatus::Connected), ConnectStep::Proceed);
    assert_eq!(next_connect_step(0, LinkStatus::NotConnected), ConnectStep::WaitAndRetry(1));
    assert_eq!(next_connect_step(48, LinkStatus::NotConnected), ConnectStep::WaitAndRetry(49));
    assert_eq!(next_connect_step(49, LinkStatus::NotConnected), ConnectStep::GiveUp);
    assert_eq!(next_connect_step(3, LinkStatus::Failed), ConnectStep::Fail);
}

#[test]
fn response_is_read_for_twenty_seconds() {
    let d = response_deadline(1_000);
    assert_eq!(d, 21_000);
    assert!(keep_reading(21_000, d));
    assert!(!keep_reading(21_001, d));
}

#[test]
fn banner_colours() {
    assert_eq!(banner_color(true), BannerColor::Blue);
    assert_eq!(banner_color(false), BannerColor::Red);
}
