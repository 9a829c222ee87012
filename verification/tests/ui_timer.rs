use keyrelay::keybinds::Key;
use keyrelay::timer::has_elapsed;
use keyrelay::timer::remaining_after;
use keyrelay::timer::Timer;
use keyrelay::timer::LONGEST_NANOS;
use keyrelay::timer::NANOS_PER_MILLI;
use keyrelay::ui::UI;

fn typed(keys: &[Key]) -> UI {
    let mut ui = UI::new("host:1".to_string());
    for key in keys {
        ui.update(*key);
    }
    ui
}

#[test]
fn new_screen_is_empty() {
    let ui = UI::new("127.0.0.1:6666".to_string());
    assert_eq!(ui.keypressed(), "");
    assert_eq!(ui.top_bar(), "Connected to 127.0.0.1:6666");
    assert_eq!(ui.lines(), vec![String::new()]);
}

#[test]
fn characters_are_appended() {
    assert_eq!(typed(&[Key::Char('a'), Key::Char('\u{20b9}'), Key::Char('b')]).keypressed(), "a\u{20b9}b");
}

#[test]
fn enter_appends_a_line_feed() {
    assert_eq!(typed(&[Key::Char('a'), Key::Enter, Key::Char('b')]).keypressed(), "a\nb");
}

#[test]
fn backspace_removes_the_last_character() {
    assert_eq!(typed(&[Key::Char('a'), Key::Char('b'), Key::Backspace]).keypressed(), "a");
    assert_eq!(typed(&[Key::Backspace]).keypressed(), "");
    assert_eq!(typed(&[Key::Char('a'), Key::Enter, Key::Backspace]).keypressed(), "a");
}

#[test]
fn escape_clears_the_echo() {
    assert_eq!(typed(&[Key::Char('a'), Key::Enter, Key::Esc]).keypressed(), "");
    assert_eq!(typed(&[Key::Char('a'), Key::Esc, Key::Char('b')]).keypressed(), "b");
}

#[test]
fn other_keys_leave_the_echo() {
    let keys = [Key::Char('a'), Key::Tab, Key::Left, Key::Right, Key::Up, Key::Down, Key::Other];
    assert_eq!(typed(&keys).keypressed(), "a");
}

#[test]
fn address_is_kept() {
    assert_eq!(typed(&[Key::Char('a'), Key::Esc]).top_bar(), "Connected to host:1");
}

#[test]
fn echo_is_split_at_line_feeds() {
    assert_eq!(typed(&[Key::Char('a'), Key::Enter, Key::Char('b'), Key::Char('c')]).lines(), vec!["a", "bc"]);
    assert_eq!(typed(&[Key::Char('a'), Key::Enter]).lines(), vec!["a", ""]);
    assert_eq!(typed(&[Key::Enter, Key::Enter]).lines(), vec!["", "", ""]);
    assert_eq!(typed(&[Key::Char('a')]).lines(), vec!["a"]);
}

#[test]
fn lines_agree_with_split() {
    let ui = typed(&[Key::Enter, Key::Char('x'), Key::Enter, Key::Enter, Key::Char('y'), Key::Char('z')]);
    let expected: Vec<String> = ui.keypressed().split('\n').map(|line| line.to_string()).collect();
    assert_eq!(ui.lines(), expected);
}

#[test]
fn span_is_over_once_it_has_been_waited_for() {
    assert!(has_elapsed(5, 5));
    assert!(has_elapsed(5, 6));
    assert!(!has_elapsed(5, 4));
    assert!(has_elapsed(0, 0));
}

#[test]
fn what_is_left_is_given_in_whole_milliseconds() {
    assert_eq!(remaining_after(10 * NANOS_PER_MILLI, 0), 10);
    assert_eq!(remaining_after(10 * NANOS_PER_MILLI, 1), 9);
    assert_eq!(remaining_after(10 * NANOS_PER_MILLI, 500_000), 9);
    assert_eq!(remaining_after(10 * NANOS_PER_MILLI, 9 * NANOS_PER_MILLI), 1);
    assert_eq!(remaining_after(10 * NANOS_PER_MILLI, 10 * NANOS_PER_MILLI - 1), 0);
    assert_eq!(remaining_after(10 * NANOS_PER_MILLI, 10 * NANOS_PER_MILLI), 0);
    assert_eq!(remaining_after(10 * NANOS_PER_MILLI, u128::MAX), 0);
    assert_eq!(NANOS_PER_MILLI, 1_000_000);
}

#[test]
fn longest_wait_is_what_the_longest_duration_holds() {
    assert_eq!(LONGEST_NANOS, std::time::Duration::MAX.as_nanos());
    assert_eq!(LONGEST_NANOS, u64::MAX as u128 * 1_000_000_000 + 999_999_999);
}

#[test]
fn wait_grows_and_stays_within_what_a_duration_holds() {
    let timer = Timer::new(5);
    let first = timer.waited();
    let second = timer.waited();
    assert!(first <= second);
    assert!(second <= LONGEST_NANOS);
}

#[test]
fn timer_set_for_no_time_has_elapsed() {
    let timer = Timer::new(0);
    assert!(timer.elapsed());
    assert_eq!(timer.remaining(), 0);
}

#[test]
fn timer_set_for_a_long_time_has_not_elapsed() {
    let timer = Timer::new(3_600_000);
    assert!(!timer.elapsed());
    let left = timer.remaining();
    assert!(left <= 3_600_000);
    assert!(left >= 3_500_000);
}

#[test]
fn timer_set_for_the_longest_time() {
    let timer = Timer::new(u64::MAX);
    assert!(!timer.elapsed());
    assert!(timer.remaining() <= u64::MAX as u128);
}

#[test]
fn timer_runs_out() {
    let timer = Timer::new(20);
    while !timer.elapsed() {
        assert!(timer.remaining() <= 20);
    }
    assert!(timer.elapsed());
    assert_eq!(timer.remaining(), 0);
    assert!(timer.waited() >= 20 * NANOS_PER_MILLI);
}
