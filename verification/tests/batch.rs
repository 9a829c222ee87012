use keyrelay::batch::Batch;
use keyrelay::batch::Batcher;
use keyrelay::error::RpcError;
use keyrelay::keybinds::Key;
use keyrelay::keybinds::KeyListener;
use keyrelay::keybinds::Operation;
use keyrelay::keybinds::Settings;
use keyrelay::keybinds::Step;
use keyrelay::retry::Fatal;
use keyrelay::session::Received;
use keyrelay::session::Session;
use keyrelay::value::Object;
use rmpv::Value;
use std::cell::RefCell;

const SENTINEL: char = '\u{20b9}';

fn settings() -> Settings {
    Settings { exit_sentinel: SENTINEL, arrows: true, retries: 2 }
}

fn released(text: &str, literal: Option<char>) -> Batch {
    Batch { text: text.to_string(), literal, exit: false }
}

fn response(id: u64, error: Value, result: Value) -> Received {
    let mut bytes = Vec::new();
    let value = Value::Array(vec![Value::from(1), Value::from(id), error, result]);
    rmpv::encode::write_value(&mut bytes, &value).unwrap();
    Received::Data(bytes)
}

/// An editor in mode `n` that notes every request in `log` and refuses the
/// feeding of `refused`.
fn editor(log: &RefCell<Vec<String>>, refused: &str, bytes: Vec<u8>) -> Received {
    let mut rest = &bytes[..];
    let request = rmpv::decode::read_value(&mut rest).unwrap();
    let id = request[1].as_u64().unwrap();
    if request[2].as_str() == Some("nvim_get_mode") {
        log.borrow_mut().push("mode?".to_string());
        return response(id, Value::Nil, Value::Map(vec![(Value::from("mode"), Value::from("n"))]));
    }
    let keys = request[3][0].as_str().unwrap().to_string();
    log.borrow_mut().push(format!("feed {:?} in {}", keys, request[3][1].as_str().unwrap()));
    if keys == refused {
        response(id, Value::from("refused"), Value::Nil)
    } else {
        response(id, Value::Nil, Value::Nil)
    }
}

#[test]
fn without_a_threshold_every_character_is_released_by_itself() {
    for threshold in [0, 1] {
        let mut batcher = Batcher::new(threshold);
        for c in ['a', 'b', '\u{e9}'] {
            assert_eq!(batcher.take(Key::Char(c), settings()), released(&c.to_string(), None));
            assert_eq!(batcher.held(), 0);
        }
    }
}

#[test]
fn characters_are_held_back_until_they_are_as_many_as_the_threshold() {
    let mut batcher = Batcher::new(3);
    assert_eq!(batcher.take(Key::Char('a'), settings()), released("", None));
    assert_eq!(batcher.held(), 1);
    assert_eq!(batcher.take(Key::Char('b'), settings()), released("", None));
    assert_eq!(batcher.held(), 2);
    assert_eq!(batcher.take(Key::Char('c'), settings()), released("abc", None));
    assert_eq!(batcher.held(), 0);
    assert_eq!(batcher.take(Key::Char('d'), settings()), released("", None));
    assert_eq!(batcher.held(), 1);
}

#[test]
fn control_key_releases_what_is_held_and_its_literal() {
    let keys = [(Key::Enter, '\n'), (Key::Esc, '\x1b'), (Key::Backspace, '\x08'), (Key::Tab, '\t'), (Key::Up, 'k')];
    for (key, literal) in keys {
        let mut batcher = Batcher::new(10);
        batcher.take(Key::Char('x'), settings());
        batcher.take(Key::Char('y'), settings());
        assert_eq!(batcher.take(key, settings()), released("xy", Some(literal)));
        assert_eq!(batcher.held(), 0);
        assert_eq!(batcher.take(key, settings()), released("", Some(literal)));
    }
}

#[test]
fn sentinel_releases_nothing_and_stops_the_relay() {
    let mut batcher = Batcher::new(10);
    batcher.take(Key::Char('x'), settings());
    assert_eq!(
        batcher.take(Key::Char(SENTINEL), settings()),
        Batch { text: String::new(), literal: None, exit: true }
    );
    assert_eq!(batcher.held(), 1);
}

#[test]
fn ignored_keys_release_nothing() {
    let mut batcher = Batcher::new(10);
    batcher.take(Key::Char('x'), settings());
    assert_eq!(batcher.take(Key::Other, settings()), released("", None));
    let no_arrows = Settings { exit_sentinel: SENTINEL, arrows: false, retries: 2 };
    assert_eq!(batcher.take(Key::Left, no_arrows), released("", None));
    assert_eq!(batcher.held(), 1);
}

#[test]
fn nothing_is_lost_and_nothing_changes_place() {
    let typed = "the quick brown fox";
    for threshold in 0..8 {
        let mut batcher = Batcher::new(threshold);
        let mut fed = String::new();
        for c in typed.chars() {
            let batch = batcher.take(Key::Char(c), settings());
            assert!(batch.text.is_empty() || batch.text.chars().count() >= threshold);
            fed.push_str(&batch.text);
        }
        fed.push_str(&batcher.take(Key::Enter, settings()).text);
        assert_eq!(fed, typed);
    }
}

#[test]
fn batch_is_fed_as_one_call_after_one_mode_query() {
    let log = RefCell::new(Vec::new());
    let exchange = |bytes: Vec<u8>| editor(&log, "", bytes);
    let mut listener = KeyListener::new(Session::connect("a"), settings());
    let mut batcher = Batcher::new(3);
    for c in ['a', 'b'] {
        assert_eq!(listener.dispatch_batched(&mut batcher, Key::Char(c), &exchange), Step::Finished(false));
    }
    assert!(log.borrow().is_empty());
    assert_eq!(listener.dispatch_batched(&mut batcher, Key::Char('c'), &exchange), Step::Finished(false));
    assert_eq!(*log.borrow(), vec!["mode?", "feed \"abc\" in n"]);
    assert_eq!(listener.session().message_id(), 2);
}

#[test]
fn held_characters_are_fed_before_the_control_key() {
    let log = RefCell::new(Vec::new());
    let exchange = |bytes: Vec<u8>| editor(&log, "", bytes);
    let mut listener = KeyListener::new(Session::connect("a"), settings());
    let mut batcher = Batcher::new(5);
    listener.dispatch_batched(&mut batcher, Key::Char('d'), &exchange);
    listener.dispatch_batched(&mut batcher, Key::Char('d'), &exchange);
    assert_eq!(listener.dispatch_batched(&mut batcher, Key::Enter, &exchange), Step::Finished(false));
    assert_eq!(*log.borrow(), vec!["mode?", "feed \"dd\" in n", "feed \"\\n\" in n"]);
    assert_eq!(batcher.held(), 0);
}

#[test]
fn control_key_alone_is_fed_without_a_mode_query() {
    let log = RefCell::new(Vec::new());
    let exchange = |bytes: Vec<u8>| editor(&log, "", bytes);
    let mut listener = KeyListener::new(Session::connect("a"), settings());
    let mut batcher = Batcher::new(5);
    assert_eq!(listener.dispatch_batched(&mut batcher, Key::Esc, &exchange), Step::Finished(false));
    assert_eq!(*log.borrow(), vec!["feed \"\\u{1b}\" in "]);
}

#[test]
fn batched_dispatch_without_a_threshold_is_plain_dispatch() {
    let plain_log = RefCell::new(Vec::new());
    let batched_log = RefCell::new(Vec::new());
    let plain_exchange = |bytes: Vec<u8>| editor(&plain_log, "", bytes);
    let batched_exchange = |bytes: Vec<u8>| editor(&batched_log, "", bytes);
    let mut plain = KeyListener::new(Session::connect("a"), settings());
    let mut with_batcher = KeyListener::new(Session::connect("a"), settings());
    let mut batcher = Batcher::new(0);
    for key in [Key::Char('i'), Key::Char('x'), Key::Esc, Key::Other, Key::Left, Key::Char(SENTINEL)] {
        let expected = plain.dispatch(key, &plain_exchange);
        assert_eq!(with_batcher.dispatch_batched(&mut batcher, key, &batched_exchange), expected);
    }
    assert_eq!(*plain_log.borrow(), *batched_log.borrow());
    assert_eq!(plain.session().message_id(), with_batcher.session().message_id());
}

#[test]
fn sentinel_stops_the_batched_relay_without_a_call() {
    let log = RefCell::new(Vec::new());
    let exchange = |bytes: Vec<u8>| editor(&log, "", bytes);
    let mut listener = KeyListener::new(Session::connect("a"), settings());
    let mut batcher = Batcher::new(5);
    listener.dispatch_batched(&mut batcher, Key::Char('a'), &exchange);
    assert_eq!(listener.dispatch_batched(&mut batcher, Key::Char(SENTINEL), &exchange), Step::Finished(true));
    assert!(log.borrow().is_empty());
    assert_eq!(listener.session().message_id(), 0);
}

#[test]
fn literal_is_not_fed_when_the_characters_were_refused() {
    let log = RefCell::new(Vec::new());
    let exchange = |bytes: Vec<u8>| editor(&log, "zz", bytes);
    let mut listener = KeyListener::new(Session::connect("a"), settings());
    let mut batcher = Batcher::new(5);
    listener.dispatch_batched(&mut batcher, Key::Char('z'), &exchange);
    listener.dispatch_batched(&mut batcher, Key::Char('z'), &exchange);
    assert_eq!(
        listener.dispatch_batched(&mut batcher, Key::Enter, &exchange),
        Step::Rejected(RpcError::RemoteError(Object::Text("refused".to_string())))
    );
    assert_eq!(*log.borrow(), vec!["mode?", "feed \"zz\" in n"]);
    assert!(listener.is_idle());
}

#[test]
fn batched_relay_is_fatal_at_the_bound() {
    let exchange = |_bytes: Vec<u8>| Received::TimedOut;
    let mut listener = KeyListener::new(Session::connect("a"), settings());
    let mut batcher = Batcher::new(0);
    assert_eq!(
        listener.dispatch_batched(&mut batcher, Key::Char('a'), &exchange),
        Step::Fatal(Fatal { operation: Operation::GetMode, attempts: 2, cause: RpcError::TimedOut })
    );
    assert_eq!(
        listener.dispatch_batched(&mut batcher, Key::Tab, &exchange),
        Step::Fatal(Fatal { operation: Operation::FeedKeys, attempts: 2, cause: RpcError::TimedOut })
    );
}

#[test]
fn keys_are_forwarded_and_sent_as_strings() {
    let log = RefCell::new(Vec::new());
    let exchange = |bytes: Vec<u8>| editor(&log, "", bytes);
    let mut listener = KeyListener::new(Session::connect("a"), settings());
    let step = listener.forward("ciw");
    assert_eq!(listener.settle(step, &exchange), Step::Finished(false));
    let step = listener.send_keys("\x1b:w\n");
    assert_eq!(listener.settle(step, &exchange), Step::Finished(false));
    assert_eq!(*log.borrow(), vec!["mode?", "feed \"ciw\" in n", "feed \"\\u{1b}:w\\n\" in n"]);
    assert_eq!(listener.settings(), settings());
}

#[test]
fn ids_for_a_batched_key() {
    let listener = KeyListener::new(
        Session::connect("a"),
        Settings { exit_sentinel: SENTINEL, arrows: true, retries: (u32::MAX / 3) as u64 },
    );
    assert!(!listener.can_dispatch_batched());
    assert!(listener.can_dispatch());
    let listener = KeyListener::new(
        Session::connect("a"),
        Settings { exit_sentinel: SENTINEL, arrows: true, retries: (u32::MAX / 3) as u64 - 1 },
    );
    assert!(listener.can_dispatch_batched());
}
