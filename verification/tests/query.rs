use keyrelay::error::RpcError;
use keyrelay::query::get_bool_from_map;
use keyrelay::query::get_str_from_map;
use keyrelay::query::parse_keybind;
use keyrelay::query::parse_keybind_lhs;
use keyrelay::query::parse_keybinds;
use keyrelay::query::parse_mode;
use keyrelay::query::read_fed;
use keyrelay::query::read_keybinds;
use keyrelay::query::read_mode;
use keyrelay::query::Keybind;
use keyrelay::session::Received;
use keyrelay::session::Session;
use keyrelay::value::Object;
use rmpv::Value;

fn text(s: &str) -> Object {
    Object::Text(s.to_string())
}

fn entry(key: &str, value: Object) -> (Object, Object) {
    (text(key), value)
}

fn response(id: u32, error: Value, result: Value) -> Vec<u8> {
    let mut bytes = Vec::new();
    let value = Value::Array(vec![Value::from(1), Value::from(id), error, result]);
    rmpv::encode::write_value(&mut bytes, &value).unwrap();
    bytes
}

fn mode_result(mode: &str) -> Value {
    Value::Map(vec![(Value::from("mode"), Value::from(mode)), (Value::from("blocking"), Value::from(false))])
}

#[test]
fn string_is_found_under_its_key() {
    let map = vec![entry("a", text("1")), entry("mode", text("n")), entry("b", text("2"))];
    assert_eq!(get_str_from_map(&map, "mode"), Some("n"));
    assert_eq!(get_str_from_map(&map, "b"), Some("2"));
    assert_eq!(get_str_from_map(&map, "c"), None);
    assert_eq!(get_str_from_map(&[], "mode"), None);
}

#[test]
fn first_string_under_the_key_wins() {
    let map = vec![entry("mode", text("i")), entry("mode", text("n"))];
    assert_eq!(get_str_from_map(&map, "mode"), Some("i"));
}

#[test]
fn entry_whose_value_is_no_string_is_passed_over() {
    let map = vec![entry("mode", Object::Unsigned(1)), entry("mode", text("n"))];
    assert_eq!(get_str_from_map(&map, "mode"), Some("n"));
    let map = vec![entry("mode", Object::Boolean(true))];
    assert_eq!(get_str_from_map(&map, "mode"), None);
}

#[test]
fn key_that_is_no_string_is_passed_over() {
    let map = vec![(Object::Unsigned(1), text("x")), (Object::Binary(b"mode".to_vec()), text("y"))];
    assert_eq!(get_str_from_map(&map, "mode"), None);
}

#[test]
fn flag_is_found_under_its_key() {
    let map = vec![entry("noremap", text("yes")), entry("noremap", Object::Boolean(true)), entry("x", Object::Boolean(false))];
    assert_eq!(get_bool_from_map(&map, "noremap"), Some(true));
    assert_eq!(get_bool_from_map(&map, "x"), Some(false));
    assert_eq!(get_bool_from_map(&map, "y"), None);
}

#[test]
fn mode_is_read_from_a_dictionary() {
    let result = Object::Dictionary(vec![entry("blocking", Object::Boolean(false)), entry("mode", text("niI"))]);
    assert_eq!(parse_mode(&result), Some("niI".to_string()));
}

#[test]
fn mode_is_missing_from_other_results() {
    assert_eq!(parse_mode(&Object::Dictionary(vec![entry("blocking", Object::Boolean(false))])), None);
    assert_eq!(parse_mode(&Object::Dictionary(Vec::new())), None);
    assert_eq!(parse_mode(&Object::Array(vec![text("mode"), text("n")])), None);
    assert_eq!(parse_mode(&text("n")), None);
    assert_eq!(parse_mode(&Object::Nil), None);
}

#[test]
fn markup_is_stripped_from_the_left_hand_side() {
    assert_eq!(parse_keybind_lhs("<C-w>j"), vec!['C', 'w', 'j']);
    assert_eq!(parse_keybind_lhs("<<-->>"), Vec::<char>::new());
    assert_eq!(parse_keybind_lhs(""), Vec::<char>::new());
    assert_eq!(parse_keybind_lhs("gg"), vec!['g', 'g']);
    assert_eq!(parse_keybind_lhs("<M-\u{20b9}>"), vec!['M', '\u{20b9}']);
}

#[test]
fn keybind_is_read_with_all_its_fields() {
    let keymap = Object::Dictionary(vec![
        entry("lhs", text("<C-x>")),
        entry("rhs", text(":quit<CR>")),
        entry("mode", text("v")),
        entry("noremap", Object::Boolean(true)),
    ]);
    assert_eq!(
        parse_keybind(&keymap, "n"),
        Some(Keybind { lhs: vec!['C', 'x'], rhs: ":quit<CR>".to_string(), mode: "v".to_string(), noremap: true })
    );
}

#[test]
fn keybind_defaults() {
    let keymap = Object::Dictionary(vec![entry("rhs", text("dd")), entry("lhs", text("x"))]);
    assert_eq!(
        parse_keybind(&keymap, "n"),
        Some(Keybind { lhs: vec!['x'], rhs: "dd".to_string(), mode: "n".to_string(), noremap: false })
    );
}

#[test]
fn noremap_given_as_a_number_counts_as_unset() {
    let keymap = Object::Dictionary(vec![
        entry("lhs", text("x")),
        entry("rhs", text("dd")),
        entry("noremap", Object::Unsigned(1)),
    ]);
    assert_eq!(parse_keybind(&keymap, "n").unwrap().noremap, false);
}

#[test]
fn keybind_needs_both_sides() {
    assert_eq!(parse_keybind(&Object::Dictionary(vec![entry("lhs", text("x"))]), "n"), None);
    assert_eq!(parse_keybind(&Object::Dictionary(vec![entry("rhs", text("x"))]), "n"), None);
    assert_eq!(parse_keybind(&Object::Array(Vec::new()), "n"), None);
    assert_eq!(parse_keybind(&Object::Nil, "n"), None);
}

#[test]
fn keybinds_are_read_in_order_and_bad_items_are_passed_over() {
    let good = |lhs: &str| Object::Dictionary(vec![entry("lhs", text(lhs)), entry("rhs", text("r"))]);
    let result = Object::Array(vec![good("a"), Object::Nil, good("<b>"), Object::Dictionary(Vec::new()), good("c")]);
    let keybinds = parse_keybinds(&result, "i").unwrap();
    let lhs: Vec<Vec<char>> = keybinds.iter().map(|k| k.lhs.clone()).collect();
    assert_eq!(lhs, vec![vec!['a'], vec!['b'], vec!['c']]);
    assert!(keybinds.iter().all(|k| k.mode == "i" && k.rhs == "r" && !k.noremap));
}

#[test]
fn keybinds_of_an_empty_array_and_of_no_array() {
    assert_eq!(parse_keybinds(&Object::Array(Vec::new()), "n"), Some(Vec::new()));
    assert_eq!(parse_keybinds(&Object::Dictionary(Vec::new()), "n"), None);
    assert_eq!(parse_keybinds(&Object::Nil, "n"), None);
}

#[test]
fn mode_reply_is_read() {
    assert_eq!(read_mode(2, Received::Data(response(2, Value::Nil, mode_result("i")))), Ok("i".to_string()));
}

#[test]
fn mode_reply_without_a_mode_is_malformed() {
    let result = Value::Map(vec![(Value::from("blocking"), Value::from(false))]);
    assert_eq!(read_mode(2, Received::Data(response(2, Value::Nil, result))), Err(RpcError::MalformedResponse));
    assert_eq!(
        read_mode(2, Received::Data(response(2, Value::Nil, Value::from("n")))),
        Err(RpcError::MalformedResponse)
    );
}

#[test]
fn mode_reply_hands_on_the_failure_of_the_call() {
    assert_eq!(read_mode(2, Received::TimedOut), Err(RpcError::TimedOut));
    assert_eq!(
        read_mode(2, Received::Data(response(3, Value::Nil, mode_result("i")))),
        Err(RpcError::CorrelationMismatch)
    );
    assert_eq!(
        read_mode(2, Received::Data(response(2, Value::from("no"), mode_result("i")))),
        Err(RpcError::RemoteError(text("no")))
    );
}

#[test]
fn feed_reply_succeeds_on_any_result() {
    assert_eq!(read_fed(1, Received::Data(response(1, Value::Nil, Value::Nil))), Ok(()));
    assert_eq!(read_fed(1, Received::Data(response(1, Value::Nil, Value::from(12)))), Ok(()));
}

#[test]
fn feed_reply_fails_with_the_call() {
    assert_eq!(
        read_fed(1, Received::Data(response(1, Value::from("E5555"), Value::Nil))),
        Err(RpcError::RemoteError(text("E5555")))
    );
    assert_eq!(read_fed(1, Received::Closed), Err(RpcError::Disconnected));
}

#[test]
fn keymap_reply_is_read() {
    let item = Value::Map(vec![
        (Value::from("lhs"), Value::from("<Space>w")),
        (Value::from("rhs"), Value::from(":w<CR>")),
        (Value::from("noremap"), Value::from(true)),
    ]);
    let received = Received::Data(response(0, Value::Nil, Value::Array(vec![item, Value::from(1)])));
    assert_eq!(
        read_keybinds(0, received, "n"),
        Ok(vec![Keybind {
            lhs: vec!['S', 'p', 'a', 'c', 'e', 'w'],
            rhs: ":w<CR>".to_string(),
            mode: "n".to_string(),
            noremap: true
        }])
    );
}

#[test]
fn keymap_reply_that_is_no_array_is_malformed() {
    let received = Received::Data(response(0, Value::Nil, Value::Nil));
    assert_eq!(read_keybinds(0, received, "n"), Err(RpcError::MalformedResponse));
    assert_eq!(read_keybinds(0, Received::Failed, "n"), Err(RpcError::Disconnected));
}

#[test]
fn session_asks_for_the_mode() {
    let exchange = |bytes: Vec<u8>| {
        let mut rest = &bytes[..];
        let request = rmpv::decode::read_value(&mut rest).unwrap();
        assert_eq!(request[2].as_str(), Some("nvim_get_mode"));
        Received::Data(response(request[1].as_u64().unwrap() as u32, Value::Nil, mode_result("t")))
    };
    let mut session = Session::connect("a");
    assert_eq!(session.get_mode(&exchange), Ok("t".to_string()));
    assert_eq!(session.get_mode(&exchange), Ok("t".to_string()));
    assert_eq!(session.message_id(), 2);
}

#[test]
fn session_feeds_keys() {
    let exchange = |bytes: Vec<u8>| {
        let mut rest = &bytes[..];
        let request = rmpv::decode::read_value(&mut rest).unwrap();
        assert_eq!(request[2].as_str(), Some("nvim_feedkeys"));
        assert_eq!(request[3], Value::Array(vec![Value::from("dd"), Value::from("n"), Value::from(false)]));
        Received::Data(response(request[1].as_u64().unwrap() as u32, Value::Nil, Value::Nil))
    };
    let mut session = Session::connect("a");
    assert_eq!(session.feed_keys("dd", "n", &exchange), Ok(()));
}

#[test]
fn session_does_not_mask_a_refusal_of_fed_keys() {
    let exchange = |_bytes: Vec<u8>| Received::Data(response(0, Value::from("refused"), Value::Nil));
    let mut session = Session::connect("a");
    assert_eq!(session.feed_keys("i", "n", &exchange), Err(RpcError::RemoteError(text("refused"))));
}

#[test]
fn session_asks_for_the_keymap() {
    let exchange = |bytes: Vec<u8>| {
        let mut rest = &bytes[..];
        let request = rmpv::decode::read_value(&mut rest).unwrap();
        assert_eq!(request[2].as_str(), Some("nvim_get_keymap"));
        assert_eq!(request[3], Value::Array(vec![Value::from("x")]));
        let item = Value::Map(vec![(Value::from("lhs"), Value::from("a")), (Value::from("rhs"), Value::from("b"))]);
        Received::Data(response(0, Value::Nil, Value::Array(vec![item])))
    };
    let mut session = Session::connect("a");
    let keybinds = session.get_keymap("x", &exchange).unwrap();
    assert_eq!(keybinds.len(), 1);
    assert_eq!(keybinds[0].mode, "x");
}
