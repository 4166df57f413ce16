use dtw_merchant::json::{JsonNumber, JsonValue};
use dtw_merchant::tray::{
    blank_icon_rgba, build_tooltip, click_shows_main, menu_action, needs_attention, tray_update,
    tray_update_from, Blinker, ButtonState, MenuAction, PointerButton, TrayIcon, TrayPointerEvent,
};

fn s(x: &str) -> JsonValue {
    JsonValue::Str(x.to_string())
}

#[test]
fn tooltip_idle_when_nothing_unread() {
    assert_eq!(build_tooltip(0, None), "极序排队 · 商户端");
    let names = JsonValue::Array(vec![s("张三")]);
    assert_eq!(build_tooltip(-4, Some(&names)), "极序排队 · 商户端");
}

#[test]
fn tooltip_count_without_names() {
    assert_eq!(build_tooltip(3, None), "3 条新消息");
    let not_array = s("张三");
    assert_eq!(build_tooltip(12, Some(&not_array)), "12 条新消息");
    let empty = JsonValue::Array(vec![]);
    assert_eq!(build_tooltip(1, Some(&empty)), "1 条新消息");
}

#[test]
fn tooltip_lists_string_names_in_order() {
    let names = JsonValue::Array(vec![
        s("张三"),
        JsonValue::Number(JsonNumber::PosInt(1)),
        s("李四"),
        JsonValue::Null,
    ]);
    assert_eq!(build_tooltip(3, Some(&names)), "3 条新消息：张三、李四");
}

#[test]
fn tooltip_takes_at_most_five_names() {
    let names = JsonValue::Array(vec![s("a"), s("b"), s("c"), s("d"), s("e"), s("f"), s("g")]);
    assert_eq!(build_tooltip(7, Some(&names)), "7 条新消息：a、b、c、d、e");
}

#[test]
fn tooltip_single_empty_name_shows_no_colon() {
    let one = JsonValue::Array(vec![s("")]);
    assert_eq!(build_tooltip(1, Some(&one)), "1 条新消息");
    let two = JsonValue::Array(vec![s(""), s("")]);
    assert_eq!(build_tooltip(1, Some(&two)), "1 条新消息：、");
}

#[test]
fn tray_update_reads_count_and_names() {
    let u = tray_update(r#"{"count": 2, "names": ["王五", 7, "赵六"]}"#).unwrap();
    assert_eq!(u.unread, 2);
    assert_eq!(u.tooltip, "2 条新消息：王五、赵六");
}

#[test]
fn tray_update_unusable_count_is_zero() {
    let u = tray_update(r#"{"count": "5", "names": ["x"]}"#).unwrap();
    assert_eq!(u.unread, 0);
    assert_eq!(u.tooltip, "极序排队 · 商户端");
    let u = tray_update(r#"{"count": 1.5}"#).unwrap();
    assert_eq!(u.unread, 0);
    let u = tray_update(r#"{"count": 18446744073709551615}"#).unwrap();
    assert_eq!(u.unread, 0);
    let u = tray_update(r#"[1, 2]"#).unwrap();
    assert_eq!(u.unread, 0);
}

#[test]
fn tray_update_negative_count_is_kept() {
    let u = tray_update(r#"{"count": -3}"#).unwrap();
    assert_eq!(u.unread, -3);
    assert_eq!(u.tooltip, "极序排队 · 商户端");
}

#[test]
fn tray_update_ignores_unparsable_payload() {
    assert!(tray_update("{count: 2").is_none());
    assert!(tray_update("").is_none());
    assert!(tray_update_from(None).is_none());
}

#[test]
fn tray_update_from_model() {
    let event = JsonValue::Object(vec![
        ("names".to_string(), JsonValue::Array(vec![s("甲")])),
        ("count".to_string(), JsonValue::Number(JsonNumber::NegInt(-1))),
    ]);
    let u = tray_update_from(Some(event)).unwrap();
    assert_eq!(u.unread, -1);
    assert_eq!(u.tooltip, "极序排队 · 商户端");
    let event = JsonValue::Object(vec![
        ("count".to_string(), JsonValue::Number(JsonNumber::PosInt(4))),
        ("names".to_string(), JsonValue::Array(vec![s("甲")])),
    ]);
    let u = tray_update_from(Some(event)).unwrap();
    assert_eq!(u.unread, 4);
    assert_eq!(u.tooltip, "4 条新消息：甲");
}

#[test]
fn json_accessors_follow_serde_json() {
    let obj = JsonValue::Object(vec![
        ("k".to_string(), JsonValue::Number(JsonNumber::PosInt(9))),
        ("big".to_string(), JsonValue::Number(JsonNumber::PosInt(u64::MAX))),
        ("neg".to_string(), JsonValue::Number(JsonNumber::NegInt(-2))),
        ("f".to_string(), JsonValue::Number(JsonNumber::Float)),
        ("s".to_string(), s("text")),
        ("a".to_string(), JsonValue::Array(vec![JsonValue::Bool(true)])),
    ]);
    assert_eq!(obj.get("k").unwrap().as_i64(), Some(9));
    assert_eq!(obj.get("big").unwrap().as_i64(), None);
    assert_eq!(obj.get("neg").unwrap().as_i64(), Some(-2));
    assert_eq!(obj.get("f").unwrap().as_i64(), None);
    assert_eq!(obj.get("s").unwrap().as_str(), Some("text"));
    assert_eq!(obj.get("s").unwrap().as_i64(), None);
    assert_eq!(obj.get("a").unwrap().as_array().unwrap().len(), 1);
    assert!(obj.get("missing").is_none());
    assert!(obj.as_array().is_none());
    assert!(s("k").get("k").is_none());
}

#[test]
fn tray_update_parses_nested_payload() {
    let u = tray_update(r#"{"names": ["甲", {"n": 1}, null, "乙"], "extra": [1, -2, 3.5], "count": 9}"#).unwrap();
    assert_eq!(u.unread, 9);
    assert_eq!(u.tooltip, "9 条新消息：甲、乙");
}

#[test]
fn blink_alternates_then_settles() {
    let mut b = Blinker::new();
    assert!(b.on);
    assert_eq!(b.tick(2, true), Some(TrayIcon::Blank));
    assert_eq!(b.tick(2, true), Some(TrayIcon::Normal));
    assert_eq!(b.tick(1, true), Some(TrayIcon::Blank));
    assert_eq!(b.tick(0, true), Some(TrayIcon::Normal));
    assert!(b.on);
    assert_eq!(b.tick(0, true), None);
    assert_eq!(b.tick(-1, true), None);
}

#[test]
fn blink_without_tray_does_nothing() {
    let mut b = Blinker::new();
    assert_eq!(b.tick(5, false), None);
    assert!(b.on);
    assert_eq!(b.tick(5, true), Some(TrayIcon::Blank));
    assert_eq!(b.tick(0, false), None);
    assert!(!b.on);
}

#[test]
fn menu_ids() {
    assert_eq!(menu_action("show"), MenuAction::ShowMain);
    assert_eq!(menu_action("quit"), MenuAction::Quit);
    assert_eq!(menu_action("other"), MenuAction::Ignore);
    assert_eq!(menu_action(""), MenuAction::Ignore);
}

#[test]
fn left_release_shows_main() {
    let up = TrayPointerEvent::Click { button: PointerButton::Left, state: ButtonState::Up };
    let down = TrayPointerEvent::Click { button: PointerButton::Left, state: ButtonState::Down };
    let right = TrayPointerEvent::Click { button: PointerButton::Right, state: ButtonState::Up };
    assert!(click_shows_main(up));
    assert!(!click_shows_main(down));
    assert!(!click_shows_main(right));
    assert!(!click_shows_main(TrayPointerEvent::Other));
}

#[test]
fn attention_only_when_not_focused() {
    assert!(needs_attention(true, Some(false)));
    assert!(needs_attention(true, None));
    assert!(!needs_attention(true, Some(true)));
    assert!(!needs_attention(false, Some(false)));
}

#[test]
fn blank_icon_is_all_zero() {
    let px = blank_icon_rgba(2, 3);
    assert_eq!(px.len(), 24);
    assert!(px.iter().all(|b| *b == 0));
    assert!(blank_icon_rgba(0, 7).is_empty());
}
