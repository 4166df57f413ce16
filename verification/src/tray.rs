//! The system tray: its hover text, what its menu and clicks do, and the
//! blinking that signals unread work.

use vstd::prelude::*;
use crate::json::{JsonNumber, JsonValue, parse_json, parsed_json};
use crate::text::{decimal, decimal_string, first_n, join, str_eq};

verus! {

/// How many sender names the hover text lists at most.
pub const MAX_TOOLTIP_NAMES: usize = 5;

/// The text items of `items`, in order, skipping items that are not strings.
pub open spec fn text_items(items: Seq<JsonValue>) -> Seq<Seq<char>>
    decreases items.len(),
{
    if items.len() == 0 {
        Seq::empty()
    } else {
        let rest = text_items(items.drop_last());
        match items.last().as_str_spec() {
            Some(s) => rest.push(s),
            None => rest,
        }
    }
}

/// The sender names the hover text lists: the first five strings of the
/// `names` array, or none when `names` is missing or not an array.
pub open spec fn sender_names(names: Option<JsonValue>) -> Seq<Seq<char>> {
    match names {
        Some(v) => match v.as_array_spec() {
            Some(items) => first_n(text_items(items), MAX_TOOLTIP_NAMES as nat),
            None => Seq::empty(),
        },
        None => Seq::empty(),
    }
}

/// The tray's hover text for `count` unread items and the `names` field of
/// the tray event.
pub open spec fn tooltip_text(count: int, names: Option<JsonValue>) -> Seq<char> {
    if count <= 0 {
        "极序排队 · 商户端"@
    } else {
        let who = join(sender_names(names), "、"@);
        if who.len() == 0 {
            decimal(count) + " 条新消息"@
        } else {
            decimal(count) + " 条新消息："@ + who
        }
    }
}

/// With nothing unread the hover text is the plain title, whatever names the
/// event carries.
pub proof fn idle_tooltip_ignores_names(count: int, names: Option<JsonValue>)
    requires
        count <= 0,
    ensures
        tooltip_text(count, names) == "极序排队 · 商户端"@,
{
}

/// The hover text lists at most five sender names.
pub proof fn tooltip_lists_at_most_five(names: Option<JsonValue>)
    ensures
        sender_names(names).len() <= MAX_TOOLTIP_NAMES,
{
}

/// With something unread the hover text starts with the count.
pub proof fn tooltip_starts_with_count(count: int, names: Option<JsonValue>)
    requires
        count > 0,
    ensures
        tooltip_text(count, names).take(decimal(count).len() as int) == decimal(count),
{
    let who = join(sender_names(names), "、"@);
    if who.len() == 0 {
        assert((decimal(count) + " 条新消息"@).take(decimal(count).len() as int) =~= decimal(count));
    } else {
        assert((decimal(count) + " 条新消息："@ + who).take(decimal(count).len() as int) =~= decimal(count));
    }
}

/// With something unread, the hover text names the senders whatever the
/// count: when the first five string items of the `names` array join to a
/// non-empty text, it follows the count and "条新消息：".
pub proof fn tooltip_names_senders_for_any_count(count: int, names: JsonValue, items: Seq<JsonValue>)
    requires
        count > 0,
        names.as_array_spec() == Some(items),
        join(first_n(text_items(items), 5), "、"@).len() > 0,
    ensures
        tooltip_text(count, Some(names))
            == decimal(count) + " 条新消息："@ + join(first_n(text_items(items), 5), "、"@),
{
}

/// With something unread but no sender to show (no `names`, not an array, or
/// no non-empty string among its first five strings), the hover text is the
/// count followed by "条新消息".
pub proof fn tooltip_without_senders(count: int, names: Option<JsonValue>)
    requires
        count > 0,
        names matches Some(v) ==> (v.as_array_spec() matches Some(items)
            ==> join(first_n(text_items(items), 5), "、"@).len() == 0),
    ensures
        tooltip_text(count, names) == decimal(count) + " 条新消息"@,
{
}

/// The unread count of a tray event is its `count` member whenever that is a
/// JSON integer fitting an `i64`, and 0 when the member is missing or is not
/// such an integer.
pub proof fn event_count_reads_the_count_member(event: JsonValue)
    ensures
        event.get_spec("count"@) matches Some(JsonValue::Number(JsonNumber::PosInt(u)))
            ==> (u <= i64::MAX ==> event_count(event) == u) && (u > i64::MAX ==> event_count(event) == 0),
        event.get_spec("count"@) matches Some(JsonValue::Number(JsonNumber::NegInt(i)))
            ==> event_count(event) == i,
        event.get_spec("count"@) is None ==> event_count(event) == 0,
        event.get_spec("count"@) matches Some(c) ==> (!(c is Number) ==> event_count(event) == 0),
        event.get_spec("count"@) matches Some(JsonValue::Number(JsonNumber::Float)) ==> event_count(event) == 0,
{
}

/// Joins the first five string items of `items` with "、".
fn join_sender_names(items: &Vec<JsonValue>) -> (who: String)
    ensures
        who@ == join(first_n(text_items(items@), MAX_TOOLTIP_NAMES as nat), "、"@),
{
    let mut who = String::new();
    let mut taken: usize = 0;
    let mut i: usize = 0;
    while i < items.len()
        invariant
            i <= items@.len(),
            taken as nat == first_n(text_items(items@.take(i as int)), MAX_TOOLTIP_NAMES as nat).len(),
            taken <= MAX_TOOLTIP_NAMES,
            who@ == join(first_n(text_items(items@.take(i as int)), MAX_TOOLTIP_NAMES as nat), "、"@),
        decreases items@.len() - i,
    {
        let ghost before = text_items(items@.take(i as int));
        assert(items@.take(i + 1).drop_last() =~= items@.take(i as int));
        assert(items@.take(i + 1).last() == items@[i as int]);
        if let Some(name) = items[i].as_str() {
            let ghost after = before.push(name@);
            assert(text_items(items@.take(i + 1)) == after);
            if taken < MAX_TOOLTIP_NAMES {
                assert(first_n(after, 5) =~= first_n(before, 5).push(name@));
                if taken > 0 {
                    who.append("、");
                }
                who.append(name);
                assert(first_n(before, 5).push(name@).drop_last() =~= first_n(before, 5));
                taken = taken + 1;
            } else {
                assert(first_n(after, 5) =~= first_n(before, 5));
            }
        } else {
            assert(text_items(items@.take(i + 1)) == before);
        }
        i = i + 1;
    }
    assert(items@.take(items@.len() as int) =~= items@);
    who
}

/// The tray's hover text: a fixed title when nothing is unread, otherwise the
/// count and, after a colon, up to five sender names.
pub fn build_tooltip(count: i64, names: Option<&JsonValue>) -> (tip: String)
    ensures
        tip@ == tooltip_text(count as int, match names {
            Some(v) => Some(*v),
            None => None,
        }),
{
    if count <= 0 {
        return String::from_str("极序排队 · 商户端");
    }
    let who = match names {
        Some(v) => match v.as_array() {
            Some(items) => join_sender_names(items),
            None => String::new(),
        },
        None => String::new(),
    };
    let mut tip = decimal_string(count);
    if who.as_str().is_empty() {
        tip.append(" 条新消息");
    } else {
        tip.append(" 条新消息：");
        tip.append(who.as_str());
    }
    tip
}


/// The unread count a tray event carries: its `count` member when that is an
/// integer that fits an `i64`, otherwise 0.
pub open spec fn event_count(event: JsonValue) -> i64 {
    match event.get_spec("count"@) {
        Some(c) => match c.as_i64_spec() {
            Some(n) => n,
            None => 0,
        },
        None => 0,
    }
}

/// What a tray event changes: the unread count the blinking follows, and the
/// hover text.
pub struct TrayUpdate {
    pub unread: i64,
    pub tooltip: String,
}

/// What a parsed tray event changes; nothing when the payload did not parse.
pub fn tray_update_from(event: Option<JsonValue>) -> (r: Option<TrayUpdate>)
    ensures
        r is None <==> event is None,
        r matches Some(u) ==> {
            &&& u.unread == event_count(event->0)
            &&& u.tooltip@ == tooltip_text(event_count(event->0) as int, event->0.get_spec("names"@))
        },
{
    match event {
        None => None,
        Some(v) => {
            let count: i64 = match v.get("count") {
                Some(c) => match c.as_i64() {
                    Some(n) => n,
                    None => 0,
                },
                None => 0,
            };
            let tooltip = build_tooltip(count, v.get("names"));
            Some(TrayUpdate { unread: count, tooltip })
        },
    }
}

/// What the tray event with JSON text `payload` changes: the text is parsed,
/// then read as `tray_update_from` reads it.
pub fn tray_update(payload: &str) -> (r: Option<TrayUpdate>)
    ensures
        r is None <==> parsed_json(payload@) is None,
        r matches Some(u) ==> {
            let event = parsed_json(payload@)->0;
            &&& u.unread == event_count(event)
            &&& u.tooltip@ == tooltip_text(event_count(event) as int, event.get_spec("names"@))
        },
{
    tray_update_from(parse_json(payload))
}

/// The two faces of the tray icon.
#[derive(Clone, Copy, Debug, PartialEq, Eq)]
pub enum TrayIcon {
    Normal,
    Blank,
}

/// The icon that goes with the blink phase `on`.
pub open spec fn icon_for(on: bool) -> TrayIcon {
    if on { TrayIcon::Normal } else { TrayIcon::Blank }
}

/// The blinking of the tray icon: while anything is unread the icon
/// alternates between its normal face and a blank one; once nothing is, it
/// shows its normal face again and stays so.
pub struct Blinker {
    pub on: bool,
}

impl Blinker {
    /// A blinker in the phase the icon starts in: showing its normal face.
    pub fn new() -> (b: Blinker)
        ensures
            b.on,
    {
        Blinker { on: true }
    }

    /// One tick of the blink clock, given the unread count and whether the
    /// tray exists. Returns the face to give the icon, if it changes.
    pub fn tick(&mut self, unread: i64, tray_present: bool) -> (set: Option<TrayIcon>)
        ensures
            (final(self).on, set) == blink_tick_spec(old(self).on, unread as int, tray_present),
    {
        if tray_present {
            if unread > 0 {
                self.on = !self.on;
                if self.on {
                    Some(TrayIcon::Normal)
                } else {
                    Some(TrayIcon::Blank)
                }
            } else if !self.on {
                self.on = true;
                Some(TrayIcon::Normal)
            } else {
                None
            }
        } else {
            None
        }
    }
}

/// One tick of the blinking from phase `on`: the next phase and the face to
/// give the icon, if it changes. Without a tray nothing happens; with unread
/// items the phase flips; with none the icon returns to its normal face.
pub open spec fn blink_tick_spec(on: bool, unread: int, tray_present: bool) -> (bool, Option<TrayIcon>) {
    if !tray_present {
        (on, None)
    } else if unread > 0 {
        (!on, Some(icon_for(!on)))
    } else if !on {
        (true, Some(TrayIcon::Normal))
    } else {
        (true, None)
    }
}

/// The face the icon shows after a tick that started with face `shown`.
pub open spec fn face_after(shown: TrayIcon, set: Option<TrayIcon>) -> TrayIcon {
    match set {
        Some(f) => f,
        None => shown,
    }
}

/// The icon's face always matches the blink phase: if it did before a tick,
/// it does after it.
pub proof fn face_follows_phase(on: bool, shown: TrayIcon, unread: int, tray_present: bool)
    requires
        shown == icon_for(on),
    ensures
        face_after(shown, blink_tick_spec(on, unread, tray_present).1)
            == icon_for(blink_tick_spec(on, unread, tray_present).0),
{
}

/// While items are unread, the icon alternates: two ticks bring it back to
/// the phase it started in, through the other one.
pub proof fn blink_alternates(on: bool, first: int, second: int)
    requires
        first > 0,
        second > 0,
    ensures
        blink_tick_spec(on, first, true).0 == !on,
        blink_tick_spec(blink_tick_spec(on, first, true).0, second, true).0 == on,
{
}

/// Once nothing is unread, one tick shows the normal face, and from then on
/// ticks without unread items change nothing.
pub proof fn blink_settles_when_read(on: bool, unread: int, later: int)
    requires
        unread <= 0,
        later <= 0,
    ensures
        blink_tick_spec(on, unread, true).0,
        face_after(icon_for(on), blink_tick_spec(on, unread, true).1) == TrayIcon::Normal,
        blink_tick_spec(blink_tick_spec(on, unread, true).0, later, true) == (true, None::<TrayIcon>),
{
}

/// What an item of the tray menu does.
#[derive(Clone, Copy, Debug, PartialEq, Eq)]
pub enum MenuAction {
    ShowMain,
    Quit,
    Ignore,
}

/// The action for the menu item with id `id`: "show" brings the main window
/// up, "quit" leaves the program, anything else does nothing.
pub fn menu_action(id: &str) -> (a: MenuAction)
    ensures
        id@ == "show"@ ==> a == MenuAction::ShowMain,
        id@ != "show"@ && id@ == "quit"@ ==> a == MenuAction::Quit,
        id@ != "show"@ && id@ != "quit"@ ==> a == MenuAction::Ignore,
{
    if str_eq(id, "show") {
        MenuAction::ShowMain
    } else if str_eq(id, "quit") {
        MenuAction::Quit
    } else {
        MenuAction::Ignore
    }
}

/// A mouse button on the tray icon.
#[derive(Clone, Copy, Debug, PartialEq, Eq)]
pub enum PointerButton {
    Left,
    Right,
    Middle,
}

/// Whether a button went down or came up.
#[derive(Clone, Copy, Debug, PartialEq, Eq)]
pub enum ButtonState {
    Up,
    Down,
}

/// An event on the tray icon, as far as the shell tells them apart.
#[derive(Clone, Copy, Debug, PartialEq, Eq)]
pub enum TrayPointerEvent {
    Click { button: PointerButton, state: ButtonState },
    Other,
}

/// Whether a tray icon event brings the main window up: only the release of
/// a left click does.
pub fn click_shows_main(event: TrayPointerEvent) -> (show: bool)
    ensures
        show <==> event == (TrayPointerEvent::Click { button: PointerButton::Left, state: ButtonState::Up }),
{
    match event {
        TrayPointerEvent::Click { button: PointerButton::Left, state: ButtonState::Up } => true,
        _ => false,
    }
}

/// Whether to ask for the user's attention (the taskbar flash) on a new
/// item: only when the main window exists and is not known to be focused.
/// `focused` is `None` when the focus could not be read.
pub fn needs_attention(window_present: bool, focused: Option<bool>) -> (ask: bool)
    ensures
        ask <==> window_present && focused != Some(true),
{
    window_present && !match focused {
        Some(f) => f,
        None => false,
    }
}

/// The pixels of the blank icon face: `width * height` RGBA pixels, all zero.
pub fn blank_icon_rgba(width: u32, height: u32) -> (px: Vec<u8>)
    requires
        width * height * 4 <= u32::MAX,
    ensures
        px@.len() == width * height * 4,
        forall|i: int| 0 <= i < px@.len() ==> px@[i] == 0,
{
    let n: u32 = width * height * 4;
    vec![0u8; n as usize]
}

} // verus!

