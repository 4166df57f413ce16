use dtw_merchant::creds::{push_creds_json, strip_value_text};
use dtw_merchant::text::decimal_string;
use dtw_merchant::update::{update_notice_text, update_step, UpdateAction, UpdateEvent, UpdateState};
use dtw_merchant::window::{
    resolve_save_choice, suggested_file_name, window_layout, Rect, TITLEBAR_HEIGHT, WINDOW_HEIGHT,
    WINDOW_WIDTH,
};

#[test]
fn decimal_matches_display() {
    for n in [0i64, 7, 10, 42, 100, -1, -5, -90, i64::MAX, i64::MIN] {
        assert_eq!(decimal_string(n), format!("{}", n));
    }
}

#[test]
fn creds_strip_quotes_and_backslashes() {
    assert_eq!(strip_value_text(r#"a"b\c"#), "abc");
    assert_eq!(strip_value_text("令牌"), "令牌");
    assert_eq!(push_creds_json(r#"tok"en\"#, "12"), r#"{"token":"token","mid":"12"}"#);
    assert_eq!(push_creds_json("", ""), r#"{"token":"","mid":""}"#);
}

#[test]
fn creds_text_parses_as_json() {
    let text = push_creds_json(r#"x"},"y":"z"#, "m\\");
    let v: serde_json::Value = serde_json::from_str(&text).unwrap();
    assert_eq!(v["token"], "x},y:z");
    assert_eq!(v["mid"], "m");
}

#[test]
fn creds_text_is_the_json_object_of_stripped_values() {
    for (token, mid) in [("abc.def", "42"), ("令牌 x/y", ""), (r#"q"u\o"#, r#"1"2"#)] {
        let text = push_creds_json(token, mid);
        let v: serde_json::Value = serde_json::from_str(&text).unwrap();
        let object = v.as_object().unwrap();
        assert_eq!(object.len(), 2);
        assert_eq!(object["token"], strip_value_text(token).as_str());
        assert_eq!(object["mid"], strip_value_text(mid).as_str());
    }
}

#[test]
fn update_notice_names_version() {
    assert_eq!(
        update_notice_text("1.0.6"),
        "发现新版本 1.0.6，需要更新后才能继续使用。点击确定开始更新，完成后会自动重启。"
    );
}

#[test]
fn update_flow_installs_and_restarts() {
    let (s, a) = update_step(UpdateState::Starting, UpdateEvent::UpdaterReady(true));
    assert_eq!((&s, &a), (&UpdateState::Checking, &UpdateAction::Check));
    let (s, a) = update_step(s, UpdateEvent::Available("2.0.0".to_string()));
    assert_eq!(s, UpdateState::Notifying("2.0.0".to_string()));
    assert_eq!(
        a,
        UpdateAction::Notify {
            title: "有新版本".to_string(),
            text: "发现新版本 2.0.0，需要更新后才能继续使用。点击确定开始更新，完成后会自动重启。".to_string(),
        }
    );
    let (s, a) = update_step(s, UpdateEvent::NoticeClosed);
    assert_eq!((&s, &a), (&UpdateState::Installing("2.0.0".to_string()), &UpdateAction::DownloadAndInstall));
    let (s, a) = update_step(s, UpdateEvent::Installed(true));
    assert_eq!((&s, &a), (&UpdateState::Finished, &UpdateAction::Restart));
}

#[test]
fn update_flow_stops_quietly() {
    let (s, a) = update_step(UpdateState::Starting, UpdateEvent::UpdaterReady(false));
    assert_eq!((&s, &a), (&UpdateState::Finished, &UpdateAction::Nothing));
    let (s, a) = update_step(UpdateState::Checking, UpdateEvent::UpToDate);
    assert_eq!((&s, &a), (&UpdateState::Finished, &UpdateAction::Nothing));
    let (s, a) = update_step(UpdateState::Checking, UpdateEvent::CheckFailed);
    assert_eq!((&s, &a), (&UpdateState::Finished, &UpdateAction::Nothing));
}

#[test]
fn update_failed_install_shows_notice_and_retries() {
    let v = "1.0.7".to_string();
    let (s, a) = update_step(UpdateState::Installing(v.clone()), UpdateEvent::Installed(false));
    assert_eq!(s, UpdateState::Notifying(v.clone()));
    assert_eq!(
        a,
        UpdateAction::Notify {
            title: "有新版本".to_string(),
            text: "发现新版本 1.0.7，需要更新后才能继续使用。点击确定开始更新，完成后会自动重启。".to_string(),
        }
    );
    let (s, a) = update_step(s, UpdateEvent::NoticeClosed);
    assert_eq!((&s, &a), (&UpdateState::Installing(v.clone()), &UpdateAction::DownloadAndInstall));
    let (s, a) = update_step(s, UpdateEvent::Installed(false));
    assert_eq!(s, UpdateState::Notifying(v.clone()));
    assert!(matches!(a, UpdateAction::Notify { .. }));
}

#[test]
fn update_notice_cannot_be_skipped() {
    let n = UpdateState::Notifying("3.1.0".to_string());
    let (s, a) = update_step(UpdateState::Notifying("3.1.0".to_string()), UpdateEvent::Installed(true));
    assert_eq!((&s, &a), (&n, &UpdateAction::Nothing));
    let (s, a) = update_step(UpdateState::Notifying("3.1.0".to_string()), UpdateEvent::UpToDate);
    assert_eq!((&s, &a), (&n, &UpdateAction::Nothing));
    let (s, a) = update_step(UpdateState::Notifying("3.1.0".to_string()), UpdateEvent::CheckFailed);
    assert_eq!((&s, &a), (&n, &UpdateAction::Nothing));
    let (s, a) = update_step(UpdateState::Finished, UpdateEvent::NoticeClosed);
    assert_eq!((&s, &a), (&UpdateState::Finished, &UpdateAction::Nothing));
}

#[test]
fn layout_titlebar_over_content() {
    let l = window_layout();
    assert_eq!(l.titlebar, Rect { x: 0, y: 0, width: 1280, height: 34 });
    assert_eq!(l.content, Rect { x: 0, y: 34, width: 1280, height: 766 });
    assert_eq!(l.titlebar.height + l.content.height, WINDOW_HEIGHT);
    assert_eq!(l.content.y, TITLEBAR_HEIGHT);
    assert_eq!(l.content.width, WINDOW_WIDTH);
}

#[test]
fn download_name_falls_back_to_poster() {
    assert_eq!(suggested_file_name(Some("a.png".to_string())), "a.png");
    assert_eq!(suggested_file_name(Some(String::new())), "极序排队-海报.png");
    assert_eq!(suggested_file_name(None), "极序排队-海报.png");
}

#[test]
fn save_choice() {
    assert_eq!(resolve_save_choice::<u8>(None), (false, None));
    assert_eq!(resolve_save_choice(Some(Some(3u8))), (true, Some(3)));
    assert_eq!(resolve_save_choice::<u8>(Some(None)), (true, None));
}
