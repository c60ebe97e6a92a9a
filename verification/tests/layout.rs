use qubeherd::layout::{
    code_name, normalize, Change, Handshake, KdeLayouts, LayoutError, Signals, LAYOUT_EN,
    LAYOUT_RU,
};

fn entry(short_name: &str) -> (String, String, String) {
    (short_name.to_string(), String::new(), "a layout".to_string())
}

fn following(names: &[&str]) -> KdeLayouts {
    let list = names.iter().map(|name| entry(name)).collect();
    KdeLayouts::connect(Handshake::Answered(Some(list))).expect("answered")
}

#[test]
fn maps_the_layout_names_kde_actually_reports() {
    // getLayoutsList yields xkb short names: ("us", "", "English (US)").
    assert_eq!(normalize("us"), Some(LAYOUT_EN));
    assert_eq!(normalize("ru"), Some(LAYOUT_RU));
    assert_eq!(normalize("en-US"), Some(LAYOUT_EN));
    assert_eq!(normalize("russianwin"), Some(LAYOUT_RU));
    assert_eq!(normalize("de"), None);
}

#[test]
fn variants_capitals_and_blanks_make_no_difference() {
    for name in ["us(intl)", "us:dvorak", "us.mac", "us@x", "us_x", "  US\t", "\u{a0}gb\u{3000}"] {
        assert_eq!(normalize(name), Some(LAYOUT_EN), "{name}");
    }
    for name in ["RU-phonetic", "Russian", "russian_mac", "\nru(winkeys) "] {
        assert_eq!(normalize(name), Some(LAYOUT_RU), "{name}");
    }
    for name in ["", " ", "-us", "u s", "russ", "ruu", "usa", "(ru)", "рус"] {
        assert_eq!(normalize(name), None, "{name}");
    }
    for name in ["en", "us", "gb", "uk", "au", "ca"] {
        assert_eq!(normalize(name), Some(LAYOUT_EN), "{name}");
    }
}

#[test]
fn codes_have_names() {
    assert_eq!(code_name(LAYOUT_RU), "ru");
    assert_eq!(code_name(LAYOUT_EN), "en");
    assert_eq!(code_name(77), "en");
}

#[test]
fn an_index_is_a_position_in_the_list() {
    let layouts = following(&["us", "ru", "de"]);
    assert_eq!(layouts.code_for_index(0), Some(LAYOUT_EN));
    assert_eq!(layouts.code_for_index(1), Some(LAYOUT_RU));
    assert_eq!(layouts.code_for_index(2), None);
    assert_eq!(layouts.code_for_index(3), None);
    assert!(!layouts.needs_refresh(2));
    assert!(layouts.needs_refresh(3));
}

#[test]
fn a_reordered_list_is_followed() {
    let mut layouts = following(&["us", "ru"]);
    layouts.refresh_names(Some(vec![entry("ru"), entry("us")]));
    assert_eq!(layouts.code_for_index(0), Some(LAYOUT_RU));
    assert_eq!(layouts.code_for_index(1), Some(LAYOUT_EN));
}

#[test]
fn an_unanswered_list_leaves_the_names() {
    let mut layouts = following(&["us", "ru"]);
    layouts.refresh_names(None);
    assert_eq!(layouts.code_for_index(1), Some(LAYOUT_RU));
}

#[test]
fn connecting_needs_an_answer_but_no_list() {
    assert_eq!(KdeLayouts::connect(Handshake::TimedOut), Err(LayoutError::TimedOut));
    assert_eq!(
        KdeLayouts::connect(Handshake::Failed("no bus".to_string())),
        Err(LayoutError::Failed("no bus".to_string()))
    );
    let bare = KdeLayouts::connect(Handshake::Answered(None)).expect("answered");
    assert!(bare.needs_refresh(0));
}

#[test]
fn a_missing_service_is_told_in_words() {
    assert_eq!(
        LayoutError::TimedOut.to_text(),
        "the layout service did not answer within 5s"
    );
    assert_eq!(LayoutError::Failed("no bus".to_string()).to_text(), "no bus");
}

#[test]
fn a_service_has_to_name_its_active_layout() {
    let list = || Some(vec![entry("us")]);
    assert_eq!(Handshake::answered(Ok(0), list()), Handshake::Answered(list()));
    assert_eq!(Handshake::answered(Ok(9), None), Handshake::Answered(None));
    assert_eq!(
        Handshake::answered(Err("no owner".to_string()), list()),
        Handshake::Failed("no owner".to_string())
    );
    assert_eq!(
        KdeLayouts::connect(Handshake::answered(Err("no owner".to_string()), None)),
        Err(LayoutError::Failed("no owner".to_string()))
    );
}

#[test]
fn the_end_of_either_stream_loses_the_service() {
    assert_eq!(Signals::Changed(4).next(), Change::Active(4));
    assert_eq!(Signals::ChangedUnreadable.next(), Change::Unreadable);
    assert_eq!(Signals::ListChanged.next(), Change::ListEdited);
    assert_eq!(Signals::ChangedEnded.next(), Change::Lost);
    assert_eq!(Signals::ListEnded.next(), Change::Lost);
}
