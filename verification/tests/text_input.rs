use winio_ui::cookies::{
    cookie_from_web_view, expiration_from_web_view, expires_timestamp, is_session, same_site_from_kind,
    same_site_kind, same_site_set_by_kind, CookieError, CookieRecord, Expiration, SameSite,
    MAX_UNIX_TIMESTAMP, MIN_UNIX_TIMESTAMP,
};
use winio_ui::font::{
    face_name, family_of_face_name, font_style, is_bold, is_italic, FontCache,
};
use winio_ui::keyboard::{
    hid_key, key_code, keyboard_action, reported_key, types_text, KeyCode, KeyboardAction,
};
use winio_ui::text::{before_nul, crlf_to_lf, fix_crlf};
use winio_ui::tooltip::{ToolMessage, TooltipChange, Tooltips};

#[test]
fn fix_crlf_adds_carriage_returns() {
    assert_eq!(fix_crlf("a\nb"), "a\r\nb");
    assert_eq!(fix_crlf("a\r\nb"), "a\r\nb");
    assert_eq!(fix_crlf("\n"), "\r\n");
    assert_eq!(fix_crlf("\n\n"), "\r\n\r\n");
    assert_eq!(fix_crlf("é\nü"), "é\r\nü");
    assert_eq!(fix_crlf(""), "");
}

#[test]
fn crlf_to_lf_collapses_pairs() {
    assert_eq!(crlf_to_lf("a\r\nb"), "a\nb");
    assert_eq!(crlf_to_lf("\r\r\n"), "\r\n");
    assert_eq!(crlf_to_lf("a\rb"), "a\rb");
    assert_eq!(crlf_to_lf(""), "");
}

#[test]
fn text_round_trips_through_a_control() {
    for s in ["", "one", "a\nb\n", "\n\nx", "tab\there\r", "ü\nß"] {
        assert_eq!(crlf_to_lf(&fix_crlf(s)), s);
    }
}

#[test]
fn before_nul_cuts_at_first_nul() {
    assert_eq!(before_nul("ab\0cd"), "ab");
    assert_eq!(before_nul("abc"), "abc");
    assert_eq!(before_nul("\0"), "");
}

#[test]
fn tooltip_add_update_delete_remove() {
    let mut t = Tooltips::new();
    assert_eq!(t.tooltip(1), None);
    assert_eq!(
        t.set_tooltip(1, "hi\nthere"),
        TooltipChange::Shown { created: true, message: ToolMessage::Add, text: "hi\r\nthere".to_string() }
    );
    assert_eq!(t.tooltip(1), Some("hi\nthere".to_string()));
    assert_eq!(
        t.set_tooltip(1, "next"),
        TooltipChange::Shown { created: false, message: ToolMessage::Update, text: "next".to_string() }
    );
    assert_eq!(
        t.set_tooltip(1, "\0hidden"),
        TooltipChange::Shown { created: false, message: ToolMessage::Delete, text: String::new() }
    );
    assert_eq!(
        t.set_tooltip(1, "back"),
        TooltipChange::Shown { created: false, message: ToolMessage::Add, text: "back".to_string() }
    );
    assert_eq!(t.set_tooltip(1, ""), TooltipChange::Removed { existed: true });
    assert_eq!(t.set_tooltip(1, ""), TooltipChange::Removed { existed: false });
    assert_eq!(t.tooltip(1), None);
    t.set_tooltip(2, "x");
    assert!(t.remove_tooltip(2));
    assert!(!t.remove_tooltip(2));
}

#[test]
fn keyboard_subclass_actions() {
    assert_eq!(keyboard_action(135, 0, 0), KeyboardAction::DialogCode(135));
    assert_eq!(
        keyboard_action(256, 0x41, 0),
        KeyboardAction::Key { down: true, forward: false, virtual_key: Some(0x41) }
    );
    assert_eq!(
        keyboard_action(261, 0x12, 0),
        KeyboardAction::Key { down: false, forward: true, virtual_key: Some(0x12) }
    );
    assert_eq!(
        keyboard_action(257, 0x1_0000, 0),
        KeyboardAction::Key { down: false, forward: false, virtual_key: None }
    );
    assert_eq!(
        keyboard_action(258, 0x61, 0x0003_0002),
        KeyboardAction::Chars { forward: false, unit: 0x61, repeat: 2 }
    );
    assert_eq!(
        keyboard_action(262, 0x61, 1),
        KeyboardAction::Chars { forward: true, unit: 0x61, repeat: 1 }
    );
    assert_eq!(keyboard_action(130, 0, 0), KeyboardAction::Detach);
    assert_eq!(keyboard_action(15, 0, 0), KeyboardAction::PassOn);
}

#[test]
fn hid_usages_map_to_keys() {
    assert_eq!(hid_key(0x2A), Some(KeyCode::Backspace));
    assert_eq!(hid_key(0x28), Some(KeyCode::Enter));
    assert_eq!(hid_key(0x58), Some(KeyCode::Enter));
    assert_eq!(hid_key(0x50), Some(KeyCode::Left));
    assert_eq!(hid_key(0xE5), Some(KeyCode::Shift));
    assert_eq!(hid_key(0x3A), Some(KeyCode::F(1)));
    assert_eq!(hid_key(0x45), Some(KeyCode::F(12)));
    assert_eq!(hid_key(0x68), Some(KeyCode::F(13)));
    assert_eq!(hid_key(0x73), Some(KeyCode::F(24)));
    assert_eq!(hid_key(0x04), None);
    assert_eq!(key_code(0x04, KeyCode::Char('q')), KeyCode::Char('q'));
    assert_eq!(key_code(0x29, KeyCode::Char('q')), KeyCode::Esc);
}

#[test]
fn only_text_keys_type_text() {
    assert!(types_text(false, KeyCode::Char('a')));
    assert!(types_text(false, KeyCode::Unidentified));
    assert!(types_text(false, KeyCode::Enter));
    assert!(!types_text(true, KeyCode::Char('a')));
    assert!(!types_text(false, KeyCode::Left));
    assert!(!types_text(false, KeyCode::F(3)));
}

#[test]
fn font_styles_read_back() {
    let s = font_style(true, true, false);
    assert_eq!((s.weight, s.italic, s.underline), (700, 1, 0));
    let s = font_style(false, false, true);
    assert_eq!((s.weight, s.italic, s.underline), (400, 0, 1));
    assert!(is_bold(700));
    assert!(is_bold(600));
    assert!(!is_bold(599));
    assert!(is_italic(1));
    assert!(!is_italic(0));
}

#[test]
fn face_names_are_cut_to_31_units() {
    let family: Vec<u16> = "Segoe UI".encode_utf16().collect();
    let face = face_name(&family);
    assert_eq!(face.len(), 32);
    assert_eq!(family_of_face_name(&face), family);
    let long: Vec<u16> = (0..40).map(|i| 0x41 + i as u16).collect();
    let face = face_name(&long);
    assert_eq!(face[31], 0);
    assert_eq!(family_of_face_name(&face), long[..31].to_vec());
}

#[test]
fn font_cache_by_dpi() {
    let mut c = FontCache::new();
    assert_eq!(c.cached(96), None);
    c.remember(96, 0xABC);
    assert_eq!(c.cached(96), Some(0xABC));
    assert_eq!(c.cached(144), None);
    c.forget(96);
    assert_eq!(c.cached(96), None);
}

#[test]
fn same_site_kinds() {
    assert_eq!(same_site_from_kind(0), Some(SameSite::NoRestriction));
    assert_eq!(same_site_from_kind(1), Some(SameSite::Lax));
    assert_eq!(same_site_from_kind(2), Some(SameSite::Strict));
    assert_eq!(same_site_from_kind(3), None);
    assert_eq!(same_site_kind(None), 1);
    assert_eq!(same_site_kind(Some(SameSite::Strict)), 2);
    assert_eq!(same_site_set_by_kind(9), SameSite::Lax);
    for s in [SameSite::Strict, SameSite::Lax, SameSite::NoRestriction] {
        assert_eq!(same_site_from_kind(same_site_kind(Some(s))), Some(s));
    }
}

#[test]
fn expirations_within_the_date_range() {
    assert_eq!(expiration_from_web_view(1_546_300_800, false), Ok(Expiration::DateTime(1_546_300_800)));
    assert_eq!(expiration_from_web_view(i64::MAX, true), Ok(Expiration::Session));
    assert_eq!(expiration_from_web_view(MAX_UNIX_TIMESTAMP, false), Ok(Expiration::DateTime(MAX_UNIX_TIMESTAMP)));
    assert_eq!(expiration_from_web_view(MIN_UNIX_TIMESTAMP, false), Ok(Expiration::DateTime(MIN_UNIX_TIMESTAMP)));
    assert_eq!(expiration_from_web_view(MAX_UNIX_TIMESTAMP + 1, false), Err(CookieError::InvalidArg));
    assert_eq!(expiration_from_web_view(MIN_UNIX_TIMESTAMP - 1, false), Err(CookieError::InvalidArg));
    assert_eq!(expires_timestamp(Some(Expiration::DateTime(5))), Some(5));
    assert_eq!(expires_timestamp(Some(Expiration::Session)), None);
    assert!(is_session(Some(Expiration::Session)));
    assert!(!is_session(None));
}

#[test]
fn cookie_read_from_web_view() {
    let c = cookie_from_web_view("id", "42", "example.com", "/", 0, true, false, 2, false).unwrap();
    assert_eq!(c.name, "id");
    assert_eq!(c.value, "42");
    assert_eq!(c.domain.as_deref(), Some("example.com"));
    assert_eq!(c.path.as_deref(), Some("/"));
    assert_eq!(c.expires, Some(Expiration::DateTime(0)));
    assert_eq!(c.secure, Some(true));
    assert_eq!(c.http_only, Some(false));
    assert_eq!(c.same_site, Some(SameSite::Strict));
    assert!(cookie_from_web_view("a", "b", "", "", 0, false, false, 7, true).is_err());
    assert!(cookie_from_web_view("a", "b", "", "", i64::MIN, false, false, 1, false).is_err());
    let s = cookie_from_web_view("a", "b", "", "", i64::MIN, false, false, 1, true).unwrap();
    assert_eq!(s.expires, Some(Expiration::Session));
}

#[test]
fn cookie_record_fields_for_web_view() {
    let mut c = CookieRecord::new("n", "v");
    assert_eq!(c.domain_or_empty(), "");
    assert_eq!(c.path_or_empty(), "");
    assert!(!c.is_secure());
    assert!(!c.is_http_only());
    assert_eq!(c.same_site_kind(), 1);
    assert!(!c.is_session());
    c.set_same_site_kind(0);
    assert_eq!(c.same_site, Some(SameSite::NoRestriction));
    assert_eq!(c.set_expires(-5, true), Ok(()));
    assert!(c.is_session());
    assert_eq!(c.set_expires(i64::MAX, false), Err(CookieError::InvalidArg));
    assert!(c.is_session());
    assert_eq!(c.set_expires(100, false), Ok(()));
    assert_eq!(c.expires, Some(Expiration::DateTime(100)));
}

#[test]
fn kinds_read_and_set_agree() {
    for k in 0..3 {
        assert_eq!(same_site_from_kind(k), Some(same_site_set_by_kind(k)));
        assert_eq!(same_site_kind(same_site_from_kind(k)), k);
    }
}

#[test]
fn complete_cookie_reads_back_the_same() {
    let mut r = CookieRecord::new("sid", "abc");
    r.domain = Some("example.org".to_string());
    r.path = Some("/app".to_string());
    r.secure = Some(true);
    r.http_only = Some(true);
    r.same_site = Some(SameSite::NoRestriction);
    for e in [Expiration::Session, Expiration::DateTime(1_700_000_000)] {
        r.expires = Some(e);
        let back = cookie_from_web_view(
            &r.name,
            &r.value,
            &r.domain_or_empty(),
            &r.path_or_empty(),
            expires_timestamp(r.expires).unwrap_or(-1),
            r.is_secure(),
            r.is_http_only(),
            r.same_site_kind(),
            r.is_session(),
        )
        .unwrap();
        assert_eq!(back.name, r.name);
        assert_eq!(back.value, r.value);
        assert_eq!(back.domain, r.domain);
        assert_eq!(back.path, r.path);
        assert_eq!(back.expires, r.expires);
        assert_eq!(back.secure, r.secure);
        assert_eq!(back.http_only, r.http_only);
        assert_eq!(back.same_site, r.same_site);
    }
}

#[test]
fn cookie_domain_loses_one_leading_dot() {
    let mut r = CookieRecord::new("sid", "abc");
    r.domain = Some(".example.org".to_string());
    assert_eq!(r.domain_or_empty(), "example.org");
    r.domain = Some("..example.org".to_string());
    assert_eq!(r.domain_or_empty(), ".example.org");
    r.domain = Some(".".to_string());
    assert_eq!(r.domain_or_empty(), "");
    r.domain = Some("example.org".to_string());
    assert_eq!(r.domain_or_empty(), "example.org");
}

#[test]
fn wide_virtual_key_is_unidentified() {
    let a = keyboard_action(0x100, 0x1_0000, 0);
    assert_eq!(a, KeyboardAction::Key { down: true, forward: false, virtual_key: None });
    assert_eq!(reported_key(None), KeyCode::Unidentified);
    assert_eq!(reported_key(Some(KeyCode::Enter)), KeyCode::Enter);
    let b = keyboard_action(0x101, 13, 0);
    assert_eq!(b, KeyboardAction::Key { down: false, forward: false, virtual_key: Some(13) });
}
