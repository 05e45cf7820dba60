use gossip::relay_entry::{
    Color, DbRelay, EditButtonFace, Paint, RelayEntry, RelayEntryView, ADVERTISE, DISCOVER, INBOX,
    OUTBOX, READ, WRITE,
};

fn relay(usage_bits: u64) -> DbRelay {
    DbRelay {
        url: "wss://relay.example.com".to_string(),
        success_count: 3,
        failure_count: 1,
        last_connected_at: None,
        last_general_eose_at: Some(1700000000),
        usage_bits,
    }
}

const ACCENT: Color = Color { r: 10, g: 20, b: 30, a: 255 };

#[test]
fn new_entry_defaults() {
    let r = relay(0);
    let e = RelayEntry::new(&r);
    assert_eq!(e.view(), RelayEntryView::List);
    assert!(e.is_active());
    assert_eq!(e.title_color(), Paint::Text);
    assert_eq!(e.frame_fill(), Paint::FaintBackground);
    assert!(!e.shows_overlay());
    assert_eq!(e.relay().url, "wss://relay.example.com");
}

#[test]
fn edit_switches_view_only_when_asked() {
    let r = relay(0);
    assert_eq!(RelayEntry::new(&r).edit(false).view(), RelayEntryView::List);
    assert_eq!(RelayEntry::new(&r).edit(true).view(), RelayEntryView::Edit);
    assert_eq!(RelayEntry::new(&r).edit(true).edit(false).view(), RelayEntryView::Edit);
}

#[test]
fn builders_set_their_field() {
    let r = relay(READ);
    let e = RelayEntry::new(&r)
        .set_active(false)
        .user_count(4)
        .fill(ACCENT)
        .accent(ACCENT)
        .highlight(ACCENT)
        .option_symbol(7);
    assert!(!e.is_active());
    assert!(e.shows_overlay());
    assert_eq!(e.title_color(), Paint::InactiveForeground);
    assert_eq!(e.frame_fill(), Paint::Custom(ACCENT));
    assert_eq!(e.view(), RelayEntryView::List);
}

#[test]
fn title_uses_accent_when_active() {
    let r = relay(READ);
    assert_eq!(RelayEntry::new(&r).accent(ACCENT).title_color(), Paint::Custom(ACCENT));
}

#[test]
fn has_usage_bits_needs_every_bit() {
    let r = relay(READ | INBOX);
    assert!(r.has_usage_bits(READ));
    assert!(r.has_usage_bits(READ | INBOX));
    assert!(!r.has_usage_bits(READ | WRITE));
    assert!(r.has_usage_bits(0));
}

#[test]
fn usage_summary_cases() {
    let summary = |bits: u64| {
        let r = relay(bits);
        RelayEntry::new(&r).usage_summary()
    };
    assert_eq!(summary(0), "");
    assert_eq!(summary(INBOX | OUTBOX), "");
    assert_eq!(summary(READ), "private read");
    assert_eq!(summary(READ | INBOX), "public read");
    assert_eq!(summary(WRITE), "private write");
    assert_eq!(summary(WRITE | OUTBOX), "public write");
    assert_eq!(summary(ADVERTISE), "advertise");
    assert_eq!(summary(DISCOVER), "discover");
    assert_eq!(
        summary(READ | INBOX | WRITE | ADVERTISE | DISCOVER),
        "public read, private write, advertise, discover"
    );
    assert_eq!(summary(63), "public read, public write, advertise, discover");
    for bits in 0u64..64 {
        assert!(!summary(bits).ends_with(", "));
    }
}

#[test]
fn pick_up_button_opens_editor_when_clicked() {
    let r = relay(0);
    let mut e = RelayEntry::new(&r);
    let b = e.paint_edit_btn(false, false);
    assert_eq!(b.face, EditButtonFace::PickUpLabel);
    assert_eq!(b.color, Paint::Text);
    assert!(!b.underline);
    assert_eq!(e.view(), RelayEntryView::List);
    let b = e.paint_edit_btn(true, true);
    assert_eq!(b.color, Paint::HoveredForeground);
    assert!(b.underline);
    assert_eq!(e.view(), RelayEntryView::Edit);
}

#[test]
fn pick_up_button_inactive_does_nothing() {
    let r = relay(0);
    let mut e = RelayEntry::new(&r).set_active(false).accent(ACCENT);
    let b = e.paint_edit_btn(true, true);
    assert_eq!(b.color, Paint::InactiveForeground);
    assert!(!b.underline);
    assert_eq!(e.view(), RelayEntryView::List);
}

#[test]
fn gear_button_for_used_relay() {
    let r = relay(READ);
    let mut e = RelayEntry::new(&r).accent(ACCENT);
    let b = e.paint_edit_btn(true, true);
    assert_eq!(b.face, EditButtonFace::Gear);
    assert_eq!(b.color, Paint::Custom(ACCENT));
    assert!(!b.underline);
    assert_eq!(e.view(), RelayEntryView::List);
    let mut e = RelayEntry::new(&r).option_symbol(9);
    let b = e.paint_edit_btn(false, false);
    assert_eq!(b.face, EditButtonFace::Symbol(9));
    assert_eq!(b.color, Paint::Text);
}

#[test]
fn following_label_cases() {
    let r = relay(READ);
    let l = RelayEntry::new(&r).following_label(true);
    assert_eq!(l.text, "Following: ---");
    assert_eq!(l.color, Paint::WeakText);
    assert!(!l.underline && !l.pointing_hand);

    let l = RelayEntry::new(&r).user_count(12).following_label(false);
    assert_eq!(l.text, "Following: 12");
    assert_eq!(l.color, Paint::Text);
    assert!(l.underline && l.pointing_hand);

    let l = RelayEntry::new(&r).user_count(0).accent(ACCENT).following_label(true);
    assert_eq!(l.text, "Following: 0");
    assert_eq!(l.color, Paint::Custom(ACCENT));

    let l = RelayEntry::new(&r).user_count(5).set_active(false).following_label(true);
    assert_eq!(l.text, "Following: 5");
    assert_eq!(l.color, Paint::WeakText);
    assert!(!l.pointing_hand);
}

#[test]
fn last_seen_texts() {
    let r = relay(READ);
    let e = RelayEntry::new(&r);
    assert_eq!(e.last_event_text("2h"), "Last event: 2h");
    assert_eq!(e.last_connection_text("5m"), "Last connection: ?");
    let mut seen = relay(READ);
    seen.last_general_eose_at = None;
    seen.last_connected_at = Some(1_700_000_100);
    let e = RelayEntry::new(&seen);
    assert_eq!(e.last_event_text("5m"), "Last event: ?");
    assert_eq!(e.last_connection_text("3d"), "Last connection: 3d");
}
