use sofka::altscroll::{KeyCode, KeyEvent, KeyEventKind, Repair, MOD_ALT, MOD_CONTROL, MOD_NONE};

fn press(code: KeyCode) -> KeyEvent {
    KeyEvent::new(code, MOD_NONE)
}

fn codes(keys: Vec<KeyEvent>) -> Vec<KeyCode> {
    keys.into_iter().map(|k| k.code).collect()
}

#[test]
fn ordinary_keys_pass_straight_through() {
    let mut r = Repair::default();
    for code in [KeyCode::Char('j'), KeyCode::Down, KeyCode::Enter] {
        assert_eq!(codes(r.push(press(code))), vec![code]);
        assert!(!r.pending());
    }
}

#[test]
fn split_csi_and_ss3_sequences_become_cursor_keys() {
    for intro in ['[', 'O'] {
        for (final_byte, want) in [
            ('A', KeyCode::Up),
            ('B', KeyCode::Down),
            ('C', KeyCode::Right),
            ('D', KeyCode::Left),
        ] {
            let mut r = Repair::default();
            assert!(r.push(press(KeyCode::Esc)).is_empty());
            assert!(r.pending(), "esc is held while the tail is awaited");
            assert!(r.push(press(KeyCode::Char(intro))).is_empty());
            assert_eq!(codes(r.push(press(KeyCode::Char(final_byte)))), vec![want]);
            assert!(!r.pending());
        }
    }
}

#[test]
fn a_burst_of_split_scrolls_never_yields_an_esc() {
    let mut r = Repair::default();
    let mut out = Vec::new();
    for _ in 0..50 {
        for code in [KeyCode::Esc, KeyCode::Char('['), KeyCode::Char('B')] {
            out.extend(codes(r.push(press(code))));
        }
    }
    assert_eq!(out, vec![KeyCode::Down; 50]);
    assert!(!r.pending());
}

#[test]
fn a_real_esc_press_survives_the_timeout_flush() {
    let mut r = Repair::default();
    assert!(r.push(press(KeyCode::Esc)).is_empty());
    assert_eq!(codes(r.flush()), vec![KeyCode::Esc]);
    assert!(!r.pending());
    assert!(r.flush().is_empty(), "flushing twice is a no-op");
}

#[test]
fn esc_followed_by_another_key_releases_both_in_order() {
    let mut r = Repair::default();
    assert!(r.push(press(KeyCode::Esc)).is_empty());
    assert_eq!(
        codes(r.push(press(KeyCode::Char('j')))),
        vec![KeyCode::Esc, KeyCode::Char('j')]
    );
    assert!(!r.pending());
}

#[test]
fn repeated_esc_presses_all_get_through() {
    let mut r = Repair::default();
    assert!(r.push(press(KeyCode::Esc)).is_empty());
    assert_eq!(codes(r.push(press(KeyCode::Esc))), vec![KeyCode::Esc]);
    assert_eq!(codes(r.flush()), vec![KeyCode::Esc]);
}

#[test]
fn an_unfinished_sequence_replays_what_it_swallowed() {
    let mut r = Repair::default();
    assert!(r.push(press(KeyCode::Esc)).is_empty());
    assert!(r.push(press(KeyCode::Char('['))).is_empty());
    assert_eq!(
        codes(r.push(press(KeyCode::Char('x')))),
        vec![KeyCode::Esc, KeyCode::Char('['), KeyCode::Char('x')]
    );

    let mut r = Repair::default();
    assert!(r.push(press(KeyCode::Esc)).is_empty());
    assert!(r.push(press(KeyCode::Char('['))).is_empty());
    assert_eq!(codes(r.flush()), vec![KeyCode::Esc, KeyCode::Char('[')]);
}

#[test]
fn modified_keys_are_never_mistaken_for_a_sequence() {
    let mut r = Repair::default();
    let ctrl_esc = KeyEvent::new(KeyCode::Esc, MOD_CONTROL);
    assert_eq!(codes(r.push(ctrl_esc)), vec![KeyCode::Esc]);
    assert!(!r.pending());

    assert!(r.push(press(KeyCode::Esc)).is_empty());
    let alt_bracket = KeyEvent::new(KeyCode::Char('['), MOD_ALT);
    assert_eq!(
        codes(r.push(alt_bracket)),
        vec![KeyCode::Esc, KeyCode::Char('[')]
    );
}

#[test]
fn the_held_esc_comes_back_unchanged() {
    let mut r = Repair::default();
    let esc = KeyEvent { code: KeyCode::Esc, modifiers: MOD_NONE, kind: KeyEventKind::Repeat, state: 2 };
    assert!(r.push(esc).is_empty());
    assert_eq!(r.push(press(KeyCode::Char('q'))), vec![esc, press(KeyCode::Char('q'))]);
}

#[test]
fn an_ss3_introducer_is_replayed_as_a_bracket() {
    let mut r = Repair::default();
    assert!(r.push(press(KeyCode::Esc)).is_empty());
    assert!(r.push(press(KeyCode::Char('O'))).is_empty());
    assert_eq!(
        codes(r.push(press(KeyCode::Char('Z')))),
        vec![KeyCode::Esc, KeyCode::Char('['), KeyCode::Char('Z')]
    );
}

#[test]
fn a_modified_final_letter_does_not_complete_a_sequence() {
    let mut r = Repair::default();
    assert!(r.push(press(KeyCode::Esc)).is_empty());
    assert!(r.push(press(KeyCode::Char('['))).is_empty());
    let ctrl_a = KeyEvent::new(KeyCode::Char('A'), MOD_CONTROL);
    assert_eq!(r.push(ctrl_a), vec![press(KeyCode::Esc), press(KeyCode::Char('[')), ctrl_a]);
    assert!(!r.pending());
}
