use keysession::engine::{title_or_placeholder, Emission, Engine, WakeOutcome, QUIET_MS, WAIT_MS};
use keysession::keys::{is_ignored_key, KeyEvent, KeyInfo, KeyNames, VK_BACK, VK_CAPITAL, VK_LSHIFT, VK_RSHIFT, VK_SHIFT, VK_SPACE};
use keysession::resolve::{key_token, keycodes_to_string};

fn info(vk_code: u32, cntrl: bool, shift: bool, caps: bool) -> KeyInfo {
    KeyInfo { vk_code, scan_code: 0x1e, cntrl, shift, caps }
}

fn letter_names(c: char) -> KeyNames {
    KeyNames {
        key_char: Some(c.to_ascii_uppercase()),
        scan_name: Some(c.to_ascii_uppercase().to_string()),
        shift_name: Some(c.to_ascii_uppercase().to_string()),
    }
}

fn letter(c: char, time: u64) -> KeyEvent {
    KeyEvent { key: info(c.to_ascii_uppercase() as u32, false, false, false), names: letter_names(c), time }
}

fn modifier(vk_code: u32, time: u64) -> KeyEvent {
    KeyEvent {
        key: info(vk_code, false, false, false),
        names: KeyNames { key_char: None, scan_name: Some("Shift".to_string()), shift_name: None },
        time,
    }
}

fn done(outcome: WakeOutcome) -> Option<Emission> {
    match outcome {
        WakeOutcome::Done(em) => em,
        _ => panic!("the session did not end"),
    }
}

#[test]
fn hello_in_notepad_is_one_record() {
    let mut engine = Engine::new(QUIET_MS, WAIT_MS);
    let mut delays = Vec::new();
    for (i, c) in "hello".chars().enumerate() {
        delays.push(engine.on_event(letter(c, 50 * i as u64), "Notepad".to_string()).watchdog);
    }
    assert_eq!(delays, vec![Some(WAIT_MS), None, None, None, None]);
    // The watchdog started by the first key wakes after the first wait.
    assert_eq!(engine.watchdog_due(), Some(WAIT_MS));
    // It comes early (the last key was at 200 ms) and re-arms for the quiet period.
    assert!(matches!(engine.on_watchdog_wake(WAIT_MS), WakeOutcome::Rearm(100)));
    assert_eq!(engine.watchdog_due(), Some(200 + QUIET_MS));
    let em = done(engine.on_watchdog_wake(200 + QUIET_MS)).expect("a record");
    assert_eq!(em.title, "Notepad");
    assert_eq!(em.text, "hello");
    assert!(engine.is_idle());
    assert_eq!(engine.pending_len(), 0);
}

#[test]
fn control_c_gets_the_control_marker() {
    let mut engine = Engine::new(QUIET_MS, WAIT_MS);
    let key = KeyEvent { key: info('C' as u32, true, false, false), names: letter_names('c'), time: 0 };
    assert_eq!(engine.on_event(key, "Terminal".to_string()).watchdog, Some(WAIT_MS));
    let em = done(engine.on_watchdog_wake(WAIT_MS)).expect("a record");
    assert_eq!(em.text, "Cntrl+c");
    assert_ne!(em.text, "c");
}

#[test]
fn control_with_caps_keeps_native_case() {
    let token = key_token(&info('C' as u32, true, false, true), &letter_names('c'));
    assert_eq!(token, "Cntrl+C");
}

#[test]
fn typing_longer_than_the_first_wait_is_flushed_once() {
    let mut engine = Engine::new(QUIET_MS, WAIT_MS);
    let mut records = 0;
    let mut t: u64 = 0;
    // Keys every 300 ms for 3 s: the gap never reaches the quiet period.
    let mut due = engine.on_event(letter('a', t), "Editor".to_string()).watchdog.map(|d| t + d);
    let mut typed = 1;
    while t < 3000 {
        t += 300;
        while let Some(d) = due {
            if d > t {
                break;
            }
            match engine.on_watchdog_wake(d) {
                WakeOutcome::Rearm(delay) => due = Some(d + delay),
                WakeOutcome::Done(_) => {
                    records += 1;
                    due = None;
                }
                WakeOutcome::Stale => due = None,
            }
        }
        let outcome = engine.on_event(letter('a', t), "Editor".to_string());
        assert!(outcome.watchdog.is_none());
        assert!(outcome.record.is_none());
        typed += 1;
    }
    assert_eq!(records, 0);
    // The user stops: the watchdog keeps re-arming until the quiet period is over.
    let mut text = String::new();
    while let Some(d) = due {
        match engine.on_watchdog_wake(d) {
            WakeOutcome::Rearm(delay) => due = Some(d + delay),
            WakeOutcome::Done(em) => {
                assert_eq!(d, t + QUIET_MS);
                text = em.expect("a record").text;
                records += 1;
                due = None;
            }
            WakeOutcome::Stale => due = None,
        }
    }
    assert_eq!(records, 1);
    assert_eq!(text, "a".repeat(typed));
    assert!(engine.is_idle());
}

#[test]
fn early_wake_rearms_for_the_rest_of_the_quiet_period() {
    let mut engine = Engine::new(QUIET_MS, WAIT_MS);
    engine.on_event(letter('x', 0), "W".to_string());
    engine.on_event(letter('y', 600), "W".to_string());
    match engine.on_watchdog_wake(1000) {
        WakeOutcome::Rearm(d) => assert_eq!(d, 500),
        _ => panic!("expected a re-arm"),
    }
    assert_eq!(engine.watchdog_due(), Some(1500));
    assert_eq!(engine.pending_len(), 2);
    let em = done(engine.on_watchdog_wake(1500)).expect("a record");
    assert_eq!(em.text, "xy");
}

#[test]
fn two_bursts_give_two_disjoint_records() {
    let mut engine = Engine::new(QUIET_MS, WAIT_MS);
    engine.on_event(letter('a', 0), "One".to_string());
    engine.on_event(letter('b', 100), "One".to_string());
    let first = done(engine.on_watchdog_wake(1000)).expect("a record");
    assert_eq!(engine.on_event(letter('c', 2000), "Two".to_string()).watchdog, Some(WAIT_MS));
    engine.on_event(letter('d', 2100), "Two".to_string());
    let second = done(engine.on_watchdog_wake(3000)).expect("a record");
    assert_eq!((first.title.as_str(), first.text.as_str()), ("One", "ab"));
    assert_eq!((second.title.as_str(), second.text.as_str()), ("Two", "cd"));
}

#[test]
fn latest_title_wins() {
    let mut engine = Engine::new(QUIET_MS, WAIT_MS);
    engine.on_event(letter('a', 0), "First".to_string());
    engine.on_event(letter('b', 10), "Second".to_string());
    let em = done(engine.on_watchdog_wake(2000)).expect("a record");
    assert_eq!(em.title, "Second");
}

#[test]
fn modifiers_never_start_a_session() {
    for vk in [VK_SHIFT, VK_LSHIFT, VK_RSHIFT, VK_CAPITAL] {
        assert!(is_ignored_key(vk));
        let mut engine = Engine::new(QUIET_MS, WAIT_MS);
        let outcome = engine.on_event(modifier(vk, 5), "W".to_string());
        assert_eq!(outcome.watchdog, None);
        assert!(outcome.record.is_none());
        assert!(engine.is_idle());
        assert_eq!(engine.pending_len(), 0);
        assert!(matches!(engine.on_watchdog_wake(5000), WakeOutcome::Stale));
        assert_eq!(key_token(&info(vk, true, true, true), &modifier(vk, 0).names), "");
    }
    assert!(!is_ignored_key(VK_SPACE));
}

#[test]
fn modifier_inside_a_session_adds_nothing() {
    let mut engine = Engine::new(QUIET_MS, WAIT_MS);
    engine.on_event(letter('a', 0), "W".to_string());
    // Even a quiet period later, a modifier neither closes nor extends the session.
    let outcome = engine.on_event(modifier(VK_SHIFT, 950), "Other".to_string());
    assert_eq!(outcome.watchdog, None);
    assert!(outcome.record.is_none());
    assert_eq!(engine.pending_len(), 1);
    let em = done(engine.on_watchdog_wake(1000)).expect("a record");
    assert_eq!((em.title.as_str(), em.text.as_str()), ("W", "a"));
}

#[test]
fn empty_flush_emits_nothing() {
    let mut engine = Engine::new(QUIET_MS, WAIT_MS);
    assert!(engine.flush().is_none());
    assert!(engine.flush().is_none());
    assert!(engine.is_idle());
    engine.on_event(letter('q', 0), "W".to_string());
    let em = engine.flush().expect("a record");
    assert_eq!(em.text, "q");
    assert!(engine.flush().is_none());
    // The session's watchdog then finds nothing left to publish.
    assert!(done(engine.on_watchdog_wake(1000)).is_none());
    assert!(engine.is_idle());
}

#[test]
fn stale_wake_is_a_no_op() {
    let mut engine = Engine::new(QUIET_MS, WAIT_MS);
    assert!(matches!(engine.on_watchdog_wake(123), WakeOutcome::Stale));
    assert!(engine.is_idle());
}

#[test]
fn wake_exactly_at_the_quiet_period_flushes() {
    let mut engine = Engine::new(QUIET_MS, WAIT_MS);
    engine.on_event(letter('z', 100), "W".to_string());
    engine.on_event(letter('z', 200), "W".to_string());
    assert!(matches!(engine.on_watchdog_wake(200 + QUIET_MS - 1), WakeOutcome::Rearm(1)));
    assert_eq!(done(engine.on_watchdog_wake(200 + QUIET_MS)).expect("a record").text, "zz");
}

#[test]
fn caps_policy_on_characters() {
    let off = key_token(&info('H' as u32, false, false, false), &letter_names('h'));
    let on = key_token(&info('H' as u32, false, false, true), &letter_names('h'));
    assert_eq!(off, "h");
    assert_eq!(on, "H");
}

#[test]
fn caps_policy_on_named_keys() {
    let names = KeyNames { key_char: None, scan_name: Some("F5".to_string()), shift_name: None };
    assert_eq!(key_token(&info(0x74, false, false, false), &names), "f5");
    assert_eq!(key_token(&info(0x74, false, false, true), &names), "F5");
    assert_eq!(key_token(&info(0x74, true, false, false), &names), "Cntrl+f5");
}

#[test]
fn shifted_name_is_preferred_and_keeps_case() {
    let names = KeyNames {
        key_char: None,
        scan_name: Some("Num 1".to_string()),
        shift_name: Some("End".to_string()),
    };
    assert_eq!(key_token(&info(0x61, false, true, false), &names), "End");
    assert_eq!(key_token(&info(0x61, false, false, false), &names), "num 1");
    let unshiftable = KeyNames { key_char: None, scan_name: Some("Esc".to_string()), shift_name: None };
    assert_eq!(key_token(&info(0x1b, false, true, false), &unshiftable), "esc");
}

#[test]
fn space_and_backspace_ignore_modifiers() {
    let names = KeyNames { key_char: Some(' '), scan_name: Some("Space".to_string()), shift_name: None };
    for caps in [false, true] {
        for cntrl in [false, true] {
            assert_eq!(key_token(&info(VK_SPACE, cntrl, false, caps), &names), " ");
            assert_eq!(key_token(&info(VK_BACK, cntrl, true, caps), &names), "\u{8}");
        }
    }
}

#[test]
fn unresolvable_key_contributes_nothing() {
    let names = KeyNames { key_char: None, scan_name: None, shift_name: Some("X".to_string()) };
    assert_eq!(key_token(&info(0xff, true, true, false), &names), "");
}

#[test]
fn rendering_keeps_arrival_order() {
    let events = vec![
        letter('a', 0),
        KeyEvent { key: info(0xff, false, false, false), names: KeyNames { key_char: None, scan_name: None, shift_name: None }, time: 1 },
        KeyEvent { key: info(VK_SPACE, false, false, false), names: letter_names(' '), time: 2 },
        letter('b', 3),
    ];
    assert_eq!(keycodes_to_string(&events), "a b");
    assert_eq!(keycodes_to_string(&Vec::new()), "");
}

#[test]
fn key_after_a_quiet_gap_closes_the_session_before_the_watchdog() {
    let mut engine = Engine::new(QUIET_MS, WAIT_MS);
    let space = |time: u64| KeyEvent {
        key: info(VK_SPACE, false, false, false),
        names: KeyNames { key_char: Some(' '), scan_name: Some("Space".to_string()), shift_name: None },
        time,
    };
    let first = engine.on_event(letter('a', 0), "One".to_string());
    assert_eq!(first.watchdog, Some(WAIT_MS));
    assert!(first.record.is_none());
    // 950 ms later: a quiet period has passed, the watchdog (due at 1000 ms) has not woken.
    let second = engine.on_event(space(950), "Two".to_string());
    assert_eq!(second.watchdog, None);
    let closed = second.record.expect("the first session's record");
    assert_eq!((closed.title.as_str(), closed.text.as_str()), ("One", "a"));
    assert_eq!(engine.pending_len(), 1);
    assert!(!engine.is_idle());
    // The outstanding watchdog serves the new session.
    assert_eq!(engine.watchdog_due(), Some(WAIT_MS));
    assert!(matches!(engine.on_watchdog_wake(WAIT_MS), WakeOutcome::Rearm(850)));
    let later = done(engine.on_watchdog_wake(950 + QUIET_MS)).expect("the second session's record");
    assert_eq!((later.title.as_str(), later.text.as_str()), ("Two", " "));
    assert!(engine.is_idle());
}

#[test]
fn key_just_under_the_quiet_period_stays_in_the_session() {
    let mut engine = Engine::new(QUIET_MS, WAIT_MS);
    engine.on_event(letter('a', 0), "W".to_string());
    let outcome = engine.on_event(letter('b', QUIET_MS - 1), "W".to_string());
    assert!(outcome.record.is_none());
    assert_eq!(engine.pending_len(), 2);
    let outcome = engine.on_event(letter('c', 2 * QUIET_MS - 1), "W".to_string());
    assert_eq!(outcome.record.expect("a record").text, "ab");
    assert_eq!(engine.pending_len(), 1);
}

#[test]
fn missing_title_gets_the_placeholder() {
    assert_eq!(title_or_placeholder(None), "<< WINDOW TITLE UNKOWN >>");
    assert_eq!(title_or_placeholder(Some("Notepad".to_string())), "Notepad");
}
