use splash::events::{step, Action, LoopState, TermEvent};

#[test]
fn quit_key_quits_from_any_state() {
    let mut s = LoopState { cols: 80, rows: 24 };
    assert_eq!(step(&mut s, TermEvent::Key('q')), Action::Quit);
    assert_eq!(s, LoopState { cols: 80, rows: 24 });

    let mut tiny = LoopState { cols: 0, rows: 0 };
    assert_eq!(step(&mut tiny, TermEvent::Key('q')), Action::Quit);
}

#[test]
fn check_key_orders_a_status_check() {
    let mut s = LoopState { cols: 80, rows: 24 };
    assert_eq!(step(&mut s, TermEvent::Key('c')), Action::CheckStatus);
    assert_eq!(s, LoopState { cols: 80, rows: 24 });
}

#[test]
fn bindings_are_lowercase_only() {
    let mut s = LoopState { cols: 80, rows: 24 };
    assert_eq!(step(&mut s, TermEvent::Key('Q')), Action::Idle);
    assert_eq!(step(&mut s, TermEvent::Key('C')), Action::Idle);
    assert_eq!(step(&mut s, TermEvent::Key('x')), Action::Idle);
    assert_eq!(s, LoopState { cols: 80, rows: 24 });
}

#[test]
fn resize_event_adopts_the_new_size_and_redraws() {
    let mut s = LoopState { cols: 80, rows: 24 };
    assert_eq!(step(&mut s, TermEvent::Resize(100, 40)), Action::Redraw);
    // the new size is in force before the next draw or size query
    assert_eq!(s, LoopState { cols: 100, rows: 40 });
}

#[test]
fn quiet_poll_with_changed_size_is_an_implicit_resize() {
    let mut s = LoopState { cols: 80, rows: 24 };
    assert_eq!(step(&mut s, TermEvent::Tick(81, 24)), Action::Redraw);
    assert_eq!(s, LoopState { cols: 81, rows: 24 });
}

#[test]
fn quiet_poll_with_unchanged_size_does_nothing() {
    let mut s = LoopState { cols: 80, rows: 24 };
    assert_eq!(step(&mut s, TermEvent::Tick(80, 24)), Action::Idle);
    assert_eq!(s, LoopState { cols: 80, rows: 24 });
}

#[test]
fn foreign_events_are_ignored() {
    let mut s = LoopState { cols: 80, rows: 24 };
    assert_eq!(step(&mut s, TermEvent::Other), Action::Idle);
    assert_eq!(s, LoopState { cols: 80, rows: 24 });
}

#[test]
fn quit_wins_mid_session() {
    // a whole session: draw sizes change, a status check runs, then quit
    let mut s = LoopState { cols: 80, rows: 24 };
    assert_eq!(step(&mut s, TermEvent::Resize(90, 30)), Action::Redraw);
    assert_eq!(step(&mut s, TermEvent::Key('c')), Action::CheckStatus);
    assert_eq!(step(&mut s, TermEvent::Key('q')), Action::Quit);
    assert_eq!(s, LoopState { cols: 90, rows: 30 });
}
