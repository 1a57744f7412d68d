use veh::input::{InputEvent, InteractionState, Key, Point, ViewState};
use veh::rat::Rat;
use veh::session::{DocSize, Phase, Session, WindowPlan};
use veh::transform::Transform;

fn fresh_view(transform: Transform) -> ViewState {
    ViewState { transform, inter: InteractionState { prior_position: None, mouse_down: false } }
}

#[test]
fn drag_composes_translation_on_the_left() {
    // T = identity, drag delta (5, -3): the result maps (0, 0) to (5, -3).
    let mut v = fresh_view(Transform::identity());
    v.inter.mouse_down = true;
    v.inter.prior_position = Some(Point { x: 0, y: 0 });
    let out = v.handle(&InputEvent::CursorMoved { x: 5, y: -3 });
    assert!(out.request_redraw);
    let ix = v.transform.apply_x(Rat::from_int(0)).unwrap();
    let iy = v.transform.apply_y(Rat::from_int(0)).unwrap();
    assert!(ix.eq_value(Rat::from_int(5)));
    assert!(iy.eq_value(Rat::from_int(-3)));
}

#[test]
fn zoom_keeps_the_pivot_fixed() {
    // T = translate(5, 7): the point (0, 0) maps to (5, 7). Zooming with
    // pivot (5, 7) by 21/20 leaves that image unchanged.
    let t = Transform::translation_int(5, 7);
    let z = t.zoomed(5, 7, Rat::ratio(21, 20)).unwrap();
    let ix = z.apply_x(Rat::from_int(0)).unwrap();
    let iy = z.apply_y(Rat::from_int(0)).unwrap();
    assert!(ix.eq_value(Rat::from_int(5)));
    assert!(iy.eq_value(Rat::from_int(7)));
    // A point other than the pivot's pre-image moves.
    let mx = z.apply_x(Rat::from_int(100)).unwrap();
    assert!(!mx.eq_value(Rat::from_int(105)));
}

#[test]
fn wheel_without_prior_position_is_a_noop() {
    let mut v = fresh_view(Transform::identity());
    let before = v;
    let out = v.handle(&InputEvent::Wheel { factor: Rat::ratio(21, 20) });
    assert_eq!(v, before);
    assert!(!out.request_redraw && !out.exit && !out.render);
}

#[test]
fn pointer_leave_clears_the_pivot() {
    let mut v = fresh_view(Transform::identity());
    v.handle(&InputEvent::CursorMoved { x: 10, y: 10 });
    assert_eq!(v.inter.prior_position, Some(Point { x: 10, y: 10 }));
    v.handle(&InputEvent::CursorLeft);
    assert_eq!(v.inter.prior_position, None);
    let before_transform = v.transform;
    let out = v.handle(&InputEvent::Wheel { factor: Rat::ratio(21, 20) });
    assert_eq!(v.transform, before_transform);
    assert!(!out.request_redraw);
}

#[test]
fn four_opposite_nudges_round_trip() {
    let start = Transform::translation_int(3, 4);
    let mut v = fresh_view(start);
    for key in [Key::Up, Key::Down, Key::Left, Key::Right] {
        let out = v.handle(&InputEvent::Key { key, pressed: true });
        assert!(out.request_redraw);
    }
    assert!(v.transform.coincides(start));
}

#[test]
fn vim_keys_nudge_like_arrows() {
    let mut a = fresh_view(Transform::identity());
    let mut b = fresh_view(Transform::identity());
    a.handle(&InputEvent::Key { key: Key::Up, pressed: true });
    b.handle(&InputEvent::Key { key: Key::K, pressed: true });
    assert!(a.transform.coincides(b.transform));
    a.handle(&InputEvent::Key { key: Key::Left, pressed: true });
    b.handle(&InputEvent::Key { key: Key::H, pressed: true });
    assert!(a.transform.coincides(b.transform));
}

#[test]
fn key_release_and_unknown_keys_do_nothing() {
    let mut v = fresh_view(Transform::identity());
    let before = v;
    let out = v.handle(&InputEvent::Key { key: Key::Up, pressed: false });
    assert_eq!(v, before);
    assert!(!out.request_redraw);
    let out = v.handle(&InputEvent::Key { key: Key::Other, pressed: true });
    assert_eq!(v, before);
    assert!(!out.request_redraw);
}

#[test]
fn escape_and_close_request_exit() {
    let mut v = fresh_view(Transform::identity());
    assert!(v.handle(&InputEvent::Key { key: Key::Escape, pressed: true }).exit);
    assert!(v.handle(&InputEvent::CloseRequested).exit);
}

#[test]
fn fit_scales_by_the_tighter_axis_and_centres() {
    // Document 200x100 in a window 1044x800: scale = min(1044/200, 800/100)
    // = 5.22, and the document centre (100, 50) maps to (522, 400).
    let t = Transform::fit(1044, 800, 200, 100);
    assert!(t.scale.eq_value(Rat::ratio(522, 100)));
    let cx = t.apply_x(Rat::from_int(100)).unwrap();
    let cy = t.apply_y(Rat::from_int(50)).unwrap();
    assert!(cx.eq_value(Rat::from_int(522)));
    assert!(cy.eq_value(Rat::from_int(400)));
}

#[test]
fn resume_after_suspend_reuses_window_and_takes_fresh_surface() {
    let mut s = Session::new();
    assert_eq!(s.resume_window_plan(), Some(WindowPlan::CreateNew));
    assert!(s.needs_document());
    let doc = DocSize { width: 200, height: 100 };
    let created = s.complete_resume(7, 1044, 800, doc, 1, 0, 1);
    assert!(created);
    s.suspend();
    assert_eq!(s.resume_window_plan(), Some(WindowPlan::Reuse(7)));
    assert!(!s.needs_document());
    let created_again = s.complete_resume(7, 1044, 800, doc, 2, 0, 1);
    assert!(!created_again);
    match s.phase {
        Phase::Active { window, surface, .. } => {
            assert_eq!(window, 7);
            assert_eq!(surface, 2);
        }
        _ => panic!("session should be active after resume"),
    }
}

#[test]
fn suspend_retains_the_view_across_resume() {
    let mut s = Session::new();
    let doc = DocSize { width: 200, height: 100 };
    s.complete_resume(7, 1044, 800, doc, 1, 0, 1);
    // Pan a little, then suspend and resume with a different window size:
    // the transform is kept, not recomputed from the new size.
    let out = s.handle_window_event(
        7,
        &InputEvent::Key { key: Key::Right, pressed: true },
    );
    assert!(out.request_redraw);
    let panned = match s.phase {
        Phase::Active { view, .. } => view.transform,
        _ => panic!("active"),
    };
    s.suspend();
    s.complete_resume(7, 300, 200, doc, 2, 0, 1);
    match s.phase {
        Phase::Active { view, .. } => assert!(view.transform.coincides(panned)),
        _ => panic!("active"),
    }
}

#[test]
fn events_for_other_windows_or_while_suspended_are_dropped() {
    let mut s = Session::new();
    let out = s.handle_window_event(7, &InputEvent::RedrawRequested);
    assert!(!out.render);
    let doc = DocSize { width: 200, height: 100 };
    s.complete_resume(7, 1044, 800, doc, 1, 0, 1);
    let out = s.handle_window_event(8, &InputEvent::RedrawRequested);
    assert!(!out.render);
    let out = s.handle_window_event(7, &InputEvent::RedrawRequested);
    assert!(out.render);
}

#[test]
fn resize_reconfigures_and_redraws() {
    let mut s = Session::new();
    let doc = DocSize { width: 200, height: 100 };
    s.complete_resume(7, 1044, 800, doc, 1, 0, 1);
    let out = s.handle_window_event(7, &InputEvent::Resized { width: 640, height: 480 });
    assert_eq!(out.reconfigure, Some((640, 480)));
    assert!(out.request_redraw);
    assert!(!out.render);
}

#[test]
fn non_left_button_does_not_start_a_drag() {
    let mut v = fresh_view(Transform::identity());
    v.handle(&InputEvent::Button { left: false, pressed: true });
    assert!(!v.inter.mouse_down);
    v.handle(&InputEvent::Button { left: true, pressed: true });
    assert!(v.inter.mouse_down);
    v.handle(&InputEvent::Button { left: true, pressed: false });
    assert!(!v.inter.mouse_down);
}

#[test]
fn rational_arithmetic_is_exact() {
    let a = Rat::ratio(1, 3);
    let b = Rat::ratio(1, 6);
    let sum = a.checked_add(b).unwrap();
    assert!(sum.eq_value(Rat::ratio(1, 2)));
    let prod = a.checked_mul(b).unwrap();
    assert!(prod.eq_value(Rat::ratio(1, 18)));
    let diff = a.checked_sub(b).unwrap();
    assert!(diff.eq_value(Rat::ratio(1, 6)));
    assert!(Rat::ratio(2, 4).eq_value(Rat::ratio(1, 2)));
    assert!(!Rat::ratio(2, 4).eq_value(Rat::ratio(2, 3)));
    assert_eq!(Rat::from_int(7).min(Rat::ratio(15, 2)), Rat::from_int(7));
}

#[test]
fn overflowing_updates_are_ignored() {
    // A zoom whose exact result would not fit the fraction range leaves the
    // view unchanged instead of rounding.
    let huge = Transform {
        scale: Rat::ratio(i64::MAX, 1),
        tx: Rat::from_int(0),
        ty: Rat::from_int(0),
    };
    let mut v = fresh_view(huge);
    v.handle(&InputEvent::CursorMoved { x: 1, y: 1 });
    let before = v.transform;
    let out = v.handle(&InputEvent::Wheel { factor: Rat::ratio(21, 20) });
    assert_eq!(v.transform, before);
    assert!(!out.request_redraw);
}
