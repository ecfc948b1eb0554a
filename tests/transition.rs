use egui_pager::{
    page_transition, progress, slide_offset, Progress, Translation, TransitionStyle,
    TransitionType, DEFAULT_DISTANCE, EASED_HALF, EASED_ONE,
};

#[test]
fn offset_at_rest_and_at_the_switch() {
    assert_eq!(slide_offset(0, true, 16), (0, false));
    assert_eq!(slide_offset(EASED_ONE as i32, true, 16), (0, true));
    assert_eq!(slide_offset(EASED_HALF as i32, true, 16), (-16 * EASED_ONE, false));
    assert_eq!(slide_offset(EASED_HALF as i32 + 1, true, 16), (16 * (EASED_ONE - 2), true));
    assert_eq!(slide_offset(EASED_HALF as i32, false, 16), (16 * EASED_ONE, false));
}

#[test]
fn offset_of_overshooting_easing() {
    // An eased value past the end moves the page past its rest position.
    assert_eq!(slide_offset(70000, true, 16), (16 * (2 * EASED_ONE - 140000), true));
    assert_eq!(slide_offset(-1000, false, 16), (-2 * 16 * 1000, false));
}

#[test]
fn offset_quarter_way() {
    assert_eq!(slide_offset(16384, true, 10), (-2 * 10 * 16384, false));
    assert_eq!(slide_offset(49152, false, 10), (-10 * 32768, true));
}

#[test]
fn axis_translation() {
    assert_eq!(
        TransitionType::HorizontalMove.generate_tstransform(-5),
        Translation { dx: -5, dy: 0 }
    );
    assert_eq!(
        TransitionType::VerticalMove.generate_tstransform(7),
        Translation { dx: 0, dy: 7 }
    );
    assert_eq!(TransitionType::default(), TransitionType::HorizontalMove);
}

#[test]
fn style_constructors() {
    let h = TransitionStyle::horizontal(5);
    assert_eq!((h.duration, h.t_type, h.distance), (5, TransitionType::HorizontalMove, 16));
    let v = TransitionStyle::vertical(6);
    assert_eq!(v.t_type, TransitionType::VerticalMove);
    assert_eq!(TransitionStyle::new(7), TransitionStyle::new_with_type(7, TransitionType::HorizontalMove));
    assert_eq!(DEFAULT_DISTANCE, 16);
}

#[test]
fn progress_formula_and_monotonic() {
    let deadline = 1_000_300;
    let d = 300;
    let mut last = i64::MIN;
    for now in (999_000..1_001_000u64).step_by(50) {
        let p = progress(deadline, now, d);
        let elapsed = d as i64 - p.remaining as i64;
        if now <= deadline {
            assert_eq!(elapsed, d as i64 - (deadline - now) as i64);
        } else {
            assert_eq!(elapsed, d as i64);
        }
        assert!(elapsed >= last);
        last = elapsed;
    }
    assert_eq!(progress(deadline, deadline, d), Progress { remaining: 0, duration: 300 });
}

#[test]
fn progress_as_fixed_point() {
    assert_eq!(Progress { remaining: 0, duration: 300 }.as_fixed(), EASED_ONE);
    assert_eq!(Progress { remaining: 300, duration: 300 }.as_fixed(), 0);
    assert_eq!(Progress { remaining: 150, duration: 300 }.as_fixed(), EASED_HALF);
    assert_eq!(Progress { remaining: 200, duration: 300 }.as_fixed(), 21845);
}

#[test]
fn page_transition_eases_then_places() {
    let style = TransitionStyle::vertical(300);
    let t = Progress { remaining: 100, duration: 300 };
    let r = page_transition(t, &style, false, |p: Progress| (EASED_ONE - p.as_fixed()) as i32, |tr, second| (tr, second));
    // Eased value 65536 - 43690 = 21846: first page, moved down.
    assert_eq!(r, (Translation { dx: 0, dy: 2 * 16 * 21846 }, false));
}
