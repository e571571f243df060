use galileo::render::render_bundle::screen_set::{elapsed_nanos, RenderSetState};

#[test]
fn elapsed_saturates() {
    assert_eq!(elapsed_nanos(10, 3), 7);
    assert_eq!(elapsed_nanos(3, 10), 0);
    assert_eq!(elapsed_nanos(i64::MAX, i64::MIN), u64::MAX);
}

#[test]
fn overlapping_sets_fade_out() {
    assert_eq!(RenderSetState::Hidden.when_overlapping(100, 300), None);
    assert_eq!(
        RenderSetState::Displayed.when_overlapping(100, 300),
        Some(RenderSetState::FadingOut { start_time: 100 })
    );
    // faded in for 100 of 300: the fade-out starts as if it had run 200 already
    assert_eq!(
        RenderSetState::FadingIn { start_time: 1000 }.when_overlapping(1100, 300),
        Some(RenderSetState::FadingOut { start_time: 900 })
    );
    let fading_out = RenderSetState::FadingOut { start_time: 5 };
    assert_eq!(fading_out.when_overlapping(100, 300), Some(fading_out));
}

#[test]
fn free_sets_fade_in() {
    assert_eq!(
        RenderSetState::Hidden.when_free(100, 300),
        RenderSetState::FadingIn { start_time: 100 }
    );
    assert_eq!(
        RenderSetState::FadingOut { start_time: 900 }.when_free(1100, 300),
        RenderSetState::FadingIn { start_time: 1000 }
    );
    assert_eq!(RenderSetState::Displayed.when_free(100, 300), RenderSetState::Displayed);
    let fading_in = RenderSetState::FadingIn { start_time: 7 };
    assert_eq!(fading_in.when_free(100, 300), fading_in);
}

#[test]
fn overlap_then_free_restores_the_fade_in() {
    let s = RenderSetState::FadingIn { start_time: 1000 };
    let out = s.when_overlapping(1250, 300).unwrap();
    assert_eq!(out.when_free(1250, 300), s);
}

#[test]
fn displayed_states() {
    assert!(RenderSetState::Displayed.is_displayed());
    assert!(RenderSetState::FadingIn { start_time: 0 }.is_displayed());
    assert!(!RenderSetState::Hidden.is_displayed());
    assert!(!RenderSetState::FadingOut { start_time: 0 }.is_displayed());
}

#[test]
fn overlap_and_free_are_idempotent() {
    let s = RenderSetState::FadingIn { start_time: 1000 };
    let once = s.when_overlapping(1100, 300).unwrap();
    assert_eq!(once.when_overlapping(1100, 300), Some(once));
    let shown = RenderSetState::Hidden.when_free(50, 300);
    assert_eq!(shown.when_free(50, 300), shown);
}

#[test]
fn reversal_range() {
    assert!(RenderSetState::Hidden.reversal_fits(i64::MIN, u64::MAX));
    assert!(RenderSetState::FadingIn { start_time: 0 }.reversal_fits(10, 300));
    assert!(!RenderSetState::FadingIn { start_time: 0 }.reversal_fits(i64::MAX, 0));
    assert!(!RenderSetState::FadingOut { start_time: 0 }.reversal_fits(-10, u64::MAX));
}

#[test]
fn fades_end_after_their_duration() {
    let ms: i64 = 1_000_000;
    let fading_in = RenderSetState::FadingIn { start_time: 0 };
    // 300 ms fade: still fading at 299 ms, displayed at 300 ms
    assert_eq!(fading_in.settle(299 * ms, 300_000_000), fading_in);
    assert_eq!(fading_in.settle(300 * ms, 300_000_000), RenderSetState::Displayed);
    let fading_out = RenderSetState::FadingOut { start_time: 10 * ms };
    assert_eq!(fading_out.settle(309 * ms, 300_000_000), fading_out);
    assert_eq!(fading_out.settle(310 * ms, 300_000_000), RenderSetState::Hidden);
    // a zero duration ends the fade at once
    assert_eq!(fading_in.settle(0, 0), RenderSetState::Displayed);
    assert_eq!(fading_out.settle(0, 0), RenderSetState::Hidden);
    // a fade just started is not over
    assert_eq!(fading_in.settle(0, 300_000_000), fading_in);
    // other states stay
    assert_eq!(RenderSetState::Displayed.settle(5, 1), RenderSetState::Displayed);
    assert_eq!(RenderSetState::Hidden.settle(5, 1), RenderSetState::Hidden);
    // settling twice changes nothing more
    let settled = fading_in.settle(300 * ms, 300_000_000);
    assert_eq!(settled.settle(300 * ms, 300_000_000), settled);
}
