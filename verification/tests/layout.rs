use fermix_desktop::metrics::{
    collapse_condition, TWO_COLUMN_BUDGET, WINDOW_DEFAULT_HEIGHT, WINDOW_DEFAULT_WIDTH,
    WINDOW_MINIMUM_HEIGHT, WINDOW_MINIMUM_WIDTH,
};
use fermix_desktop::motion::{
    duration_ms_when, nominal_ms, Transition, CROSSFADE_MS, NAVIGATION_MS,
};

#[test]
fn the_two_column_budget_is_its_parts() {
    assert_eq!(TWO_COLUMN_BUDGET, 684);
}

#[test]
fn the_breakpoint_is_expressed_in_text_scaled_units() {
    assert_eq!(collapse_condition(), "max-width: 684sp");
}

#[test]
fn the_window_minimum_fits_inside_the_default() {
    assert!(WINDOW_MINIMUM_WIDTH < WINDOW_DEFAULT_WIDTH);
    assert!(WINDOW_MINIMUM_HEIGHT < WINDOW_DEFAULT_HEIGHT);
    assert_eq!(
        (
            WINDOW_DEFAULT_WIDTH,
            WINDOW_DEFAULT_HEIGHT,
            WINDOW_MINIMUM_WIDTH,
            WINDOW_MINIMUM_HEIGHT
        ),
        (880, 560, 460, 440),
        "the window sizes the redlines fix"
    );
}

#[test]
fn the_two_durations_are_the_declared_ones() {
    assert_eq!(nominal_ms(Transition::Navigation), 200);
    assert_eq!(nominal_ms(Transition::Crossfade), 150);
}

#[test]
fn reduced_motion_is_zero_for_every_transition() {
    assert_eq!(duration_ms_when(false, Transition::Navigation), 0);
    assert_eq!(duration_ms_when(false, Transition::Crossfade), 0);
}

#[test]
fn allowed_motion_is_the_nominal_duration() {
    assert_eq!(
        duration_ms_when(true, Transition::Navigation),
        NAVIGATION_MS
    );
    assert_eq!(duration_ms_when(true, Transition::Crossfade), CROSSFADE_MS);
}
