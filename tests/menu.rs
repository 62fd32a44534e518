use entropy_trials::menu::{
    duration_for, experiment_for, get_duration, get_experiment, get_number, number_for,
    parse_choice, Experiment, InputError,
};

#[test]
fn choice_ignores_surrounding_whitespace() {
    assert_eq!(parse_choice(" 42 \n"), Some(42));
    assert_eq!(parse_choice("7\r\n"), Some(7));
    assert_eq!(parse_choice("+3"), Some(3));
    assert_eq!(parse_choice(""), None);
    assert_eq!(parse_choice("-1"), None);
    assert_eq!(parse_choice("4 2"), None);
}

#[test]
fn duration_menu_entries() {
    assert_eq!(get_duration("1\n"), (30, None));
    assert_eq!(get_duration("2\n"), (60, None));
    assert_eq!(get_duration("3\n"), (120, None));
    assert_eq!(get_duration("4\n"), (300, None));
    assert_eq!(get_duration("5\n"), (1200, None));
    assert_eq!(get_duration(" 6 "), (3600, None));
}

#[test]
fn duration_outside_menu_is_zero() {
    assert_eq!(get_duration("0\n"), (0, None));
    assert_eq!(get_duration("7\n"), (0, None));
    assert_eq!(get_duration("ten\n"), (0, Some(InputError::NotANumber)));
    assert_eq!(duration_for(None), (0, Some(InputError::NotANumber)));
    assert_eq!(duration_for(Some(4)), (300, None));
}

#[test]
fn trial_count() {
    assert_eq!(get_number("12\n"), (12, None));
    assert_eq!(get_number("255"), (255, None));
    assert_eq!(get_number("256"), (0, Some(InputError::NotANumber)));
    assert_eq!(get_number("x"), (0, Some(InputError::NotANumber)));
    assert_eq!(number_for(Some(0)), (0, None));
}

#[test]
fn experiment_menu() {
    assert_eq!(get_experiment("1\n"), (Experiment::Rng, None));
    assert_eq!(get_experiment("2\n"), (Experiment::Candle, None));
    assert_eq!(get_experiment("3\n"), (Experiment::Rng, Some(InputError::OutOfRange)));
    assert_eq!(get_experiment("candle\n"), (Experiment::Rng, Some(InputError::NotANumber)));
    assert_eq!(experiment_for(Some(2)), (Experiment::Candle, None));
}

#[test]
fn choice_trims_unicode_white_space() {
    assert_eq!(parse_choice("\t5\u{a0}"), Some(5));
    assert_eq!(parse_choice("\u{3000}2\u{2028}"), Some(2));
    assert_eq!(parse_choice("\u{200b}2"), None);
}
