use metro_sign::alerts::{alert_cycle_states, plan_alert_cycle, AlertMode, AlertState};
use metro_sign::config::{find_widget_index, Alert, AlertWidget, Widget};
use metro_sign::entry::SimpleArrivalDisplayable;
use metro_sign::merge::{build_arrival_state, initial_arrival_state, PredictionApiReturn};
use metro_sign::render::{alert_text_layout, border_pattern_a, row_y, select_view,
    visible_entries, AlertTextLayout, FrameView, MAX_LINES};
use metro_sign::retry::{backoff_delay_millis, retry_after_failure, retry_run, BASE_DELAY_MILLIS,
    MAX_ATTEMPTS};

#[test]
fn retry_succeeds_after_n_failures() {
    let outcomes = vec![false, false, false, true, false, false, false, false, false, false, false];
    let (invocations, success) = retry_run(&outcomes, 10);
    assert!(success);
    assert_eq!(invocations, 4);
}

#[test]
fn retry_first_attempt_success() {
    let outcomes = vec![true; 11];
    let (invocations, success) = retry_run(&outcomes, 10);
    assert!(success);
    assert_eq!(invocations, 1);
}

#[test]
fn retry_success_on_last_allowed_attempt() {
    let mut outcomes = vec![false; 11];
    outcomes[10] = true;
    let (invocations, success) = retry_run(&outcomes, 10);
    assert!(success);
    assert_eq!(invocations, 11);
}

#[test]
fn retry_exhausts_after_max_attempts_plus_one() {
    let outcomes = vec![false; 11];
    let (invocations, success) = retry_run(&outcomes, 10);
    assert!(!success);
    assert_eq!(invocations, 11);
}

#[test]
fn backoff_delay_is_bounded_by_exponential() {
    for _ in 0..20 {
        assert!(backoff_delay_millis(1, BASE_DELAY_MILLIS) <= 500);
        assert!(backoff_delay_millis(2, BASE_DELAY_MILLIS) <= 1000);
        assert!(backoff_delay_millis(5, BASE_DELAY_MILLIS) <= 8000);
        assert!(backoff_delay_millis(11, BASE_DELAY_MILLIS) <= 512_000);
    }
}

#[test]
fn retry_decision_stops_past_cap() {
    assert!(retry_after_failure(1, MAX_ATTEMPTS, BASE_DELAY_MILLIS).is_some());
    assert!(retry_after_failure(10, MAX_ATTEMPTS, BASE_DELAY_MILLIS).is_some());
    assert!(retry_after_failure(11, MAX_ATTEMPTS, BASE_DELAY_MILLIS).is_none());
    let d = retry_after_failure(3, MAX_ATTEMPTS, BASE_DELAY_MILLIS).unwrap();
    assert!(d <= 2000);
}

#[test]
fn blank_alert_state_is_hidden() {
    let s = AlertState::blank();
    assert_eq!(s.mode, AlertMode::Hidden);
    assert_eq!(s.currently_shown_message, "");
    assert_eq!(s.scroll_index, 0);
}

#[test]
fn alert_cycle_phase_order() {
    let states = alert_cycle_states("Delay on Red Line");
    let modes: Vec<AlertMode> = states.iter().map(|s| s.mode).collect();
    assert_eq!(
        modes,
        vec![
            AlertMode::IntroA,
            AlertMode::IntroB,
            AlertMode::IntroA,
            AlertMode::IntroB,
            AlertMode::MessageA,
            AlertMode::MessageB,
            AlertMode::MessageA,
            AlertMode::MessageB,
            AlertMode::MessageA,
            AlertMode::MessageB,
            AlertMode::Hidden,
        ]
    );
    let scrolls: Vec<u32> = states.iter().map(|s| s.scroll_index).collect();
    assert_eq!(scrolls, vec![0, 0, 0, 0, 0, 1, 4, 5, 8, 9, 0]);
    for s in &states[..10] {
        assert_eq!(s.currently_shown_message, "Delay on Red Line");
    }
    assert_eq!(states[10].currently_shown_message, "");
}

#[test]
fn planned_cycle_with_two_alerts_ends_hidden() {
    let alerts = vec![String::from("Alert one"), String::from("Alert two")];
    let (states, pause) = plan_alert_cycle(&alerts);
    assert_eq!(states.len(), 11);
    assert_eq!(states[0].mode, AlertMode::IntroA);
    assert_eq!(states[10].mode, AlertMode::Hidden);
    for s in &states[..10] {
        assert_ne!(s.mode, AlertMode::Hidden);
        assert!(s.currently_shown_message == "Alert one" || s.currently_shown_message
            == "Alert two");
    }
    assert!(60 <= pause && pause < 300);
}

#[test]
fn planned_cycle_without_alerts_publishes_only_hidden() {
    let alerts: Vec<String> = Vec::new();
    let (states, pause) = plan_alert_cycle(&alerts);
    assert_eq!(states.len(), 1);
    assert_eq!(states[0].mode, AlertMode::Hidden);
    assert!(60 <= pause && pause < 300);
}

#[test]
fn alert_view_replaces_board_unless_hidden() {
    assert_eq!(select_view(AlertMode::Hidden), FrameView::Arrival);
    assert_eq!(select_view(AlertMode::IntroA), FrameView::Alert);
    assert_eq!(select_view(AlertMode::IntroB), FrameView::Alert);
    assert_eq!(select_view(AlertMode::MessageA), FrameView::Alert);
    assert_eq!(select_view(AlertMode::MessageB), FrameView::Alert);
}

#[test]
fn border_pattern_alternates_with_phase() {
    assert!(border_pattern_a(AlertMode::IntroA));
    assert!(border_pattern_a(AlertMode::MessageA));
    assert!(!border_pattern_a(AlertMode::IntroB));
    assert!(!border_pattern_a(AlertMode::MessageB));
    assert!(!border_pattern_a(AlertMode::Hidden));
}

#[test]
fn alert_text_layout_cases() {
    let mk = |mode, scroll| AlertState {
        mode,
        currently_shown_message: String::from("x"),
        scroll_index: scroll,
    };
    assert_eq!(alert_text_layout(&mk(AlertMode::IntroA, 0), 10, 54), AlertTextLayout::Intro);
    assert_eq!(alert_text_layout(&mk(AlertMode::IntroB, 0), 100, 54), AlertTextLayout::Intro);
    assert_eq!(
        alert_text_layout(&mk(AlertMode::MessageA, 4), 100, 54),
        AlertTextLayout::Scrolled(-8)
    );
    assert_eq!(
        alert_text_layout(&mk(AlertMode::MessageB, 9), 55, 54),
        AlertTextLayout::Scrolled(-18)
    );
    assert_eq!(alert_text_layout(&mk(AlertMode::MessageA, 4), 54, 54), AlertTextLayout::Centered);
    assert_eq!(alert_text_layout(&mk(AlertMode::Hidden, 0), 100, 54), AlertTextLayout::Nothing);
}

#[test]
fn board_draws_at_most_max_lines() {
    let entries: Vec<SimpleArrivalDisplayable> = (0..6)
        .map(|i| SimpleArrivalDisplayable::loading(i as i64))
        .collect();
    let visible = visible_entries(&entries);
    assert_eq!(visible.len(), MAX_LINES);
    for (i, e) in visible.iter().enumerate() {
        assert_eq!(e.get_comparison_timestamp(), i as i128);
    }
    let few: Vec<SimpleArrivalDisplayable> = entries.into_iter().take(2).collect();
    assert_eq!(visible_entries(&few).len(), 2);
}

#[test]
fn row_positions_follow_pitch() {
    assert_eq!(row_y(0), 24);
    assert_eq!(row_y(1), 36);
    assert_eq!(row_y(2), 48);
    assert_eq!(row_y(3), 60);
}

#[test]
fn widget_lookup_finds_first_match() {
    let widgets = vec![
        Widget { name: String::from("DCMetroAlertsWidget") },
        Widget { name: String::from("DCMetroTrainArrivalWidget") },
        Widget { name: String::from("DCMetroTrainArrivalWidget") },
    ];
    assert_eq!(find_widget_index(&widgets, "DCMetroTrainArrivalWidget"), Some(1));
    assert_eq!(find_widget_index(&widgets, "DCMetroAlertsWidget"), Some(0));
    assert_eq!(find_widget_index(&widgets, "NoSuchWidget"), None);
    assert_eq!(find_widget_index(&Vec::new(), "DCMetroAlertsWidget"), None);
}

#[test]
fn alert_widget_lists_its_messages() {
    let w = AlertWidget {
        name: String::from("DCMetroAlertsWidget"),
        alerts: vec![
            Alert { message: String::from("one") },
            Alert { message: String::from("two") },
        ],
    };
    assert_eq!(w.get_messages(), vec![String::from("one"), String::from("two")]);
}

#[test]
fn initial_state_shows_loading_board() {
    let s = initial_arrival_state();
    assert_eq!(s.messages.len(), 1);
    assert_eq!(s.messages[0].get_message(), "Loading...");
    assert!(s.messages[0].is_sticky());
    assert_eq!(s.messages[0].get_comparison_timestamp(), s.last_update as i128);
}

#[test]
fn built_state_is_stamped_and_sorted() {
    let response = PredictionApiReturn {
        trains: vec![
            metro_sign::entry::Train {
                car: None,
                destination: String::from("Glenmont"),
                destination_code: None,
                group: String::from("1"),
                line: String::from("RD"),
                location_code: String::from("A01"),
                location_name: String::from("Metro Center"),
                min: String::from("9"),
            },
            metro_sign::entry::Train {
                car: None,
                destination: String::from("Shady Grove"),
                destination_code: None,
                group: String::from("2"),
                line: String::from("RD"),
                location_code: String::from("A01"),
                location_name: String::from("Metro Center"),
                min: String::from("ARR"),
            },
        ],
    };
    let state = build_arrival_state(&response, &None);
    assert!(state.last_update > 0);
    assert_eq!(state.messages.len(), 2);
    assert_eq!(state.messages[0].get_arrival_time(), "ARR");
    assert_eq!(state.messages[1].get_arrival_time(), "9");
    let copy = state.clone();
    assert_eq!(copy.last_update, state.last_update);
    assert_eq!(copy.messages.len(), state.messages.len());
    assert_eq!(copy.messages[0].get_message(), state.messages[0].get_message());
}
