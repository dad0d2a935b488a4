use metro_sign::entry::{ArrivalMessage, SimpleArrivalDisplayable, Train};
use metro_sign::line::{Line, Rgb};
use metro_sign::merge::{convert_api_return_to_display, PredictionApiReturn};

const NOW: i64 = 1_700_000_000_000;

fn train(destination: &str, line: &str, min: &str) -> Train {
    Train {
        car: Some(String::from("8")),
        destination: String::from(destination),
        destination_code: None,
        group: String::from("1"),
        line: String::from(line),
        location_code: String::from("A01"),
        location_name: String::from("Metro Center"),
        min: String::from(min),
    }
}

fn message(text: &str, time: i64, sticky: bool) -> ArrivalMessage {
    ArrivalMessage { message: String::from(text), time, sticky }
}

fn merge(trains: Vec<Train>, messages: Option<Vec<ArrivalMessage>>) -> Vec<
    SimpleArrivalDisplayable,
> {
    let response = PredictionApiReturn { trains };
    convert_api_return_to_display(&response, &messages, NOW)
}

#[test]
fn single_prediction_scenario() {
    let merged = merge(vec![train("Shady Grove", "RD", "3")], None);
    assert_eq!(merged.len(), 1);
    assert_eq!(merged[0].get_line(), Line::RD);
    assert_eq!(merged[0].get_arrival_time(), "3");
    assert_eq!(merged[0].get_message(), "Shady Grove");
    assert!(!merged[0].is_sticky());
}

#[test]
fn sticky_message_then_arriving_train_scenario() {
    let merged = merge(
        vec![train("Franconia", "BL", "ARR")],
        Some(vec![message("Delay on Blue Line", NOW - 1000, true)]),
    );
    assert_eq!(merged.len(), 2);
    assert_eq!(merged[0].get_message(), "Delay on Blue Line");
    assert!(merged[0].is_sticky());
    assert_eq!(merged[1].get_arrival_time(), "ARR");
}

#[test]
fn output_sorted_ascending_by_sort_key() {
    let merged = merge(
        vec![
            train("A", "RD", "12"),
            train("B", "OR", "BRD"),
            train("C", "SV", "3"),
            train("D", "GR", "ARR"),
            train("E", "YL", "---"),
        ],
        Some(vec![message("note", NOW + 60_000, false)]),
    );
    assert_eq!(merged.len(), 6);
    for w in merged.windows(2) {
        assert!(w[0].get_comparison_timestamp() <= w[1].get_comparison_timestamp());
    }
    assert_eq!(merged[0].get_arrival_time(), "BRD");
    assert_eq!(merged[1].get_arrival_time(), "ARR");
    assert_eq!(merged[2].get_message(), "note");
    assert_eq!(merged[3].get_arrival_time(), "3");
    assert_eq!(merged[4].get_arrival_time(), "12");
    assert_eq!(merged[5].get_arrival_time(), "---");
}

#[test]
fn sort_is_stable_for_equal_keys() {
    let merged = merge(
        vec![train("First", "RD", "5"), train("Second", "BL", "5"), train("Third", "GR", "5")],
        None,
    );
    assert_eq!(merged.len(), 3);
    assert_eq!(merged[0].get_message(), "First");
    assert_eq!(merged[1].get_message(), "Second");
    assert_eq!(merged[2].get_message(), "Third");
}

#[test]
fn expired_non_sticky_message_excluded() {
    let merged = merge(vec![train("A", "RD", "5")], Some(vec![message("old", NOW - 1, false)]));
    assert_eq!(merged.len(), 1);
    assert_eq!(merged[0].get_message(), "A");
}

#[test]
fn sticky_message_with_past_timestamp_included_and_first() {
    let merged = merge(
        vec![train("A", "RD", "5"), train("B", "GR", "BRD")],
        Some(vec![message("pinned", NOW - 1, true)]),
    );
    assert_eq!(merged.len(), 3);
    assert_eq!(merged[0].get_message(), "pinned");
    assert!(merged[0].is_sticky());
}

#[test]
fn eta_class_ordering() {
    let merged = merge(
        vec![train("A", "RD", "5"), train("B", "OR", "ARR"), train("C", "BL", "BRD"),
            train("D", "GR", "DLY")],
        None,
    );
    assert_eq!(merged[0].get_arrival_time(), "BRD");
    assert_eq!(merged[1].get_arrival_time(), "ARR");
    assert_eq!(merged[2].get_arrival_time(), "5");
    assert_eq!(merged[3].get_arrival_time(), "DLY");
}

#[test]
fn merge_is_idempotent() {
    let build = || {
        merge(
            vec![train("A", "RD", "7"), train("B", "SV", "ARR")],
            Some(vec![message("hello", NOW + 90_000, false), message("pin", 0, true)]),
        )
    };
    let once = build();
    let twice = build();
    assert_eq!(once.len(), twice.len());
    for (a, b) in once.iter().zip(twice.iter()) {
        assert_eq!(a.get_comparison_timestamp(), b.get_comparison_timestamp());
        assert_eq!(a.get_message(), b.get_message());
        assert_eq!(a.get_leave(), b.get_leave());
        assert_eq!(a.get_arrival_time(), b.get_arrival_time());
        assert_eq!(a.get_line(), b.get_line());
        assert_eq!(a.is_sticky(), b.is_sticky());
    }
}

#[test]
fn leave_label_counts_down_to_dash() {
    let merged = merge(
        vec![train("A", "RD", "20"), train("B", "GR", "16"), train("C", "BL", "15"),
            train("D", "OR", "ARR")],
        None,
    );
    assert_eq!(merged[0].get_arrival_time(), "ARR");
    assert_eq!(merged[0].get_leave(), "- ");
    assert_eq!(merged[1].get_arrival_time(), "15");
    assert_eq!(merged[1].get_leave(), "- ");
    assert_eq!(merged[2].get_arrival_time(), "16");
    assert_eq!(merged[2].get_leave(), "1");
    assert_eq!(merged[3].get_arrival_time(), "20");
    assert_eq!(merged[3].get_leave(), "5");
}

#[test]
fn message_entry_fields() {
    let merged = merge(vec![], Some(vec![message("heads up", NOW + 30 * 60_000, false)]));
    assert_eq!(merged.len(), 1);
    let e = &merged[0];
    assert_eq!(e.get_line(), Line::TS);
    assert_eq!(e.get_line_color(), Rgb { r: 0, g: 51, b: 160 });
    assert_eq!(e.get_arrival_time(), "30");
    assert_eq!(e.get_leave(), "-45");
    assert_eq!(e.get_comparison_timestamp(), (NOW + 30 * 60_000) as i128);
    assert_eq!(e.get_comparison_timestamp_no_sticky(), (NOW + 30 * 60_000) as i128);
}

#[test]
fn sticky_message_sorts_at_epoch_zero() {
    let merged = merge(vec![], Some(vec![message("pin", NOW + 60_000, true)]));
    assert_eq!(merged.len(), 1);
    assert_eq!(merged[0].get_comparison_timestamp(), 0);
    assert_eq!(merged[0].get_comparison_timestamp_no_sticky(), (NOW + 60_000) as i128);
}

#[test]
fn destination_typos_are_canonicalized() {
    let merged = merge(
        vec![train("No Passenger", "RD", "1"), train("NoPssenger", "BL", "2"),
            train("ssenger", "GR", "3"), train("Glenmont", "OR", "4")],
        None,
    );
    assert_eq!(merged[0].get_message(), "No Psngr");
    assert_eq!(merged[1].get_message(), "No Psngr");
    assert_eq!(merged[2].get_message(), "No Psngr");
    assert_eq!(merged[3].get_message(), "Glenmont");
}

#[test]
fn unparseable_eta_sorts_one_day_out() {
    let merged = merge(vec![train("A", "RD", "oops")], None);
    assert_eq!(merged[0].get_comparison_timestamp(), (NOW + 86_400_000) as i128);
    assert_eq!(merged[0].get_leave(), "- ");
}

#[test]
fn entries_compare_by_sort_key() {
    let merged = merge(vec![train("A", "RD", "5"), train("B", "BL", "5"),
        train("C", "GR", "7")], None);
    assert!(merged[0] == merged[1]);
    assert!(merged[0] != merged[2]);
    assert!(merged[0] < merged[2]);
    assert!(merged[2] > merged[1]);
}

#[test]
fn loading_entry_shape() {
    let e = SimpleArrivalDisplayable::loading(NOW);
    assert_eq!(e.get_message(), "Loading...");
    assert!(e.is_sticky());
    assert_eq!(e.get_line(), Line::UNKNOWN);
    assert_eq!(e.get_line_color(), Rgb { r: 50, g: 50, b: 50 });
    assert_eq!(e.get_leave(), "");
    assert_eq!(e.get_arrival_time(), "");
    assert_eq!(e.get_comparison_timestamp(), NOW as i128);
}

#[test]
fn pretty_print_joins_line_and_message() {
    let merged = merge(vec![train("Glenmont", "RD", "5")], None);
    assert_eq!(merged[0].pretty_print(), "RD Glenmont");
}

#[test]
fn train_line_enum_from_string() {
    let t = train("A", "SV", "5");
    assert_eq!(t.get_line_enum(), Line::SV);
    let u = train("A", "XX", "5");
    assert_eq!(u.get_line_enum(), Line::UNKNOWN);
}
