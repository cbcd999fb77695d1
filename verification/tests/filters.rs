use message_decoder::file::parse_file;
use message_decoder::filter::{find_first, matches_at, matching_labels, FilterType, LabelFilter, MessageFilter, OutputSelection, SpecialFilter, StartsWithBytes};
use message_decoder::label::{Color, Label};
use message_decoder::label_editor::FilterLabelState;
use message_decoder::message::{HighlightID, Message};
use message_decoder::palette::{ack_color, speed_color, Tint};

fn color(r: f32, g: f32, b: f32) -> Color {
    Color { red: r.to_bits(), green: g.to_bits(), blue: b.to_bits() }
}

fn message(id: &[u8], data: &[u8], speed: &str) -> Message {
    Message {
        timestamp: "0.0".to_string(),
        id: id.to_vec(),
        data: data.to_vec(),
        crc: vec![0x00],
        ack: true,
        speed: speed.to_string(),
    }
}

fn binding(name: &str, filter: MessageFilter) -> LabelFilter {
    LabelFilter { label: Label { name: name.to_string(), color: color(1.0, 0.0, 0.0) }, filter }
}

fn starts_with(bytes: &[u8], output: OutputSelection) -> FilterType {
    FilterType::StartsWithBytes(StartsWithBytes { bytes: bytes.to_vec(), output })
}

#[test]
fn output_selection_names_and_default() {
    assert_eq!(OutputSelection::All.name(), "Whole message");
    assert_eq!(OutputSelection::AfterMatch.name(), "After match");
    assert_eq!(OutputSelection::default(), OutputSelection::AfterMatch);
    assert_eq!(OutputSelection::choices(), vec![OutputSelection::All, OutputSelection::AfterMatch]);
}

#[test]
fn filter_type_names_kinds_and_default() {
    assert_eq!(FilterType::Basic.name(), "Basic");
    assert_eq!(starts_with(&[1], OutputSelection::All).name(), "Starts with bytes");
    assert!(matches!(FilterType::default(), FilterType::Basic));
    let kinds = FilterType::kinds();
    assert_eq!(kinds.len(), 2);
    assert!(matches!(kinds[0], FilterType::Basic));
    match &kinds[1] {
        FilterType::StartsWithBytes(rule) => {
            assert!(rule.bytes.is_empty());
            assert_eq!(rule.output, OutputSelection::AfterMatch);
        }
        _ => panic!("second kind is the rule on the first bytes"),
    }
}

#[test]
fn is_variant_ignores_contents() {
    let a = starts_with(&[1, 2], OutputSelection::All);
    let b = starts_with(&[], OutputSelection::AfterMatch);
    assert!(a.is_variant(&b));
    assert!(FilterType::Basic.is_variant(&FilterType::Basic));
    assert!(!a.is_variant(&FilterType::Basic));
    assert!(!FilterType::Basic.is_variant(&b));
}

#[test]
fn starts_with_bytes_default_is_empty_after_match() {
    let rule = StartsWithBytes::default();
    assert!(rule.bytes.is_empty());
    assert_eq!(rule.output, OutputSelection::AfterMatch);
}

#[test]
fn find_first_gives_the_earliest_position() {
    assert_eq!(find_first(&[1, 2, 3, 2, 3], &[2, 3]), Some(1));
    assert_eq!(find_first(&[1, 2, 3], &[1, 2, 3]), Some(0));
    assert_eq!(find_first(&[1, 2, 3], &[3]), Some(2));
    assert_eq!(find_first(&[1, 2, 3], &[4]), None);
    assert_eq!(find_first(&[1, 2], &[1, 2, 3]), None);
    assert_eq!(find_first(&[1, 2], &[]), Some(0));
    assert_eq!(find_first(&[], &[]), Some(0));
    assert!(matches_at(&[1, 2, 3], &[2, 3], 1));
    assert!(!matches_at(&[1, 2, 3], &[2, 3], 0));
    assert!(!matches_at(&[1, 2, 3], &[2, 3], 2));
    assert!(!matches_at(&[1, 2, 3], &[2, 3], usize::MAX));
    assert!(matches_at(&[1, 2, 3], &[], 3));
    assert!(!matches_at(&[1, 2, 3], &[], 4));
}

#[test]
fn basic_rule_without_constraints_matches_everything() {
    let filter = MessageFilter::new(None, None, FilterType::Basic);
    assert!(filter.filter(&message(&[0xab], &[1, 2, 3], "1M")));
    assert!(filter.filter(&message(&[], &[], "")));
    assert_eq!(filter.output_data(&message(&[0xab], &[1, 2, 3], "1M")), None);
}

#[test]
fn starts_with_bytes_matches_exactly_on_prefix() {
    let rule = StartsWithBytes { bytes: vec![0xde, 0xad], output: OutputSelection::AfterMatch };
    assert!(rule.filter_specific(&message(&[1], &[0xde, 0xad, 0xbe, 0xef], "1M")));
    assert!(rule.filter_specific(&message(&[1], &[0xde, 0xad], "1M")));
    assert!(!rule.filter_specific(&message(&[1], &[0xde], "1M")));
    assert!(!rule.filter_specific(&message(&[1], &[0x00, 0xde, 0xad], "1M")));
    assert!(!rule.filter_specific(&message(&[1], &[], "1M")));
}

#[test]
fn after_match_output_is_the_rest_of_the_payload() {
    let rule = StartsWithBytes { bytes: vec![0xde, 0xad], output: OutputSelection::AfterMatch };
    assert_eq!(
        rule.output_data(&message(&[1], &[0xde, 0xad, 0xbe, 0xef], "1M")),
        Some(vec![0xbe, 0xef])
    );
    assert_eq!(rule.output_data(&message(&[1], &[0xde, 0xad], "1M")), Some(vec![]));
    assert_eq!(
        rule.output_data(&message(&[1], &[0x00, 0xde, 0xad, 0x07], "1M")),
        Some(vec![0x07])
    );
    assert_eq!(rule.output_data(&message(&[1], &[0x00, 0x01], "1M")), None);
}

#[test]
fn whole_message_output_is_the_payload() {
    let rule = StartsWithBytes { bytes: vec![0xde], output: OutputSelection::All };
    assert_eq!(
        rule.output_data(&message(&[1], &[0xde, 0xad, 0xbe], "1M")),
        Some(vec![0xde, 0xad, 0xbe])
    );
}

#[test]
fn empty_prefix_matches_and_shows_everything() {
    let after = StartsWithBytes { bytes: vec![], output: OutputSelection::AfterMatch };
    let whole = StartsWithBytes { bytes: vec![], output: OutputSelection::All };
    let payload = message(&[1], &[9, 8, 7], "1M");
    assert!(after.filter_specific(&payload));
    assert_eq!(after.output_data(&payload), Some(vec![9, 8, 7]));
    assert_eq!(whole.output_data(&payload), Some(vec![9, 8, 7]));
    let nothing = message(&[1], &[], "1M");
    assert!(after.filter_specific(&nothing));
    assert_eq!(after.output_data(&nothing), Some(vec![]));
}

#[test]
fn identifier_constraint_excludes_other_identifiers() {
    let filter = MessageFilter::new(Some(vec![0xab]), None, FilterType::Basic);
    assert!(filter.filter(&message(&[0xab], &[1], "1M")));
    assert!(!filter.filter(&message(&[0xac], &[1], "1M")));
    assert!(!filter.filter(&message(&[0xab, 0x00], &[1], "1M")));
    assert!(!filter.filter(&message(&[], &[1], "1M")));
    let with_rule = MessageFilter::new(
        Some(vec![0xab]),
        None,
        starts_with(&[], OutputSelection::All),
    );
    assert!(!with_rule.filter(&message(&[0x01], &[0xab], "1M")));
}

#[test]
fn speed_constraint_compares_exactly() {
    let filter = MessageFilter::new(None, Some("1M".to_string()), FilterType::Basic);
    assert!(filter.filter(&message(&[1], &[], "1M")));
    assert!(!filter.filter(&message(&[1], &[], "1m")));
    assert!(!filter.filter(&message(&[1], &[], "500k")));
    let both = MessageFilter::new(Some(vec![1]), Some("1M".to_string()), starts_with(&[7], OutputSelection::All));
    assert!(both.filter(&message(&[1], &[7, 8], "1M")));
    assert!(!both.filter(&message(&[1], &[8, 7], "1M")));
    assert!(!both.filter(&message(&[1], &[7, 8], "667k")));
    assert!(!both.filter(&message(&[2], &[7, 8], "1M")));
}

#[test]
fn message_filter_getters_and_texts() {
    let ids = vec![HighlightID::new(vec![0xab], "Node1".to_string(), color(0.0, 1.0, 0.0))];
    let filter = MessageFilter::new(
        Some(vec![0xab]),
        Some("1M".to_string()),
        starts_with(&[0xde, 0xad], OutputSelection::All),
    );
    assert_eq!(filter.id(), Some(&vec![0xab]));
    assert_eq!(filter.speed(), Some(&"1M".to_string()));
    assert!(matches!(filter.filter_type(), FilterType::StartsWithBytes(_)));
    assert_eq!(filter.id_string(&ids), "Node1");
    assert_eq!(filter.id_string(&vec![]), "ab");
    assert_eq!(filter.speed_string(), "1M");
    assert_eq!(filter.description(), "Data starts with dead");
    let open = MessageFilter::new(None, None, FilterType::Basic);
    assert_eq!(open.id(), None);
    assert_eq!(open.speed(), None);
    assert_eq!(open.id_string(&ids), "any");
    assert_eq!(open.speed_string(), "any");
    assert_eq!(open.description(), "Basic filter");
}

#[test]
fn clones_are_equal_in_content() {
    let source = binding(
        "Beef",
        MessageFilter::new(Some(vec![1, 2]), Some("1M".to_string()), starts_with(&[3], OutputSelection::All)),
    );
    let copy = source.clone();
    assert_eq!(copy.label.name, "Beef");
    assert_eq!(copy.label.color, source.label.color);
    assert_eq!(copy.filter.id(), Some(&vec![1, 2]));
    assert_eq!(copy.filter.speed(), Some(&"1M".to_string()));
    match copy.filter.filter_type() {
        FilterType::StartsWithBytes(rule) => {
            assert_eq!(rule.bytes, vec![3]);
            assert_eq!(rule.output, OutputSelection::All);
        }
        _ => panic!("the copy keeps the kind of rule"),
    }
}

#[test]
fn matching_labels_keeps_the_order_of_the_bindings() {
    let bindings = vec![
        binding("all", MessageFilter::new(None, None, FilterType::Basic)),
        binding("other", MessageFilter::new(Some(vec![0x01]), None, FilterType::Basic)),
        binding("rest", MessageFilter::new(None, None, starts_with(&[0xde], OutputSelection::AfterMatch))),
        binding("whole", MessageFilter::new(None, None, starts_with(&[0xde], OutputSelection::All))),
        binding("all", MessageFilter::new(None, None, FilterType::Basic)),
    ];
    let results = matching_labels(&bindings, &message(&[0xab], &[0xde, 0xad], "1M"));
    let names: Vec<&str> = results.iter().map(|r| r.label.name.as_str()).collect();
    assert_eq!(names, vec!["all", "rest", "whole", "all"]);
    assert_eq!(results[0].output, None);
    assert_eq!(results[1].output, Some(vec![0xad]));
    assert_eq!(results[2].output, Some(vec![0xde, 0xad]));
    assert!(matching_labels(&vec![], &message(&[0xab], &[], "1M")).is_empty());
    let state = FilterLabelState::from_data(bindings);
    assert_eq!(state.matching_labels(&message(&[0x01], &[0x00], "1M")).len(), 3);
}

#[test]
fn two_rows_one_highlight_one_label() {
    let text = "timestamp,id,data,crc,ack,speed\n0.001,AB,DEADBEEF,FF,true,1M\n0.002,AB,DEAD0000,00,false,500k\n";
    let messages = parse_file(text.as_bytes()).unwrap();
    let highlights = vec![HighlightID::new(vec![0xab], "Node1".to_string(), color(0.0, 0.0, 1.0))];
    let bindings = vec![binding(
        "Beef",
        MessageFilter::new(None, None, starts_with(&[0xde, 0xad], OutputSelection::AfterMatch)),
    )];
    assert_eq!(messages.len(), 2);
    for m in &messages {
        assert_eq!(m.match_id(&highlights).unwrap().name(), "Node1");
    }
    let first = matching_labels(&bindings, &messages[0]);
    let second = matching_labels(&bindings, &messages[1]);
    assert_eq!(first.len(), 1);
    assert_eq!(first[0].label.name, "Beef");
    assert_eq!(first[0].output, Some(vec![0xbe, 0xef]));
    assert_eq!(second.len(), 1);
    assert_eq!(second[0].label.name, "Beef");
    assert_eq!(second[0].output, Some(vec![0x00, 0x00]));
    assert!(!messages[1].ack);
    assert!(messages[0].ack);
}

#[test]
fn signal_colours() {
    assert_eq!(ack_color(true), Tint::Green);
    assert_eq!(ack_color(false), Tint::Red);
    assert_eq!(speed_color(&"1M".to_string()), Tint::Green);
    assert_eq!(speed_color(&"667k".to_string()), Tint::Yellow);
    assert_eq!(speed_color(&"500k".to_string()), Tint::Red);
    assert_eq!(speed_color(&"1m".to_string()), Tint::White);
    assert_eq!(speed_color(&"".to_string()), Tint::White);
}
