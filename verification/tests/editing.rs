use message_decoder::field::Field;
use message_decoder::filter::{FilterType, LabelFilter, MessageFilter, OutputSelection, StartsWithBytes};
use message_decoder::highlight_editor::{HighlightIDEditState, HighlightIDState};
use message_decoder::label::{Color, Label, DRAFT_CHANNEL};
use message_decoder::label_editor::{EditFilterLabelState, EditFilterOptionsState, FilterLabelState};
use message_decoder::loader::MessageLoaderState;
use message_decoder::message::HighlightID;
use message_decoder::state::{copy_bindings, copy_highlights, Config, TableGui};

fn color(r: f32, g: f32, b: f32) -> Color {
    Color { red: r.to_bits(), green: g.to_bits(), blue: b.to_bits() }
}

fn binding(name: &str, id: Option<Vec<u8>>, speed: Option<&str>, rule: FilterType) -> LabelFilter {
    LabelFilter {
        label: Label { name: name.to_string(), color: color(0.5, 0.25, 1.0) },
        filter: MessageFilter::new(id, speed.map(|s| s.to_string()), rule),
    }
}

fn prefix_rule(bytes: &[u8], output: OutputSelection) -> FilterType {
    FilterType::StartsWithBytes(StartsWithBytes { bytes: bytes.to_vec(), output })
}

fn prefix_draft(name: &str, id: &str, speed: &str, bytes: &str) -> EditFilterLabelState {
    let mut draft = EditFilterLabelState::default();
    draft.name.value = name.to_string();
    draft.id.value = id.to_string();
    draft.speed.value = speed.to_string();
    draft.filter_type = FilterType::StartsWithBytes(StartsWithBytes::default());
    draft.filter_options = EditFilterOptionsState::OneStringFieldOneOutputSelection(
        Field::with_value(bytes.to_string()),
        OutputSelection::All,
    );
    draft
}

#[test]
fn draft_colour_is_the_pattern_of_255() {
    assert_eq!(DRAFT_CHANNEL, 255.0f32.to_bits());
    assert_eq!(Color::draft(), color(255.0, 255.0, 255.0));
}

#[test]
fn fresh_label_draft_is_blank_and_basic() {
    let draft = EditFilterLabelState::default();
    assert_eq!(draft.id.value, "");
    assert_eq!(draft.speed.value, "");
    assert_eq!(draft.name.value, "");
    assert!(draft.id.valid && draft.speed.valid && draft.name.valid && draft.color.valid);
    assert!(matches!(draft.filter_type, FilterType::Basic));
    assert!(matches!(draft.filter_options, EditFilterOptionsState::Empty));
    assert_eq!(draft.color.value, Color::draft());
    assert!(matches!(EditFilterOptionsState::default(), EditFilterOptionsState::Empty));
}

#[test]
fn options_follow_the_rule() {
    assert!(matches!(
        EditFilterOptionsState::from_filter_type(&FilterType::Basic),
        EditFilterOptionsState::Empty
    ));
    match EditFilterOptionsState::from_filter_type(&prefix_rule(&[0xde, 0xad], OutputSelection::All)) {
        EditFilterOptionsState::OneStringFieldOneOutputSelection(field, output) => {
            assert_eq!(field.value, "DE AD");
            assert!(field.valid);
            assert_eq!(output, OutputSelection::All);
        }
        _ => panic!("a rule on the first bytes has a text and a selection"),
    }
}

#[test]
fn draft_from_binding_shows_its_parts() {
    let source = binding("Beef", Some(vec![0x0a, 0xbc]), Some("1M"), prefix_rule(&[0xde], OutputSelection::AfterMatch));
    let draft = EditFilterLabelState::from_data(&source);
    assert_eq!(draft.id.value, "0A BC");
    assert_eq!(draft.speed.value, "1M");
    assert_eq!(draft.name.value, "Beef");
    assert_eq!(draft.color.value, color(0.5, 0.25, 1.0));
    assert!(matches!(draft.filter_type, FilterType::StartsWithBytes(_)));
    let open = EditFilterLabelState::from_data(&binding("Any", None, None, FilterType::Basic));
    assert_eq!(open.id.value, "");
    assert_eq!(open.speed.value, "");
    assert!(matches!(open.filter_options, EditFilterOptionsState::Empty));
}

#[test]
fn valid_basic_draft_gives_a_binding() {
    let mut draft = EditFilterLabelState::default();
    draft.name.value = "All".to_string();
    let made = draft.validate().unwrap();
    assert_eq!(made.label.name, "All");
    assert_eq!(made.label.color, Color::draft());
    assert_eq!(made.filter.id(), None);
    assert_eq!(made.filter.speed(), None);
    assert!(matches!(made.filter.filter_type(), FilterType::Basic));
}

#[test]
fn valid_prefix_draft_gives_a_binding() {
    let mut draft = prefix_draft("Beef", "a b c", "1M", "de ad");
    let made = draft.validate().unwrap();
    assert_eq!(made.filter.id(), Some(&vec![0x0a, 0xbc]));
    assert_eq!(made.filter.speed(), Some(&"1M".to_string()));
    match made.filter.filter_type() {
        FilterType::StartsWithBytes(rule) => {
            assert_eq!(rule.bytes, vec![0xde, 0xad]);
            assert_eq!(rule.output, OutputSelection::All);
        }
        _ => panic!("the binding has a rule on the first bytes"),
    }
    assert_eq!(draft.id.value, "a b c");
}

#[test]
fn editing_a_binding_and_validating_gives_it_back() {
    let source = binding("Beef", Some(vec![0x0a, 0xbc]), Some("1M"), prefix_rule(&[0xde, 0x01], OutputSelection::AfterMatch));
    let mut draft = EditFilterLabelState::from_data(&source);
    let made = draft.validate().unwrap();
    assert_eq!(made.label.name, "Beef");
    assert_eq!(made.label.color, source.label.color);
    assert_eq!(made.filter.id(), source.filter.id());
    assert_eq!(made.filter.speed(), source.filter.speed());
    match made.filter.filter_type() {
        FilterType::StartsWithBytes(rule) => {
            assert_eq!(rule.bytes, vec![0xde, 0x01]);
            assert_eq!(rule.output, OutputSelection::AfterMatch);
        }
        _ => panic!("the binding has a rule on the first bytes"),
    }
}

#[test]
fn invalid_identifier_stops_validation() {
    let mut draft = prefix_draft("", "xyz", "", "");
    draft.name.valid = true;
    assert!(draft.validate().is_err());
    assert!(!draft.id.valid);
    assert!(draft.name.valid);
    match &draft.filter_options {
        EditFilterOptionsState::OneStringFieldOneOutputSelection(field, _) => assert!(field.valid),
        _ => panic!("the options stay"),
    }
}

#[test]
fn empty_name_stops_validation() {
    let mut draft = prefix_draft("", "ab", "1M", "");
    assert!(draft.validate().is_err());
    assert!(draft.id.valid);
    assert!(draft.speed.valid);
    assert!(!draft.name.valid);
    match &draft.filter_options {
        EditFilterOptionsState::OneStringFieldOneOutputSelection(field, _) => assert!(field.valid),
        _ => panic!("the options stay"),
    }
}

#[test]
fn empty_or_malformed_prefix_is_refused() {
    let mut empty = prefix_draft("Beef", "", "", "  ");
    assert!(empty.validate().is_err());
    match &empty.filter_options {
        EditFilterOptionsState::OneStringFieldOneOutputSelection(field, _) => assert!(!field.valid),
        _ => panic!("the options stay"),
    }
    let mut malformed = prefix_draft("Beef", "", "", "0xde");
    assert!(malformed.validate().is_err());
    assert!(malformed.name.valid);
}

#[test]
fn options_must_fit_the_kind() {
    let mut draft = EditFilterLabelState::default();
    draft.name.value = "Odd".to_string();
    draft.filter_options = EditFilterOptionsState::OneStringField(Field::with_value("ab".to_string()));
    assert!(draft.validate().is_err());
    let mut other = prefix_draft("Odd", "", "", "ab");
    other.filter_options = EditFilterOptionsState::Empty;
    assert!(other.validate().is_err());
    let mut third = prefix_draft("Odd", "", "", "ab");
    third.filter_type = FilterType::Basic;
    assert!(third.validate().is_err());
}

#[test]
fn catalogue_add_appends_and_resets_the_draft() {
    let mut state = FilterLabelState::default();
    assert!(state.data.is_empty());
    assert_eq!(*state.editing_index(), None);
    state.edit_state.name.value = "First".to_string();
    assert!(state.add());
    state.edit_state = prefix_draft("Second", "ab", "", "01");
    assert!(state.add());
    assert_eq!(state.data.len(), 2);
    assert_eq!(state.data[0].label.name, "First");
    assert_eq!(state.data[1].label.name, "Second");
    assert_eq!(state.edit_state.name.value, "");
    assert!(matches!(state.edit_state.filter_type, FilterType::Basic));
    assert!(!state.add());
    assert_eq!(state.data.len(), 2);
    assert!(!state.edit_state.name.valid);
}

#[test]
fn catalogue_edit_and_commit_replace_in_place() {
    let mut state = FilterLabelState::from_data(vec![
        binding("a", None, None, FilterType::Basic),
        binding("b", Some(vec![1]), None, FilterType::Basic),
        binding("c", None, None, FilterType::Basic),
    ]);
    state.edit(1);
    assert_eq!(*state.editing_index(), Some(1));
    assert_eq!(state.edit_state.name.value, "b");
    assert_eq!(state.edit_state.id.value, "01");
    state.edit_state.name.value = "".to_string();
    state.commit();
    assert_eq!(*state.editing_index(), Some(1));
    assert_eq!(state.data[1].label.name, "b");
    assert!(!state.edit_state.name.valid);
    state.edit_state.name.value = "renamed".to_string();
    state.edit_state.id.value = "".to_string();
    state.commit();
    assert_eq!(*state.editing_index(), None);
    let names: Vec<&str> = state.data.iter().map(|b| b.label.name.as_str()).collect();
    assert_eq!(names, vec!["a", "renamed", "c"]);
    assert_eq!(state.data[1].filter.id(), None);
    assert_eq!(state.edit_state.name.value, "");
    state.edit_state.name.value = "ignored".to_string();
    state.commit();
    assert_eq!(state.data.len(), 3);
    assert_eq!(state.edit_state.name.value, "ignored");
}

#[test]
fn catalogue_remove_and_duplicate() {
    let mut state = FilterLabelState::from_data(vec![
        binding("a", None, None, FilterType::Basic),
        binding("b", Some(vec![1]), Some("1M"), prefix_rule(&[2], OutputSelection::All)),
        binding("c", None, None, FilterType::Basic),
    ]);
    assert!(state.duplicate(1));
    let names: Vec<&str> = state.data.iter().map(|b| b.label.name.as_str()).collect();
    assert_eq!(names, vec!["a", "b", "b", "c"]);
    assert_eq!(state.data[2].filter.id(), Some(&vec![1]));
    assert_eq!(state.data[2].filter.description(), "Data starts with 02");
    assert!(state.duplicate(3));
    assert_eq!(state.data.len(), 5);
    assert_eq!(state.data[4].label.name, "c");
    assert!(state.remove(0));
    assert!(state.remove(3));
    let names: Vec<&str> = state.data.iter().map(|b| b.label.name.as_str()).collect();
    assert_eq!(names, vec!["b", "b", "c"]);
    state.edit(0);
    assert!(!state.remove(1));
    assert!(!state.duplicate(1));
    assert!(!state.add());
    assert_eq!(state.data.len(), 3);
}

#[test]
fn fresh_highlight_draft_is_blank() {
    let draft = HighlightIDEditState::default();
    assert_eq!(draft.id, "");
    assert_eq!(draft.name, "");
    assert!(draft.id_valid && draft.name_valid);
    assert_eq!(draft.color, Color::draft());
}

#[test]
fn highlight_draft_shows_a_highlight() {
    let draft = HighlightIDEditState::from_data(&HighlightID::new(
        vec![0x0a, 0xbc],
        "Node1".to_string(),
        color(0.0, 1.0, 0.0),
    ));
    assert_eq!(draft.id, "0A BC");
    assert_eq!(draft.name, "Node1");
    assert_eq!(draft.color, color(0.0, 1.0, 0.0));
    assert!(draft.id_valid && draft.name_valid);
}

#[test]
fn validate_id_pads_the_text_of_odd_identifiers() {
    let mut draft = HighlightIDEditState::default();
    draft.id = "a b c".to_string();
    assert_eq!(draft.validate_id(), Some(vec![0x0a, 0xbc]));
    assert_eq!(draft.id, "0a b c");
    assert!(draft.id_valid);
    assert_eq!(draft.validate_id(), Some(vec![0x0a, 0xbc]));
    assert_eq!(draft.id, "0a b c");
}

#[test]
fn validate_id_refuses_empty_and_malformed_text() {
    let mut draft = HighlightIDEditState::default();
    draft.id = "  ".to_string();
    assert_eq!(draft.validate_id(), None);
    assert!(!draft.id_valid);
    assert_eq!(draft.id, "  ");
    draft.clear_validation();
    assert!(draft.id_valid);
    draft.id = "xyz".to_string();
    assert_eq!(draft.validate_id(), None);
    assert!(!draft.id_valid);
    assert_eq!(draft.id, "0xyz");
    draft.id = "ab".to_string();
    assert_eq!(draft.validate_id(), Some(vec![0xab]));
    assert!(!draft.id_valid);
}

#[test]
fn validate_name_refuses_empty_names() {
    let mut draft = HighlightIDEditState::default();
    assert_eq!(draft.validate_name(), None);
    assert!(!draft.name_valid);
    draft.name = "Node1".to_string();
    assert_eq!(draft.validate_name(), Some("Node1".to_string()));
    assert!(!draft.name_valid);
    draft.clear_validation();
    assert!(draft.name_valid && draft.id_valid);
}

#[test]
fn highlight_validate_and_clear() {
    let mut draft = HighlightIDEditState::default();
    draft.id = "ab".to_string();
    draft.name = "Node1".to_string();
    draft.color = color(1.0, 0.0, 0.0);
    let made = draft.validate().unwrap();
    assert_eq!(made.id(), &vec![0xab]);
    assert_eq!(made.name(), "Node1");
    assert_eq!(*made.color(), color(1.0, 0.0, 0.0));
    draft.name = String::new();
    assert!(draft.validate().is_none());
    assert!(draft.id_valid);
    assert!(!draft.name_valid);
    draft.id = "q".to_string();
    draft.name_valid = true;
    assert!(draft.validate().is_none());
    assert!(!draft.id_valid);
    assert!(draft.name_valid);
    draft.clear();
    assert_eq!(draft.id, "");
    assert_eq!(draft.name, "");
    assert!(draft.id_valid && draft.name_valid);
    assert_eq!(draft.color, Color::draft());
}

#[test]
fn highlight_catalogue_add_edit_commit_remove() {
    let mut state = HighlightIDState::default();
    state.edit_state.id = "ab".to_string();
    state.edit_state.name = "Node1".to_string();
    assert!(state.add());
    state.edit_state.id = "1".to_string();
    state.edit_state.name = "Node2".to_string();
    assert!(state.add());
    assert_eq!(state.data.len(), 2);
    assert_eq!(state.data[1].id(), &vec![0x01]);
    assert_eq!(state.edit_state.id, "");
    state.edit_state.id_valid = false;
    state.edit_state.id = "cd".to_string();
    assert!(!state.add());
    assert!(state.edit_state.id_valid);
    assert!(!state.edit_state.name_valid);
    state.edit_state.clear();
    state.edit(0);
    assert_eq!(*state.editing_index(), Some(0));
    assert_eq!(state.edit_state.id, "AB");
    assert!(!state.remove(1));
    assert!(!state.add());
    state.edit_state.name = "Renamed".to_string();
    state.commit();
    assert_eq!(*state.editing_index(), None);
    assert_eq!(state.data[0].name(), "Renamed");
    assert_eq!(state.data[1].name(), "Node2");
    state.edit(1);
    state.edit_state.id = "zz".to_string();
    state.commit();
    assert_eq!(*state.editing_index(), Some(1));
    assert_eq!(state.data[1].id(), &vec![0x01]);
    assert!(!state.edit_state.id_valid);
    state.edit_state.id = "02".to_string();
    state.commit();
    assert_eq!(state.data[1].id(), &vec![0x02]);
    assert!(state.remove(0));
    assert_eq!(state.data.len(), 1);
    assert_eq!(state.data[0].name(), "Node2");
    let restored = HighlightIDState::from_data(copy_highlights(&state.data));
    assert_eq!(restored.data.len(), 1);
    assert_eq!(*restored.editing_index(), None);
}

#[test]
fn session_starts_from_what_was_kept() {
    let config = Config::new(
        Some("log.csv".to_string()),
        vec![
            HighlightID::new(vec![0xab], "Node1".to_string(), color(0.0, 0.0, 1.0)),
            HighlightID::new(vec![0x01], "Node2".to_string(), color(0.0, 1.0, 0.0)),
        ],
        vec![
            binding("b", Some(vec![1]), Some("1M"), prefix_rule(&[2], OutputSelection::All)),
            binding("a", None, None, FilterType::Basic),
        ],
    );
    let session = TableGui::from_config(config);
    assert!(matches!(session.message_loader.state(), MessageLoaderState::FileSelected(p) if p == "log.csv"));
    let kept = session.save_state();
    assert_eq!(kept.file_path, Some("log.csv".to_string()));
    assert_eq!(kept.highlight_ids.len(), 2);
    assert_eq!(kept.highlight_ids[0].name(), "Node1");
    assert_eq!(kept.highlight_ids[1].id(), &vec![0x01]);
    assert_eq!(*kept.highlight_ids[1].color(), color(0.0, 1.0, 0.0));
    assert_eq!(kept.label_filters.len(), 2);
    assert_eq!(kept.label_filters[0].label.name, "b");
    assert_eq!(kept.label_filters[0].filter.speed(), Some(&"1M".to_string()));
    assert_eq!(kept.label_filters[0].filter.description(), "Data starts with 02");
    assert_eq!(kept.label_filters[1].label.name, "a");
    assert_eq!(copy_bindings(&kept.label_filters).len(), 2);
}

#[test]
fn new_session_is_empty() {
    let session = TableGui::new();
    assert!(matches!(session.message_loader.state(), MessageLoaderState::FileNotSelected));
    let kept = session.save_state();
    assert_eq!(kept.file_path, None);
    assert!(kept.highlight_ids.is_empty());
    assert!(kept.label_filters.is_empty());
    let again = TableGui::from_config(kept);
    assert!(matches!(again.message_loader.state(), MessageLoaderState::FileNotSelected));
}
