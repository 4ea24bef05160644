use directory_console::components::select::{
    clone_options, filter_options, FilterState, SearchableSelect, SearchableSelectMsg,
    SearchableSelectProps, Select, SelectMsg, SelectOptionProps, SelectProps,
};

fn option(value: &str, text: &str) -> SelectOptionProps {
    SelectOptionProps { value: value.to_string(), text: text.to_string() }
}

fn three_users() -> Vec<SelectOptionProps> {
    vec![option("u1", "Alice"), option("u2", "Bob"), option("u3", "ALBERT")]
}

fn multi_picker() -> SearchableSelect {
    let mut props = SearchableSelectProps::new(three_users());
    props.multiple = true;
    SearchableSelect::create(props)
}

fn single_picker() -> SearchableSelect {
    SearchableSelect::create(SearchableSelectProps::new(three_users()))
}

#[test]
fn empty_query_keeps_every_option() {
    let options = three_users();
    assert_eq!(filter_options(&options, ""), options);
}

#[test]
fn query_matches_ignoring_case() {
    let options = three_users();
    assert_eq!(
        filter_options(&options, "aL"),
        vec![option("u1", "Alice"), option("u3", "ALBERT")]
    );
    assert_eq!(filter_options(&options, "BOB"), vec![option("u2", "Bob")]);
    assert_eq!(filter_options(&options, "zed"), Vec::<SelectOptionProps>::new());
}

#[test]
fn query_in_upper_case_finds_lower_case_text() {
    let options = vec![option("u1", "alice"), option("u2", "bob")];
    assert_eq!(filter_options(&options, "ALICE"), vec![option("u1", "alice")]);
}

#[test]
fn query_must_be_contiguous() {
    let options = vec![option("u1", "alice")];
    assert_eq!(filter_options(&options, "ale"), Vec::<SelectOptionProps>::new());
    assert_eq!(filter_options(&options, "lic"), options);
    assert_eq!(filter_options(&options, "alice"), options);
    assert_eq!(filter_options(&options, "alices"), Vec::<SelectOptionProps>::new());
}

#[test]
fn query_searches_the_text_not_the_value() {
    let options = vec![option("needle", "hay"), option("hay", "needle")];
    assert_eq!(filter_options(&options, "needle"), vec![option("hay", "needle")]);
}

#[test]
fn filtering_twice_changes_nothing_more() {
    let options = three_users();
    let once = filter_options(&options, "al");
    let twice = filter_options(&once, "al");
    assert_eq!(once, twice);
}

#[test]
fn filtering_keeps_duplicates_and_order() {
    let options = vec![option("a", "Ann"), option("b", "Bo"), option("a", "Ann"), option("c", "Anna")];
    assert_eq!(
        filter_options(&options, "ann"),
        vec![option("a", "Ann"), option("a", "Ann"), option("c", "Anna")]
    );
}

#[test]
fn clone_options_copies_all() {
    let options = three_users();
    assert_eq!(clone_options(&options), options);
}

#[test]
fn created_picker_shows_everything_and_selects_nothing() {
    let picker = multi_picker();
    assert_eq!(picker.filtered_options(), &three_users());
    assert!(picker.submit_disabled());
    assert!(picker.multiple());
    assert_eq!(picker.query(), "");
    assert_eq!(picker.placeholder(), "Search...");
    assert_eq!(picker.selection(), Vec::<SelectOptionProps>::new());
    assert!(!picker.is_selected("u1"));
}

#[test]
fn default_props_are_single_with_placeholder() {
    let props = SearchableSelectProps::new(three_users());
    assert!(!props.multiple);
    assert_eq!(props.placeholder, "Search...");
    assert_eq!(props.options, three_users());
}

#[test]
fn search_narrows_display_and_keeps_selection() {
    let mut picker = multi_picker();
    assert_eq!(picker.toggle(option("u2", "Bob")), None);
    let update = picker.update(SearchableSelectMsg::OnSearchChange("al".to_string()));
    assert!(update.should_render);
    assert_eq!(update.emitted, None);
    assert_eq!(picker.query(), "al");
    assert_eq!(
        picker.filtered_options(),
        &vec![option("u1", "Alice"), option("u3", "ALBERT")]
    );
    assert!(picker.is_selected("u2"));
    picker.set_query(String::new());
    assert_eq!(picker.filtered_options(), &three_users());
    assert!(picker.is_selected("u2"));
}

#[test]
fn multi_submit_reports_in_offer_order() {
    let mut picker = multi_picker();
    assert_eq!(picker.toggle(option("u3", "ALBERT")), None);
    assert_eq!(picker.toggle(option("u1", "Alice")), None);
    let update = picker.update(SearchableSelectMsg::OnSubmit);
    assert!(update.should_render);
    assert_eq!(update.emitted, Some(vec![option("u1", "Alice"), option("u3", "ALBERT")]));
}

#[test]
fn multi_submit_keeps_the_selection() {
    let mut picker = multi_picker();
    picker.toggle(option("u2", "Bob"));
    assert_eq!(picker.submit(), Some(vec![option("u2", "Bob")]));
    assert!(picker.is_selected("u2"));
    assert_eq!(picker.submit(), Some(vec![option("u2", "Bob")]));
}

#[test]
fn multi_submit_of_nothing_reports_nothing() {
    let mut picker = multi_picker();
    assert!(picker.submit_disabled());
    assert_eq!(picker.submit(), None);
    picker.toggle(option("u1", "Alice"));
    picker.toggle(option("u1", "Alice"));
    assert_eq!(picker.submit(), None);
}

#[test]
fn multi_submit_includes_hidden_selection() {
    let mut picker = multi_picker();
    picker.toggle(option("u2", "Bob"));
    picker.set_query("al".to_string());
    picker.toggle(option("u1", "Alice"));
    assert_eq!(picker.submit(), Some(vec![option("u1", "Alice"), option("u2", "Bob")]));
}

#[test]
fn toggling_twice_restores_the_selection() {
    let mut picker = multi_picker();
    picker.toggle(option("u1", "Alice"));
    let before = picker.selection();
    assert_eq!(picker.toggle(option("u2", "Bob")), None);
    assert!(picker.is_selected("u2"));
    assert_eq!(picker.toggle(option("u2", "Bob")), None);
    assert!(!picker.is_selected("u2"));
    assert_eq!(picker.selection(), before);
    assert_eq!(picker.toggle(option("u1", "Alice")), None);
    assert_eq!(picker.toggle(option("u1", "Alice")), None);
    assert_eq!(picker.selection(), before);
}

#[test]
fn toggle_msg_turns_on_what_is_off_and_off_what_is_on() {
    let mut picker = multi_picker();
    assert_eq!(
        picker.toggle_msg(option("u1", "Alice")),
        SearchableSelectMsg::OnOptionSelect(option("u1", "Alice"), true)
    );
    picker.toggle(option("u1", "Alice"));
    assert_eq!(
        picker.toggle_msg(option("u1", "Alice")),
        SearchableSelectMsg::OnOptionSelect(option("u1", "Alice"), false)
    );
}

#[test]
fn turning_on_twice_in_multi_mode_keeps_it_on() {
    let mut picker = multi_picker();
    picker.update(SearchableSelectMsg::OnOptionSelect(option("u1", "Alice"), true));
    picker.update(SearchableSelectMsg::OnOptionSelect(option("u1", "Alice"), true));
    assert!(picker.is_selected("u1"));
    assert_eq!(picker.selection(), vec![option("u1", "Alice")]);
}

#[test]
fn single_mode_selecting_a_then_b_reports_each_and_keeps_b() {
    let mut picker = single_picker();
    let first = picker.update(SearchableSelectMsg::OnOptionSelect(option("u1", "Alice"), true));
    assert_eq!(first.emitted, Some(vec![option("u1", "Alice")]));
    let second = picker.update(SearchableSelectMsg::OnOptionSelect(option("u2", "Bob"), true));
    assert_eq!(second.emitted, Some(vec![option("u2", "Bob")]));
    assert!(!picker.is_selected("u1"));
    assert!(picker.is_selected("u2"));
    assert_eq!(picker.selection(), vec![option("u2", "Bob")]);
}

#[test]
fn single_mode_click_on_selected_turns_it_off() {
    let mut picker = single_picker();
    assert_eq!(picker.toggle(option("u1", "Alice")), Some(vec![option("u1", "Alice")]));
    assert_eq!(picker.toggle(option("u1", "Alice")), Some(vec![]));
    assert!(picker.submit_disabled());
}

#[test]
fn single_mode_submit_reports_nothing() {
    let mut picker = single_picker();
    picker.toggle(option("u1", "Alice"));
    assert_eq!(picker.submit(), None);
    assert!(picker.is_selected("u1"));
}

#[test]
fn plain_select_reports_nth_child() {
    let props = SelectProps::new(three_users());
    assert!(!props.searchable);
    assert!(!props.multiple);
    let mut select = Select::create();
    assert_eq!(select.get_nth_child_props(&props, 0), Some(option("u1", "Alice")));
    assert_eq!(select.get_nth_child_props(&props, 2), Some(option("u3", "ALBERT")));
    assert_eq!(select.get_nth_child_props(&props, 3), None);
    assert_eq!(select.get_nth_child_props(&props, -1), None);
    assert_eq!(select.get_nth_child_props(&props, -2), None);
    assert_eq!(select.get_nth_child_props(&props, i32::MIN), None);
    assert_eq!(select.get_nth_child_props(&props, i32::MAX), None);
    assert_eq!(select.send_selection_update(&props, 1), Some(option("u2", "Bob")));
    assert_eq!(select.rendered(&props, -1), None);
    assert_eq!(
        select.update(&props, 1, SelectMsg::OnSelectChange),
        (false, Some(option("u2", "Bob")))
    );
}

#[test]
fn plain_select_is_disabled_without_options() {
    assert!(Select::disabled(&SelectProps::new(vec![])));
    assert!(!Select::disabled(&SelectProps::new(three_users())));
}

#[test]
fn filter_state_follows_its_query() {
    let mut filter = FilterState::new(three_users());
    assert_eq!(filter.full_set(), &three_users());
    assert_eq!(filter.filtered_set(), &three_users());
    assert_eq!(filter.query(), "");
    filter.set_query("bo".to_string());
    assert_eq!(filter.query(), "bo");
    assert_eq!(filter.full_set(), &three_users());
    assert_eq!(filter.filtered_set(), &vec![option("u2", "Bob")]);
    filter.set_query("xyz".to_string());
    assert_eq!(filter.filtered_set(), &Vec::<SelectOptionProps>::new());
    filter.set_query(String::new());
    assert_eq!(filter.filtered_set(), &three_users());
}
