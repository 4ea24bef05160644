use directory_console::batch::JobStatus;
use directory_console::components::add_user_to_group::{
    clone_groups, groups_from_list, groups_from_options, option_names_group, options_from_groups,
    options_name_groups, selectable_groups, AddUserToGroup, AddUserToGroupComponent, Effect,
    GetGroupList, Group, GroupListGroup, Handled, Msg, Props, Rendering,
};
use directory_console::components::select::{
    SearchableSelect, SearchableSelectProps, SelectOptionProps,
};
use directory_console::error::TaskError;
use directory_console::task::TaskHandle;

fn group(id: i64, name: &str) -> Group {
    Group { id, display_name: name.to_string() }
}

fn row(id: i64, name: &str) -> GroupListGroup {
    GroupListGroup {
        id,
        display_name: name.to_string(),
        creation_date: "2024-01-02T03:04:05Z".to_string(),
    }
}

fn pick(value: &str, text: &str) -> SelectOptionProps {
    SelectOptionProps { value: value.to_string(), text: text.to_string() }
}

fn bob(memberships: Vec<Group>) -> Props {
    Props { username: "bob".to_string(), groups: memberships }
}

fn handle_of(effect: &Effect) -> TaskHandle {
    match effect {
        Effect::GetGroupList(handle, _) => *handle,
        Effect::AddUserToGroup(handle, _) => *handle,
        other => panic!("no request: {:?}", other),
    }
}

fn requested_group(effect: &Effect) -> i64 {
    match effect {
        Effect::AddUserToGroup(_, AddUserToGroup { user, group }) => {
            assert_eq!(user, "bob");
            *group
        }
        other => panic!("no request to add: {:?}", other),
    }
}

fn with_groups(props: &Props, list: Vec<GroupListGroup>, chosen: Vec<SelectOptionProps>) -> AddUserToGroupComponent {
    let (mut widget, effects) = AddUserToGroupComponent::create();
    let handle = handle_of(&effects[0]);
    widget.update(props, Msg::GroupListResponse(handle, Ok(list)));
    assert!(widget.takes(&Msg::SelectionChanged(chosen.clone())));
    widget.update(props, Msg::SelectionChanged(chosen));
    widget
}

#[test]
fn group_widget_fetches_the_group_list() {
    let (widget, effects) = AddUserToGroupComponent::create();
    assert_eq!(effects.len(), 1);
    assert!(matches!(&effects[0], Effect::GetGroupList(handle, GetGroupList {}) if handle.generation() == 1));
    assert!(widget.is_task_running());
    assert_eq!(widget.group_list(), &None);
    assert_eq!(widget.render(&bob(vec![])), Rendering::Loading);
}

#[test]
fn group_list_rows_lose_their_dates() {
    assert_eq!(Group::from(row(3, "admins")), group(3, "admins"));
    assert_eq!(
        groups_from_list(vec![row(3, "admins"), row(-4, "odd"), row(5, "")]),
        vec![group(3, "admins"), group(-4, "odd"), group(5, "")]
    );
    assert_eq!(groups_from_list(vec![]), Vec::<Group>::new());
}

#[test]
fn group_options_carry_the_id_as_decimal_text() {
    let groups = vec![
        group(0, "zero"),
        group(7, "seven"),
        group(-12, "minus"),
        group(i64::MAX, "max"),
        group(i64::MIN, "min"),
    ];
    let options = options_from_groups(&groups);
    assert_eq!(
        options,
        vec![
            pick("0", "zero"),
            pick("7", "seven"),
            pick("-12", "minus"),
            pick("9223372036854775807", "max"),
            pick("-9223372036854775808", "min"),
        ]
    );
    assert!(options_name_groups(&options));
    assert_eq!(groups_from_options(options), groups);
    assert_eq!(clone_groups(&groups), groups);
}

#[test]
fn group_option_text_falls_back_to_the_id() {
    let groups = vec![group(7, ""), group(1000, ""), group(-3, ""), group(5, "five")];
    let options = options_from_groups(&groups);
    assert_eq!(
        options,
        vec![pick("7", "7"), pick("1000", "1000"), pick("-3", "-3"), pick("5", "five")]
    );
    // read back, a group without a name has its id as its name
    assert_eq!(
        groups_from_options(options),
        vec![group(7, "7"), group(1000, "1000"), group(-3, "-3"), group(5, "five")]
    );
    let props = bob(vec![]);
    let (widget, _) = AddUserToGroupComponent::create();
    assert_eq!(
        widget.get_selectable_options(&props, &vec![group(7, "")]),
        vec![pick("7", "7")]
    );
}

#[test]
fn option_values_that_name_no_group() {
    for value in ["", "-", "+", "abc", "1a", " 1", "1 ", "--1", "9223372036854775808", "-9223372036854775809", "1.0", "٣"] {
        assert!(!option_names_group(&pick(value, "x")), "{:?}", value);
    }
    for value in ["0", "-0", "+5", "007", "9223372036854775807", "-9223372036854775808"] {
        assert!(option_names_group(&pick(value, "x")), "{:?}", value);
    }
    assert!(!options_name_groups(&vec![pick("1", "a"), pick("x", "b")]));
    assert!(options_name_groups(&vec![]));
    assert_eq!(
        groups_from_options(vec![pick("+5", "five"), pick("007", "bond"), pick("-0", "nil")]),
        vec![group(5, "five"), group(7, "bond"), group(0, "nil")]
    );
    let (widget, _) = AddUserToGroupComponent::create();
    assert!(!widget.takes(&Msg::SelectionChanged(vec![pick("x", "b")])));
    assert!(widget.takes(&Msg::SubmitAddGroups));
}

#[test]
fn memberships_are_never_offered() {
    let props = bob(vec![group(2, "staff"), group(9, "gone")]);
    let list = vec![group(1, "admins"), group(2, "staff"), group(3, "staffing")];
    assert_eq!(
        selectable_groups(&props.groups, &list),
        vec![group(1, "admins"), group(3, "staffing")]
    );
    let widget = with_groups(&props, vec![row(1, "admins"), row(2, "staff"), row(3, "staffing")], vec![]);
    let options = widget.get_selectable_options(&props, &list);
    assert_eq!(options, vec![pick("1", "admins"), pick("3", "staffing")]);
    assert_eq!(widget.get_selectable_group_list(&props, &list), vec![group(1, "admins"), group(3, "staffing")]);
    let mut picker = SearchableSelect::create(SearchableSelectProps::new(options));
    for query in ["", "staff", "STAFF", "s", "2", "admins"] {
        picker.set_query(query.to_string());
        for shown in picker.filtered_options() {
            assert_ne!(shown.value, "2");
        }
    }
}

#[test]
fn member_of_every_group_has_nothing_to_pick() {
    let props = bob(vec![group(1, "admins")]);
    let widget = with_groups(&props, vec![row(1, "admins")], vec![]);
    assert_eq!(widget.render(&props), Rendering::AllGroups);
}

#[test]
fn group_submit_label_counts_the_selection() {
    let props = bob(vec![]);
    let none = with_groups(&props, vec![row(1, "admins"), row(2, "staff")], vec![]);
    assert_eq!(
        none.render(&props),
        Rendering::Picker {
            options: vec![pick("1", "admins"), pick("2", "staff")],
            submit_disabled: true,
            submit_label: "Add to group".to_string(),
        }
    );
    let two = with_groups(
        &props,
        vec![row(1, "admins"), row(2, "staff")],
        vec![pick("1", "admins"), pick("2", "staff")],
    );
    assert_eq!(
        two.render(&props),
        Rendering::Picker {
            options: vec![pick("1", "admins"), pick("2", "staff")],
            submit_disabled: false,
            submit_label: "Add to 2 groups".to_string(),
        }
    );
}

#[test]
fn user_joins_three_groups_in_order() {
    let props = bob(vec![]);
    let mut widget = with_groups(
        &props,
        vec![row(1, "admins"), row(2, "staff"), row(3, "guests")],
        vec![pick("1", "admins"), pick("2", "staff"), pick("3", "guests")],
    );
    assert_eq!(
        widget.selected_groups(),
        &vec![group(1, "admins"), group(2, "staff"), group(3, "guests")]
    );
    let first = widget.update(&props, Msg::SubmitAddGroups);
    assert!(first.should_render);
    assert_eq!(first.effects.len(), 1);
    assert_eq!(requested_group(&first.effects[0]), 1);
    let second = widget.update(&props, Msg::AddGroupResponse(handle_of(&first.effects[0]), Ok(())));
    assert_eq!(second.effects.len(), 2);
    assert_eq!(second.effects[0], Effect::UserAddedToGroup(group(1, "admins")));
    assert_eq!(requested_group(&second.effects[1]), 2);
    let third = widget.update(&props, Msg::AddGroupResponse(handle_of(&second.effects[1]), Ok(())));
    assert_eq!(third.effects[0], Effect::UserAddedToGroup(group(2, "staff")));
    assert_eq!(requested_group(&third.effects[1]), 3);
    let last = widget.update(&props, Msg::AddGroupResponse(handle_of(&third.effects[1]), Ok(())));
    assert_eq!(
        last,
        Handled {
            should_render: true,
            effects: vec![Effect::UserAddedToGroup(group(3, "guests")), Effect::BatchDone],
        }
    );
    assert_eq!(widget.job().status(), &JobStatus::Done);
    assert_eq!(widget.job().cursor(), 3);
}

#[test]
fn joining_stops_at_the_first_failure() {
    let props = bob(vec![]);
    let mut widget = with_groups(
        &props,
        vec![row(1, "admins"), row(2, "staff"), row(3, "guests")],
        vec![pick("1", "admins"), pick("2", "staff"), pick("3", "guests")],
    );
    let first = widget.update(&props, Msg::SubmitAddGroups);
    let second = widget.update(&props, Msg::AddGroupResponse(handle_of(&first.effects[0]), Ok(())));
    let failed = widget.update(
        &props,
        Msg::AddGroupResponse(
            handle_of(&second.effects[1]),
            Err(TaskError::Network("already a member".to_string())),
        ),
    );
    assert_eq!(
        failed.effects,
        vec![Effect::Error(TaskError::Network("already a member".to_string()))]
    );
    assert_eq!(widget.job().cursor(), 1);
    assert_eq!(
        widget.job().status(),
        &JobStatus::Failed(TaskError::Network("already a member".to_string()))
    );
    assert_eq!(widget.error(), &Some(TaskError::Network("already a member".to_string())));
    assert!(!widget.is_task_running());
}

#[test]
fn group_submission_of_nothing_and_while_busy() {
    let props = bob(vec![]);
    let (mut widget, effects) = AddUserToGroupComponent::create();
    assert_eq!(
        widget.update(&props, Msg::SubmitAddGroups),
        Handled { should_render: false, effects: vec![] }
    );
    widget.update(&props, Msg::SelectionChanged(vec![pick("4", "ops")]));
    // the list is still being fetched
    assert_eq!(
        widget.update(&props, Msg::SubmitAddGroups),
        Handled { should_render: true, effects: vec![Effect::Error(TaskError::busy())] }
    );
    widget.update(&props, Msg::GroupListResponse(handle_of(&effects[0]), Ok(vec![row(4, "ops")])));
    let sent = widget.update(&props, Msg::SubmitAddGroups);
    assert_eq!(requested_group(&sent.effects[0]), 4);
    widget.destroy();
    assert_eq!(
        widget.update(&props, Msg::AddGroupResponse(handle_of(&sent.effects[0]), Ok(()))),
        Handled { should_render: false, effects: vec![] }
    );
}
