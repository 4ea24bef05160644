use directory_console::batch::JobStatus;
use directory_console::components::add_group_member::{
    clone_users, options_from_users, selectable_users, users_from_options, AddGroupMemberComponent,
    AddUserToGroup, Effect, Handled, ListUserNames, Msg, Props, Rendering, User,
};
use directory_console::components::select::{
    SearchableSelect, SearchableSelectProps, SelectOptionProps,
};
use directory_console::error::TaskError;
use directory_console::task::TaskHandle;

fn user(id: &str, name: &str) -> User {
    User { id: id.to_string(), display_name: name.to_string() }
}

fn option(value: &str, text: &str) -> SelectOptionProps {
    SelectOptionProps { value: value.to_string(), text: text.to_string() }
}

fn network(message: &str) -> TaskError {
    TaskError::Network(message.to_string())
}

fn props(members: Vec<User>) -> Props {
    Props { group_id: 7, users: members }
}

fn request_handle(effect: &Effect) -> TaskHandle {
    match effect {
        Effect::ListUserNames(handle, _) => *handle,
        Effect::AddUserToGroup(handle, _) => *handle,
        other => panic!("no request: {:?}", other),
    }
}

fn request_user(effect: &Effect) -> String {
    match effect {
        Effect::AddUserToGroup(_, AddUserToGroup { user, group }) => {
            assert_eq!(*group, 7);
            user.clone()
        }
        other => panic!("no request to add: {:?}", other),
    }
}

/// A widget whose list of users has arrived, with these users chosen.
fn loaded(props: &Props, list: Vec<User>, chosen: Vec<SelectOptionProps>) -> AddGroupMemberComponent {
    let (mut widget, effects) = AddGroupMemberComponent::create();
    assert_eq!(effects.len(), 1);
    let handle = request_handle(&effects[0]);
    let handled = widget.update(props, Msg::UserListResponse(handle, Ok(list)));
    assert_eq!(handled, Handled { should_render: true, effects: vec![] });
    let handled = widget.update(props, Msg::SelectionChanged(chosen));
    assert_eq!(handled, Handled { should_render: true, effects: vec![] });
    widget
}

#[test]
fn create_fetches_the_user_list() {
    let (widget, effects) = AddGroupMemberComponent::create();
    assert_eq!(effects.len(), 1);
    assert!(matches!(&effects[0], Effect::ListUserNames(handle, ListUserNames {}) if handle.generation() == 1));
    assert!(widget.is_task_running());
    assert!(widget.can_start());
    assert_eq!(widget.user_list(), &None);
    assert_eq!(widget.selected_users(), &Vec::<User>::new());
    assert_eq!(widget.error(), &None);
    assert_eq!(widget.job().status(), &JobStatus::Idle);
    assert_eq!(widget.render(&props(vec![])), Rendering::Loading);
}

#[test]
fn three_users_all_succeed() {
    let props = props(vec![]);
    let list = vec![user("u1", "Alice"), user("u2", "Bob"), user("u3", "Carol")];
    let (mut widget, effects) = AddGroupMemberComponent::create();
    let handle = request_handle(&effects[0]);
    widget.update(&props, Msg::UserListResponse(handle, Ok(list)));

    let options = match widget.render(&props) {
        Rendering::Picker { options, submit_disabled, submit_label } => {
            assert!(submit_disabled);
            assert_eq!(submit_label, "Add member");
            options
        }
        other => panic!("no picker: {:?}", other),
    };
    assert_eq!(
        options,
        vec![option("u1", "Alice"), option("u2", "Bob"), option("u3", "Carol")]
    );
    let mut picker_props = SearchableSelectProps::new(options);
    picker_props.multiple = true;
    let mut picker = SearchableSelect::create(picker_props);
    picker.toggle(option("u3", "Carol"));
    picker.toggle(option("u1", "Alice"));
    picker.toggle(option("u2", "Bob"));
    let chosen = picker.submit().unwrap();
    widget.update(&props, Msg::SelectionChanged(chosen));
    match widget.render(&props) {
        Rendering::Picker { submit_disabled, submit_label, .. } => {
            assert!(!submit_disabled);
            assert_eq!(submit_label, "Add 3 members");
        }
        other => panic!("no picker: {:?}", other),
    }

    let mut calls: Vec<String> = vec![];
    let mut committed: Vec<User> = vec![];
    let mut done = 0;
    let mut handled = widget.update(&props, Msg::SubmitAddMembers);
    loop {
        assert!(handled.should_render);
        let mut next: Option<TaskHandle> = None;
        for effect in handled.effects {
            match effect {
                Effect::AddUserToGroup(handle, request) => {
                    assert_eq!(request.group, 7);
                    // each request goes out only after every earlier user was reported
                    assert_eq!(committed.len(), calls.len());
                    calls.push(request.user);
                    assert!(next.is_none());
                    next = Some(handle);
                }
                Effect::UserAddedToGroup(user) => committed.push(user),
                Effect::BatchDone => done += 1,
                other => panic!("unexpected: {:?}", other),
            }
        }
        match next {
            Some(handle) => {
                assert!(widget.is_task_running());
                handled = widget.update(&props, Msg::AddMemberResponse(handle, Ok(())));
            }
            None => break,
        }
    }
    assert_eq!(calls, vec!["u1", "u2", "u3"]);
    assert_eq!(committed, vec![user("u1", "Alice"), user("u2", "Bob"), user("u3", "Carol")]);
    assert_eq!(done, 1);
    assert_eq!(widget.job().status(), &JobStatus::Done);
    assert_eq!(widget.job().cursor(), 3);
    assert!(!widget.is_task_running());
    assert_eq!(widget.error(), &None);
}

#[test]
fn second_of_two_users_fails() {
    let props = props(vec![]);
    let mut widget = loaded(
        &props,
        vec![user("u1", "Alice"), user("u2", "Bob")],
        vec![option("u1", "Alice"), option("u2", "Bob")],
    );
    let first = widget.update(&props, Msg::SubmitAddMembers);
    assert_eq!(first.effects.len(), 1);
    assert_eq!(request_user(&first.effects[0]), "u1");
    let second = widget.update(&props, Msg::AddMemberResponse(request_handle(&first.effects[0]), Ok(())));
    assert_eq!(second.effects.len(), 2);
    assert_eq!(second.effects[0], Effect::UserAddedToGroup(user("u1", "Alice")));
    assert_eq!(request_user(&second.effects[1]), "u2");
    let failed = widget.update(
        &props,
        Msg::AddMemberResponse(request_handle(&second.effects[1]), Err(network("refused"))),
    );
    assert_eq!(
        failed,
        Handled { should_render: true, effects: vec![Effect::Error(network("refused"))] }
    );
    assert_eq!(widget.job().status(), &JobStatus::Failed(network("refused")));
    assert_eq!(widget.job().cursor(), 1);
    assert_eq!(widget.error(), &Some(network("refused")));
    assert!(!widget.is_task_running());
    assert_eq!(widget.job().items(), &vec![user("u1", "Alice"), user("u2", "Bob")]);
    // a late or repeated response changes nothing
    let late = widget.update(
        &props,
        Msg::AddMemberResponse(request_handle(&second.effects[1]), Ok(())),
    );
    assert_eq!(late, Handled { should_render: false, effects: vec![] });
    assert_eq!(widget.job().cursor(), 1);
}

#[test]
fn members_are_never_offered_whatever_the_search() {
    let props = props(vec![user("u2", "Bob"), user("u9", "Nobody")]);
    let list = vec![user("u1", "Alice"), user("u2", "Bob"), user("u3", "Bobby")];
    let widget = loaded(&props, list.clone(), vec![]);
    assert_eq!(
        widget.get_selectable_user_list(&props, &list),
        vec![user("u1", "Alice"), user("u3", "Bobby")]
    );
    let options = widget.get_selectable_options(&props, &list);
    assert_eq!(options, vec![option("u1", "Alice"), option("u3", "Bobby")]);
    let mut picker = SearchableSelect::create(SearchableSelectProps::new(options));
    for query in ["", "b", "bob", "Bob", "u2", "o", "alice", "zzz"] {
        picker.set_query(query.to_string());
        for shown in picker.filtered_options() {
            assert_ne!(shown.value, "u2");
        }
    }
    picker.set_query("bob".to_string());
    assert_eq!(picker.filtered_options(), &vec![option("u3", "Bobby")]);
}

#[test]
fn members_are_told_apart_by_id_alone() {
    let members = vec![user("u1", "another name")];
    let list = vec![user("u1", "Alice"), user("u2", "another name")];
    assert_eq!(selectable_users(&members, &list), vec![user("u2", "another name")]);
}

#[test]
fn every_user_a_member_leaves_nothing_to_pick() {
    let props = props(vec![user("u1", "Alice")]);
    let widget = loaded(&props, vec![user("u1", "Alice")], vec![]);
    assert_eq!(widget.render(&props), Rendering::AllMembers);
}

#[test]
fn option_text_falls_back_to_the_id() {
    let users = vec![user("u1", ""), user("u2", "Bob")];
    assert_eq!(options_from_users(&users), vec![option("u1", "u1"), option("u2", "Bob")]);
    assert_eq!(
        users_from_options(vec![option("u1", "u1"), option("u2", "Bob")]),
        vec![user("u1", "u1"), user("u2", "Bob")]
    );
    assert_eq!(clone_users(&users), users);
}

#[test]
fn submit_label_counts_the_selection() {
    let props = props(vec![]);
    let list = vec![user("u1", "Alice"), user("u2", "Bob")];
    let one = loaded(&props, list.clone(), vec![option("u1", "Alice")]);
    match one.render(&props) {
        Rendering::Picker { submit_label, submit_disabled, .. } => {
            assert_eq!(submit_label, "Add member");
            assert!(!submit_disabled);
        }
        other => panic!("no picker: {:?}", other),
    }
    let many: Vec<SelectOptionProps> =
        (0..12).map(|i| option(&format!("x{}", i), "x")).collect();
    let twelve = loaded(&props, list, many);
    match twelve.render(&props) {
        Rendering::Picker { submit_label, .. } => assert_eq!(submit_label, "Add 12 members"),
        other => panic!("no picker: {:?}", other),
    }
}

#[test]
fn empty_submission_does_nothing() {
    let props = props(vec![]);
    let mut widget = loaded(&props, vec![user("u1", "Alice")], vec![]);
    let handled = widget.update(&props, Msg::SubmitAddMembers);
    assert_eq!(handled, Handled { should_render: false, effects: vec![] });
    assert_eq!(widget.job().status(), &JobStatus::Idle);
    assert!(!widget.is_task_running());
    assert_eq!(widget.error(), &None);
    assert_eq!(widget.handle_msg(&props, Msg::SubmitAddMembers), Ok(Handled { should_render: false, effects: vec![] }));
}

#[test]
fn submission_while_busy_is_refused() {
    let props = props(vec![]);
    let mut widget = loaded(
        &props,
        vec![user("u1", "Alice"), user("u2", "Bob")],
        vec![option("u1", "Alice"), option("u2", "Bob")],
    );
    let first = widget.update(&props, Msg::SubmitAddMembers);
    let handle = request_handle(&first.effects[0]);
    match widget.render(&props) {
        Rendering::Picker { submit_disabled, .. } => assert!(submit_disabled),
        other => panic!("no picker: {:?}", other),
    }
    assert_eq!(widget.handle_msg(&props, Msg::SubmitAddMembers), Err(TaskError::busy()));
    let again = widget.update(&props, Msg::SubmitAddMembers);
    assert_eq!(
        again,
        Handled { should_render: true, effects: vec![Effect::Error(TaskError::busy())] }
    );
    assert_eq!(widget.error(), &Some(TaskError::busy()));
    assert_eq!(widget.job().cursor(), 0);
    assert_eq!(widget.job().status(), &JobStatus::Running);
    // the batch that runs goes on
    let next = widget.update(&props, Msg::AddMemberResponse(handle, Ok(())));
    assert_eq!(next.effects[0], Effect::UserAddedToGroup(user("u1", "Alice")));
    assert_eq!(request_user(&next.effects[1]), "u2");
}

#[test]
fn batch_keeps_the_selection_it_was_submitted_with() {
    let props = props(vec![]);
    let mut widget = loaded(
        &props,
        vec![user("u1", "Alice"), user("u2", "Bob"), user("u3", "Carol")],
        vec![option("u1", "Alice"), option("u2", "Bob")],
    );
    let first = widget.update(&props, Msg::SubmitAddMembers);
    widget.update(&props, Msg::SelectionChanged(vec![option("u3", "Carol")]));
    assert_eq!(widget.selected_users(), &vec![user("u3", "Carol")]);
    let second = widget.update(&props, Msg::AddMemberResponse(request_handle(&first.effects[0]), Ok(())));
    assert_eq!(second.effects[0], Effect::UserAddedToGroup(user("u1", "Alice")));
    assert_eq!(request_user(&second.effects[1]), "u2");
    let third = widget.update(&props, Msg::AddMemberResponse(request_handle(&second.effects[1]), Ok(())));
    assert_eq!(
        third.effects,
        vec![Effect::UserAddedToGroup(user("u2", "Bob")), Effect::BatchDone]
    );
    // a new submission starts a new batch from the new selection
    let fresh = widget.update(&props, Msg::SubmitAddMembers);
    assert_eq!(request_user(&fresh.effects[0]), "u3");
    assert_eq!(widget.job().cursor(), 0);
    assert_eq!(widget.job().items(), &vec![user("u3", "Carol")]);
}

#[test]
fn resubmission_after_failure_starts_afresh() {
    let props = props(vec![]);
    let mut widget = loaded(
        &props,
        vec![user("u1", "Alice"), user("u2", "Bob")],
        vec![option("u1", "Alice"), option("u2", "Bob")],
    );
    let first = widget.update(&props, Msg::SubmitAddMembers);
    widget.update(
        &props,
        Msg::AddMemberResponse(request_handle(&first.effects[0]), Err(network("down"))),
    );
    assert_eq!(widget.job().status(), &JobStatus::Failed(network("down")));
    assert_eq!(widget.job().cursor(), 0);
    let again = widget.update(&props, Msg::SubmitAddMembers);
    assert_eq!(request_user(&again.effects[0]), "u1");
    assert_eq!(widget.job().status(), &JobStatus::Running);
    assert_eq!(widget.job().cursor(), 0);
    assert_ne!(request_handle(&again.effects[0]), request_handle(&first.effects[0]));
}

#[test]
fn failed_list_fetch_is_surfaced_both_ways() {
    let props = props(vec![]);
    let (mut widget, effects) = AddGroupMemberComponent::create();
    let handle = request_handle(&effects[0]);
    let handled = widget.update(&props, Msg::UserListResponse(handle, Err(network("no list"))));
    assert_eq!(
        handled,
        Handled { should_render: true, effects: vec![Effect::Error(network("no list"))] }
    );
    assert_eq!(widget.error(), &Some(network("no list")));
    assert_eq!(widget.user_list(), &None);
    assert!(!widget.is_task_running());
}

#[test]
fn stale_list_response_is_discarded() {
    let props = props(vec![]);
    let (mut widget, effects) = AddGroupMemberComponent::create();
    let handle = request_handle(&effects[0]);
    widget.update(&props, Msg::UserListResponse(handle, Ok(vec![user("u1", "Alice")])));
    let again = widget.update(&props, Msg::UserListResponse(handle, Ok(vec![])));
    assert_eq!(again, Handled { should_render: false, effects: vec![] });
    assert_eq!(widget.user_list(), &Some(vec![user("u1", "Alice")]));
}

#[test]
fn response_after_destroy_is_discarded() {
    let props = props(vec![]);
    let mut widget = loaded(&props, vec![user("u1", "Alice")], vec![option("u1", "Alice")]);
    let first = widget.update(&props, Msg::SubmitAddMembers);
    widget.destroy();
    assert!(!widget.is_task_running());
    let late = widget.update(&props, Msg::AddMemberResponse(request_handle(&first.effects[0]), Ok(())));
    assert_eq!(late, Handled { should_render: false, effects: vec![] });
    assert_eq!(widget.job().cursor(), 0);
}

#[test]
fn duplicate_users_are_each_added() {
    let props = props(vec![]);
    let mut widget = loaded(
        &props,
        vec![user("u1", "Alice")],
        vec![option("u1", "Alice"), option("u1", "Alice")],
    );
    let first = widget.update(&props, Msg::SubmitAddMembers);
    assert_eq!(request_user(&first.effects[0]), "u1");
    let second = widget.update(&props, Msg::AddMemberResponse(request_handle(&first.effects[0]), Ok(())));
    assert_eq!(second.effects[0], Effect::UserAddedToGroup(user("u1", "Alice")));
    assert_eq!(request_user(&second.effects[1]), "u1");
    let third = widget.update(&props, Msg::AddMemberResponse(request_handle(&second.effects[1]), Ok(())));
    assert_eq!(
        third.effects,
        vec![Effect::UserAddedToGroup(user("u1", "Alice")), Effect::BatchDone]
    );
}
