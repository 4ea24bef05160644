use directory_console::components::user_table::{
    build_search_filter, remove_user, Effect, EqualityConstraint, Handled, ListUsersQuery, Msg,
    Rendering, RequestFilter, User, UserTable,
};
use directory_console::error::TaskError;
use directory_console::task::TaskHandle;

fn person(id: &str, name: &str) -> User {
    User {
        id: id.to_string(),
        email: format!("{}@example.org", id),
        display_name: name.to_string(),
        first_name: name.to_string(),
        last_name: "Doe".to_string(),
        creation_date: "2022-03-04T05:06:07Z".to_string(),
    }
}

fn people() -> Vec<User> {
    vec![person("alice", "Alice"), person("bob", "Bob"), person("carol", "Carol")]
}

fn equals(field: &str, value: &str) -> EqualityConstraint {
    EqualityConstraint { field: field.to_string(), value: value.to_string() }
}

fn query_of(effect: &Effect) -> (TaskHandle, &ListUsersQuery) {
    match effect {
        Effect::ListUsersQuery(handle, query) => (*handle, query),
    }
}

fn table_of(users: Vec<User>) -> UserTable {
    let (mut table, effects) = UserTable::create();
    let (handle, _) = query_of(&effects[0]);
    let handled = table.update(Msg::ListUsersResponse(handle, Ok(users)));
    assert_eq!(handled, Handled { should_render: true, effects: vec![] });
    table
}

#[test]
fn user_table_starts_by_fetching_everyone() {
    let (table, effects) = UserTable::create();
    assert_eq!(effects.len(), 1);
    let (handle, query) = query_of(&effects[0]);
    assert_eq!(handle.generation(), 1);
    assert_eq!(query, &ListUsersQuery { filters: None });
    assert!(table.is_task_running());
    assert!(table.search_disabled());
    assert!(!table.shows_clear());
    assert_eq!(table.users(), &None);
    assert_eq!(table.view_users(), Rendering::Loading);
    assert_eq!(table.view_errors(), None);
    assert_eq!(table.error(), &None);
    assert!(table.can_start());
}

#[test]
fn search_filter_asks_for_id_email_or_display_name() {
    assert_eq!(build_search_filter(&String::new()), None);
    assert_eq!(
        build_search_filter(&"bob".to_string()),
        Some(RequestFilter {
            any: vec![equals("id", "bob"), equals("email", "bob"), equals("displayName", "bob")],
        })
    );
    assert_eq!(
        build_search_filter(&" ".to_string()),
        Some(RequestFilter {
            any: vec![equals("id", " "), equals("email", " "), equals("displayName", " ")],
        })
    );
}

#[test]
fn user_table_search_sends_the_filter() {
    let mut table = table_of(people());
    assert_eq!(
        table.update(Msg::OnSearchChange("Bob".to_string())),
        Handled { should_render: false, effects: vec![] }
    );
    assert!(table.shows_clear());
    assert_eq!(table.search_query(), "Bob");
    // the rows stay until the answer arrives: the server does the filtering
    assert_eq!(table.view_users(), Rendering::Table(&people()));
    let search = table.update(Msg::SearchUsers);
    assert!(search.should_render);
    let (handle, query) = query_of(&search.effects[0]);
    assert_eq!(handle.generation(), 2);
    assert_eq!(
        query.filters,
        Some(RequestFilter {
            any: vec![equals("id", "Bob"), equals("email", "Bob"), equals("displayName", "Bob")],
        })
    );
    assert!(table.search_disabled());
    table.update(Msg::ListUsersResponse(handle, Ok(vec![])));
    assert_eq!(table.view_users(), Rendering::NoMatches);
    table.update(Msg::OnSearchChange(String::new()));
    assert_eq!(table.view_users(), Rendering::Table(&vec![]));
    let all = table.update(Msg::SearchUsers);
    let (_, query) = query_of(&all.effects[0]);
    assert_eq!(query.filters, None);
}

#[test]
fn user_table_deleted_user_leaves() {
    let mut table = table_of(people());
    assert!(table.takes(&Msg::OnUserDeleted("bob".to_string())));
    assert_eq!(
        table.update(Msg::OnUserDeleted("bob".to_string())),
        Handled { should_render: true, effects: vec![] }
    );
    assert_eq!(table.users(), &Some(vec![person("alice", "Alice"), person("carol", "Carol")]));
    table.update(Msg::OnUserDeleted("Alice".to_string()));
    assert_eq!(table.users(), &Some(vec![person("alice", "Alice"), person("carol", "Carol")]));
    assert_eq!(
        remove_user(vec![person("a", "x"), person("b", "x"), person("a", "y")], &"a".to_string()),
        vec![person("b", "x")]
    );
    let (fresh, _) = UserTable::create();
    assert!(!fresh.takes(&Msg::OnUserDeleted("bob".to_string())));
    assert!(fresh.takes(&Msg::OnSearchChange("bob".to_string())));
}

#[test]
fn user_table_keeps_failures_and_discards_stale_answers() {
    let (mut table, effects) = UserTable::create();
    let (first, _) = query_of(&effects[0]);
    let search = table.update(Msg::SearchUsers);
    let (second, _) = query_of(&search.effects[0]);
    assert_eq!(
        table.update(Msg::ListUsersResponse(first, Ok(people()))),
        Handled { should_render: false, effects: vec![] }
    );
    assert_eq!(table.users(), &None);
    let failed = table.update(Msg::ListUsersResponse(
        second,
        Err(TaskError::Network("Error trying to fetch users".to_string())),
    ));
    assert_eq!(failed, Handled { should_render: true, effects: vec![] });
    assert_eq!(table.view_errors(), Some("Error: Error trying to fetch users".to_string()));
    assert_eq!(
        table.handle_msg(Msg::OnError(TaskError::Network("child".to_string()))),
        Err(TaskError::Network("child".to_string()))
    );
    table.destroy();
    assert!(!table.is_task_running());
}

#[test]
fn user_table_keys_and_clear() {
    assert_eq!(UserTable::on_key_press("Enter"), Msg::SearchUsers);
    assert_eq!(UserTable::on_key_press("Escape"), Msg::OnSearchChange(String::new()));
    assert_eq!(
        UserTable::on_clear(),
        vec![Msg::OnSearchChange(String::new()), Msg::SearchUsers]
    );
}
