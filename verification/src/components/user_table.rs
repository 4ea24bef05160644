//! The table of all users, with a search box whose text the server matches
//! against each user's id, email and display name.
use crate::error::{ErrorSink, ErrorView, TaskError};
use crate::seqs::{is_subsequence, lemma_filter_is_subsequence, lemma_filter_take_next};
use crate::task::{AsyncTask, TaskHandle, TaskView};
use vstd::prelude::*;
use vstd::string::StringExecFns;

verus! {

/// A user as the table shows it. The day of its creation is kept as the text
/// that the server sent.
#[derive(Debug, PartialEq, Eq)]
pub struct User {
    pub id: String,
    pub email: String,
    pub display_name: String,
    pub first_name: String,
    pub last_name: String,
    pub creation_date: String,
}

/// A row of the table, over texts.
pub struct UserView {
    pub id: Seq<char>,
    pub email: Seq<char>,
    pub display_name: Seq<char>,
    pub first_name: Seq<char>,
    pub last_name: Seq<char>,
    pub creation_date: Seq<char>,
}

impl View for User {
    type V = UserView;

    open spec fn view(&self) -> UserView {
        UserView {
            id: self.id@,
            email: self.email@,
            display_name: self.display_name@,
            first_name: self.first_name@,
            last_name: self.last_name@,
            creation_date: self.creation_date@,
        }
    }
}

impl DeepView for User {
    type V = UserView;

    open spec fn deep_view(&self) -> UserView {
        self@
    }
}

/// The demand that a field of a user equals a value.
#[derive(Debug, PartialEq, Eq)]
pub struct EqualityConstraint {
    pub field: String,
    pub value: String,
}

/// A demand on a field, over texts.
pub struct ConstraintView {
    pub field: Seq<char>,
    pub value: Seq<char>,
}

impl View for EqualityConstraint {
    type V = ConstraintView;

    open spec fn view(&self) -> ConstraintView {
        ConstraintView { field: self.field@, value: self.value@ }
    }
}

impl DeepView for EqualityConstraint {
    type V = ConstraintView;

    open spec fn deep_view(&self) -> ConstraintView {
        self@
    }
}

/// A filter on users: a user passes where it meets any of the demands.
#[derive(Debug, PartialEq, Eq)]
pub struct RequestFilter {
    pub any: Vec<EqualityConstraint>,
}

impl View for RequestFilter {
    type V = Seq<ConstraintView>;

    open spec fn view(&self) -> Seq<ConstraintView> {
        self.any.deep_view()
    }
}

impl DeepView for RequestFilter {
    type V = Seq<ConstraintView>;

    open spec fn deep_view(&self) -> Seq<ConstraintView> {
        self@
    }
}

/// The request for the list of users, with its variables: the filter, or none
/// for all users.
#[derive(Debug, PartialEq, Eq)]
pub struct ListUsersQuery {
    pub filters: Option<RequestFilter>,
}

/// The messages of the table. A response carries the handle of the operation
/// that it answers.
#[derive(Debug, PartialEq, Eq)]
pub enum Msg {
    /// The list of users arrived, or fetching it failed.
    ListUsersResponse(TaskHandle, Result<Vec<User>, TaskError>),
    /// The user with this id was deleted.
    OnUserDeleted(String),
    /// A part of the table failed.
    OnError(TaskError),
    /// The search box now holds this text.
    OnSearchChange(String),
    /// The list is to be fetched anew, for the search text.
    SearchUsers,
}

/// A message, over texts.
pub enum MsgView {
    ListUsersResponse(nat, Result<Seq<UserView>, ErrorView>),
    OnUserDeleted(Seq<char>),
    OnError(ErrorView),
    OnSearchChange(Seq<char>),
    SearchUsers,
}

impl View for Msg {
    type V = MsgView;

    open spec fn view(&self) -> MsgView {
        match self {
            Msg::ListUsersResponse(handle, response) => MsgView::ListUsersResponse(
                handle@,
                match response {
                    Ok(users) => Ok(users.deep_view()),
                    Err(error) => Err(error@),
                },
            ),
            Msg::OnUserDeleted(id) => MsgView::OnUserDeleted(id@),
            Msg::OnError(error) => MsgView::OnError(error@),
            Msg::OnSearchChange(query) => MsgView::OnSearchChange(query@),
            Msg::SearchUsers => MsgView::SearchUsers,
        }
    }
}

impl DeepView for Msg {
    type V = MsgView;

    open spec fn deep_view(&self) -> MsgView {
        self@
    }
}

/// What the table asks of the runtime around it.
#[derive(Debug, PartialEq, Eq)]
pub enum Effect {
    /// Send the request for the list of users; answer with
    /// [`Msg::ListUsersResponse`] and this handle.
    ListUsersQuery(TaskHandle, ListUsersQuery),
}

/// An effect, over texts.
pub enum EffectView {
    ListUsersQuery(nat, Option<Seq<ConstraintView>>),
}

impl View for Effect {
    type V = EffectView;

    open spec fn view(&self) -> EffectView {
        match self {
            Effect::ListUsersQuery(handle, request) => EffectView::ListUsersQuery(
                handle@,
                request.filters.deep_view(),
            ),
        }
    }
}

impl DeepView for Effect {
    type V = EffectView;

    open spec fn deep_view(&self) -> EffectView {
        self@
    }
}

/// What handling a message came to: whether the table has to be drawn anew,
/// and what the runtime has to do.
#[derive(Debug, PartialEq, Eq)]
pub struct Handled {
    pub should_render: bool,
    pub effects: Vec<Effect>,
}

/// What handling a message came to, over texts.
pub struct HandledView {
    pub should_render: bool,
    pub effects: Seq<EffectView>,
}

impl View for Handled {
    type V = HandledView;

    open spec fn view(&self) -> HandledView {
        HandledView { should_render: self.should_render, effects: self.effects.deep_view() }
    }
}

/// The users other than the one with this id, in their order.
pub open spec fn without(users: Seq<UserView>, id: Seq<char>) -> Seq<UserView> {
    users.filter(|user: UserView| user.id != id)
}

/// The filter that stands for a search text: none for the empty text;
/// otherwise the users whose id, email or display name equals the text.
pub open spec fn search_filter(query: Seq<char>) -> Option<Seq<ConstraintView>> {
    if query.len() == 0 {
        None
    } else {
        Some(
            seq![
                ConstraintView { field: "id"@, value: query },
                ConstraintView { field: "email"@, value: query },
                ConstraintView { field: "displayName"@, value: query },
            ],
        )
    }
}

/// The state of the table: the last failure, the bookkeeping of its one
/// operation in flight, the users once they have arrived, and the search
/// text.
pub struct TableView {
    pub error: Option<ErrorView>,
    pub task: TaskView,
    pub users: Option<Seq<UserView>>,
    pub search_query: Seq<char>,
}

/// What handling a message leaves: the new state, and either what is to be
/// done or the failure that is to be surfaced.
pub struct Outcome {
    pub state: TableView,
    pub result: Result<HandledView, ErrorView>,
}

/// What is on display below the search box.
#[derive(Debug, PartialEq, Eq)]
pub enum Rendering<'a> {
    /// The list of users has not arrived.
    Loading,
    /// A search is set and the server found no user for it.
    NoMatches,
    /// These rows.
    Table(&'a Vec<User>),
}

/// What is on display, over texts.
pub enum RenderingView {
    Loading,
    NoMatches,
    Table(Seq<UserView>),
}

impl<'a> View for Rendering<'a> {
    type V = RenderingView;

    open spec fn view(&self) -> RenderingView {
        match self {
            Rendering::Loading => RenderingView::Loading,
            Rendering::NoMatches => RenderingView::NoMatches,
            Rendering::Table(rows) => RenderingView::Table(rows.deep_view()),
        }
    }
}

impl TableView {
    /// One more operation can be started.
    pub open spec fn can_start(self) -> bool {
        self.task.generation < AsyncTask::capacity()
    }

    /// The table can take the message: the news that a user was deleted
    /// presupposes that the users have arrived.
    pub open spec fn takes(self, msg: MsgView) -> bool {
        msg is OnUserDeleted ==> self.users is Some
    }

    /// The state of a table that was just created: the request for the list
    /// of all users is in flight.
    pub open spec fn initial() -> TableView {
        TableView {
            error: None,
            task: (TaskView { state: crate::task::TaskStateView::Idle, generation: 0 }).started(),
            users: None,
            search_query: Seq::empty(),
        }
    }

    /// What handling `msg` leaves.
    ///
    /// A response whose handle does not name the operation in flight is stale
    /// and ignored. The list of users is kept when it arrives; a failure to
    /// fetch it, and a failure reported by a part of the table, is surfaced. A
    /// deleted user leaves the list. A new search text is kept, without a new
    /// rendering. A search sends the request for the users that the search
    /// text stands for, and supersedes a request that is in flight.
    pub open spec fn handled(self, msg: MsgView) -> Outcome {
        match msg {
            MsgView::ListUsersResponse(handle, response) => if !self.task.accepts(handle) {
                Outcome {
                    state: self,
                    result: Ok(HandledView { should_render: false, effects: Seq::empty() }),
                }
            } else {
                match response {
                    Ok(users) => Outcome {
                        state: TableView {
                            task: self.task.completed(handle, None),
                            users: Some(users),
                            ..self
                        },
                        result: Ok(HandledView { should_render: true, effects: Seq::empty() }),
                    },
                    Err(error) => Outcome {
                        state: TableView {
                            task: self.task.completed(handle, Some(error)),
                            ..self
                        },
                        result: Err(error),
                    },
                }
            },
            MsgView::OnError(error) => Outcome { state: self, result: Err(error) },
            MsgView::OnUserDeleted(id) => Outcome {
                state: TableView {
                    users: match self.users {
                        Some(users) => Some(without(users, id)),
                        None => None,
                    },
                    ..self
                },
                result: Ok(HandledView { should_render: true, effects: Seq::empty() }),
            },
            MsgView::OnSearchChange(query) => Outcome {
                state: TableView { search_query: query, ..self },
                result: Ok(HandledView { should_render: false, effects: Seq::empty() }),
            },
            MsgView::SearchUsers => Outcome {
                state: TableView { task: self.task.started(), ..self },
                result: Ok(
                    HandledView {
                        should_render: true,
                        effects: seq![
                            EffectView::ListUsersQuery(
                                self.task.generation + 1,
                                search_filter(self.search_query),
                            ),
                        ],
                    },
                ),
            },
        }
    }

    /// The state after `msg`, failures surfaced: a failure is kept as the
    /// table's last error.
    pub open spec fn after(self, msg: MsgView) -> TableView {
        let outcome = self.handled(msg);
        match outcome.result {
            Ok(_) => outcome.state,
            Err(error) => TableView { error: Some(error), ..outcome.state },
        }
    }

    /// What `msg` asks of the runtime, failures surfaced: after a failure the
    /// table is drawn anew, to show it.
    pub open spec fn update(self, msg: MsgView) -> HandledView {
        match self.handled(msg).result {
            Ok(handled) => handled,
            Err(_) => HandledView { should_render: true, effects: Seq::empty() },
        }
    }

    /// What is on display below the search box: the users that arrived, or a
    /// notice where a search is set and none arrived.
    pub open spec fn rendering(self) -> RenderingView {
        match self.users {
            None => RenderingView::Loading,
            Some(users) => if users.len() == 0 && self.search_query.len() != 0 {
                RenderingView::NoMatches
            } else {
                RenderingView::Table(users)
            },
        }
    }

    /// The line that shows the last failure, if there is one.
    pub open spec fn error_line(self) -> Option<Seq<char>> {
        match self.error {
            None => None,
            Some(error) => Some("Error: "@ + error.message()),
        }
    }
}

/// The users other than the one with this id, in their order.
pub fn remove_user(users: Vec<User>, id: &String) -> (kept: Vec<User>)
    ensures
        kept.deep_view() == without(users.deep_view(), id@),
{
    let ghost all = users.deep_view();
    let ghost rows = users@;
    let ghost pred = |user: UserView| user.id != id@;
    let mut kept: Vec<User> = Vec::new();
    for user in iter: users.into_iter()
        invariant
            iter.seq() == rows,
            rows.len() == all.len(),
            forall|i: int| 0 <= i < rows.len() ==> (#[trigger] rows[i])@ == all[i],
            pred == |user: UserView| user.id != id@,
            kept.deep_view() == all.take(iter.index() as int).filter(pred),
    {
        let ghost at = iter.index() as int;
        proof {
            lemma_filter_take_next(all, pred, at);
        }
        if user.id != *id {
            kept.push(user);
        }
    }
    assert(all.take(all.len() as int) =~= all);
    kept
}

/// The demand that `field` equals `value`.
fn equals(field: &str, value: &String) -> (constraint: EqualityConstraint)
    ensures
        constraint@ == (ConstraintView { field: field@, value: value@ }),
{
    EqualityConstraint { field: field.to_owned(), value: value.clone() }
}

/// The filter that stands for a search text. See [`search_filter`].
pub fn build_search_filter(query: &String) -> (filter: Option<RequestFilter>)
    ensures
        filter.deep_view() == search_filter(query@),
{
    if query.as_str().is_empty() {
        None
    } else {
        let mut any: Vec<EqualityConstraint> = Vec::new();
        any.push(equals("id", query));
        any.push(equals("email", query));
        any.push(equals("displayName", query));
        Some(RequestFilter { any })
    }
}

/// The table of all users.
pub struct UserTable {
    task: AsyncTask,
    errors: ErrorSink,
    users: Option<Vec<User>>,
    search_query: String,
}

impl View for UserTable {
    type V = TableView;

    closed spec fn view(&self) -> TableView {
        TableView {
            error: self.errors@,
            task: self.task@,
            users: self.users.deep_view(),
            search_query: self.search_query@,
        }
    }
}

impl UserTable {
    /// A new table, and the request for the list of all users that it sends
    /// at once.
    pub fn create() -> (created: (Self, Vec<Effect>))
        ensures
            created.0@ == TableView::initial(),
            created.1.deep_view() == seq![EffectView::ListUsersQuery(1, None)],
    {
        let mut table = UserTable {
            task: AsyncTask::new(),
            errors: ErrorSink::new(),
            users: None,
            search_query: String::new(),
        };
        let effects = table.get_users(None);
        (table, effects)
    }

    /// Starts fetching the users that pass `req`, or all users.
    fn get_users(&mut self, req: Option<RequestFilter>) -> (effects: Vec<Effect>)
        requires
            old(self)@.can_start(),
        ensures
            final(self)@ == (TableView { task: old(self)@.task.started(), ..old(self)@ }),
            effects.deep_view() == seq![
                EffectView::ListUsersQuery(old(self)@.task.generation + 1, req.deep_view()),
            ],
    {
        let handle = self.task.start();
        let mut effects: Vec<Effect> = Vec::new();
        effects.push(Effect::ListUsersQuery(handle, ListUsersQuery { filters: req }));
        effects
    }

    /// Whether an operation is in flight.
    pub fn is_task_running(&self) -> (running: bool)
        ensures
            running == (self@.task.state is Running),
    {
        self.task.is_busy()
    }

    /// Whether one more operation can be started.
    pub fn can_start(&self) -> (room: bool)
        ensures
            room == self@.can_start(),
    {
        self.task.can_start()
    }

    /// Whether the table can take the message.
    pub fn takes(&self, msg: &Msg) -> (taken: bool)
        ensures
            taken == self@.takes(msg@),
    {
        match msg {
            Msg::OnUserDeleted(_) => self.users.is_some(),
            _ => true,
        }
    }

    /// The last failure, if any.
    pub fn error(&self) -> (last: &Option<TaskError>)
        ensures
            last.deep_view() == self@.error,
    {
        self.errors.last_error()
    }

    /// The users, once they have arrived.
    pub fn users(&self) -> (users: &Option<Vec<User>>)
        ensures
            users.deep_view() == self@.users,
    {
        &self.users
    }

    /// The search text.
    pub fn search_query(&self) -> (query: &String)
        ensures
            query@ == self@.search_query,
    {
        &self.search_query
    }

    /// Handles a message; a failure is returned, to be surfaced by
    /// [`Self::update`]. See [`TableView::handled`].
    pub fn handle_msg(&mut self, msg: Msg) -> (result: Result<Handled, TaskError>)
        requires
            old(self)@.can_start(),
            old(self)@.takes(msg@),
        ensures
            final(self)@ == old(self)@.handled(msg@).state,
            match result {
                Ok(handled) => old(self)@.handled(msg@).result == Ok::<HandledView, ErrorView>(
                    handled@,
                ),
                Err(error) => old(self)@.handled(msg@).result == Err::<HandledView, ErrorView>(
                    error@,
                ),
            },
    {
        let mut effects: Vec<Effect> = Vec::new();
        assert(effects.deep_view() =~= Seq::<EffectView>::empty());
        match msg {
            Msg::ListUsersResponse(handle, response) => {
                match self.task.complete(handle, response) {
                    None => Ok(Handled { should_render: false, effects }),
                    Some(Ok(users)) => {
                        self.users = Some(users);
                        Ok(Handled { should_render: true, effects })
                    },
                    Some(Err(error)) => Err(error),
                }
            },
            Msg::OnError(error) => Err(error),
            Msg::OnUserDeleted(user_id) => {
                let users = self.users.take().unwrap();
                self.users = Some(remove_user(users, &user_id));
                Ok(Handled { should_render: true, effects })
            },
            Msg::OnSearchChange(query) => {
                self.search_query = query;
                Ok(Handled { should_render: false, effects })
            },
            Msg::SearchUsers => {
                let filter = build_search_filter(&self.search_query);
                let effects = self.get_users(filter);
                Ok(Handled { should_render: true, effects })
            },
        }
    }

    /// Handles a message and surfaces a failure: it is kept as the last
    /// error. See [`TableView::after`] and [`TableView::update`].
    pub fn update(&mut self, msg: Msg) -> (handled: Handled)
        requires
            old(self)@.can_start(),
            old(self)@.takes(msg@),
        ensures
            final(self)@ == old(self)@.after(msg@),
            handled@ == old(self)@.update(msg@),
    {
        match self.handle_msg(msg) {
            Ok(handled) => handled,
            Err(error) => {
                let _ = self.errors.surface(error);
                let effects: Vec<Effect> = Vec::new();
                assert(effects.deep_view() =~= Seq::<EffectView>::empty());
                Handled { should_render: true, effects }
            },
        }
    }

    /// The table goes away: whatever response arrives later is stale.
    pub fn destroy(&mut self)
        ensures
            final(self)@ == (TableView { task: old(self)@.task.torn_down(), ..old(self)@ }),
    {
        self.task.teardown();
    }

    /// The message for a key pressed in the search box: `Enter` starts the
    /// search, every other key empties the search text, which the input that
    /// follows sets anew.
    pub fn on_key_press(key: &str) -> (msg: Msg)
        ensures
            msg@ == if key@ == "Enter"@ {
                MsgView::SearchUsers
            } else {
                MsgView::OnSearchChange(Seq::<char>::empty())
            },
    {
        if key.to_owned() == "Enter".to_owned() {
            Msg::SearchUsers
        } else {
            Msg::OnSearchChange(String::new())
        }
    }

    /// The messages of the button that clears the search: the search text is
    /// emptied, then the list of all users is fetched.
    pub fn on_clear() -> (msgs: Vec<Msg>)
        ensures
            msgs.deep_view() == seq![
                MsgView::OnSearchChange(Seq::<char>::empty()),
                MsgView::SearchUsers,
            ],
    {
        let mut msgs: Vec<Msg> = Vec::new();
        msgs.push(Msg::OnSearchChange(String::new()));
        msgs.push(Msg::SearchUsers);
        msgs
    }

    /// The search button is disabled while an operation is in flight.
    pub fn search_disabled(&self) -> (off: bool)
        ensures
            off == (self@.task.state is Running),
    {
        self.task.is_busy()
    }

    /// The button that clears the search shows while a search text is set.
    pub fn shows_clear(&self) -> (shown: bool)
        ensures
            shown == (self@.search_query.len() != 0),
    {
        !self.search_query.as_str().is_empty()
    }

    /// What is on display below the search box. See
    /// [`TableView::rendering`].
    pub fn view_users(&self) -> (shown: Rendering<'_>)
        ensures
            shown@ == self@.rendering(),
    {
        match &self.users {
            None => Rendering::Loading,
            Some(users) => {
                if users.len() == 0 && !self.search_query.as_str().is_empty() {
                    Rendering::NoMatches
                } else {
                    Rendering::Table(users)
                }
            },
        }
    }

    /// The line that shows the last failure, if there is one.
    pub fn view_errors(&self) -> (line: Option<String>)
        ensures
            line.deep_view() == self@.error_line(),
    {
        match self.errors.last_error() {
            None => None,
            Some(error) => Some("Error: ".to_owned().concat(error.message().as_str())),
        }
    }
}

/// After a user was deleted no row has its id, and the other rows stay, in
/// their order.
pub proof fn lemma_deleted_user_leaves(users: Seq<UserView>, id: Seq<char>)
    ensures
        is_subsequence(without(users, id), users),
        forall|i: int| 0 <= i < without(users, id).len() ==> (#[trigger] without(users, id)[i]).id != id,
        forall|i: int|
            0 <= i < users.len() && users[i].id != id ==> without(users, id).contains(
                #[trigger] users[i],
            ),
{
    let pred = |user: UserView| user.id != id;
    lemma_filter_is_subsequence(users, pred);
}

/// A search supersedes the request that was in flight: the answer to the new
/// request is taken, and an answer to the old one is discarded, with the state
/// as it is and nothing drawn anew.
pub proof fn lemma_search_supersedes(
    state: TableView,
    old_handle: nat,
    response: Result<Seq<UserView>, ErrorView>,
)
    requires
        old_handle <= state.task.generation,
    ensures
        ({
            let searching = state.after(MsgView::SearchUsers);
            &&& searching.task.accepts(state.task.generation + 1)
            &&& searching.after(MsgView::ListUsersResponse(old_handle, response)) == searching
            &&& searching.update(MsgView::ListUsersResponse(old_handle, response)) == (HandledView {
                should_render: false,
                effects: Seq::empty(),
            })
        }),
{
}

/// A failure is kept as the table's last error, whichever message brought it.
pub proof fn lemma_failure_is_kept(state: TableView, msg: MsgView)
    ensures
        state.handled(msg).result matches Err(error) ==> state.after(msg).error == Some(error)
            && state.update(msg).should_render,
        msg matches MsgView::OnError(error) ==> state.after(msg) == (TableView {
            error: Some(error),
            ..state
        }),
{
}

} // verus!
