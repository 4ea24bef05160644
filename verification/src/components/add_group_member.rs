//! Adding members to a group: a picker of the users that are not members yet,
//! and the batch that adds the chosen ones to the group, one request at a
//! time.
use crate::batch::{in_range, orderly, BatchCommand, BatchJob, JobView, Step};
use crate::components::select::{filtered, OptionView, SelectOptionProps};
use crate::decimal::{decimal, format_usize};
use crate::error::{ErrorSink, ErrorView, TaskError};
use crate::seqs::{lemma_filter_members, lemma_filter_take_next};
use crate::task::{AsyncTask, TaskHandle, TaskView};
use vstd::hash_set::StringHashSet;
use vstd::prelude::*;
use vstd::string::StringExecFns;

verus! {

/// A user of the directory, as the picker needs it. Two users are the same
/// where their ids are.
#[derive(Debug, PartialEq, Eq)]
pub struct User {
    pub id: String,
    pub display_name: String,
}

/// A user, over texts.
pub struct UserView {
    pub id: Seq<char>,
    pub display_name: Seq<char>,
}

impl View for User {
    type V = UserView;

    open spec fn view(&self) -> UserView {
        UserView { id: self.id@, display_name: self.display_name@ }
    }
}

impl DeepView for User {
    type V = UserView;

    open spec fn deep_view(&self) -> UserView {
        self@
    }
}

impl Clone for User {
    fn clone(&self) -> (copy: Self)
        ensures
            copy == *self,
    {
        User { id: self.id.clone(), display_name: self.display_name.clone() }
    }
}

/// The request that adds one user to one group, with its variables.
#[derive(Debug, PartialEq, Eq)]
pub struct AddUserToGroup {
    pub user: String,
    pub group: i64,
}

/// The request for the names of all users: it carries no filter.
#[derive(Debug, PartialEq, Eq)]
pub struct ListUserNames {}

/// What the widget is given by its owner: the group, and the users that are
/// members of it already.
pub struct Props {
    pub group_id: i64,
    pub users: Vec<User>,
}

/// The properties, over texts.
pub struct PropsView {
    pub group_id: i64,
    pub users: Seq<UserView>,
}

impl View for Props {
    type V = PropsView;

    open spec fn view(&self) -> PropsView {
        PropsView { group_id: self.group_id, users: self.users.deep_view() }
    }
}

/// The messages of the widget. A response carries the handle of the operation
/// that it answers.
#[derive(Debug, PartialEq, Eq)]
pub enum Msg {
    /// The list of all users arrived, or fetching it failed.
    UserListResponse(TaskHandle, Result<Vec<User>, TaskError>),
    /// The chosen users are to be added.
    SubmitAddMembers,
    /// The request of the batch that was in flight succeeded or failed.
    AddMemberResponse(TaskHandle, Result<(), TaskError>),
    /// The picker reports a new selection.
    SelectionChanged(Vec<SelectOptionProps>),
}

/// A message, over texts.
pub enum MsgView {
    UserListResponse(nat, Result<Seq<UserView>, ErrorView>),
    SubmitAddMembers,
    AddMemberResponse(nat, Option<ErrorView>),
    SelectionChanged(Seq<OptionView>),
}

impl View for Msg {
    type V = MsgView;

    open spec fn view(&self) -> MsgView {
        match self {
            Msg::UserListResponse(handle, response) => MsgView::UserListResponse(
                handle@,
                match response {
                    Ok(users) => Ok(users.deep_view()),
                    Err(error) => Err(error@),
                },
            ),
            Msg::SubmitAddMembers => MsgView::SubmitAddMembers,
            Msg::AddMemberResponse(handle, response) => MsgView::AddMemberResponse(
                handle@,
                match response {
                    Ok(_) => None,
                    Err(error) => Some(error@),
                },
            ),
            Msg::SelectionChanged(options) => MsgView::SelectionChanged(options.deep_view()),
        }
    }
}

/// What the widget asks of the runtime around it.
#[derive(Debug, PartialEq, Eq)]
pub enum Effect {
    /// Send the request for the names of all users; answer with
    /// [`Msg::UserListResponse`] and this handle.
    ListUserNames(TaskHandle, ListUserNames),
    /// Send the request that adds the user to the group; answer with
    /// [`Msg::AddMemberResponse`] and this handle.
    AddUserToGroup(TaskHandle, AddUserToGroup),
    /// Tell the owner that this user is a member now.
    UserAddedToGroup(User),
    /// Tell the owner that every chosen user is a member now.
    BatchDone,
    /// Tell the owner of this failure.
    Error(TaskError),
}

/// An effect, over texts.
pub enum EffectView {
    ListUserNames(nat),
    AddUserToGroup(nat, Seq<char>, i64),
    UserAddedToGroup(UserView),
    BatchDone,
    Error(ErrorView),
}

impl View for Effect {
    type V = EffectView;

    open spec fn view(&self) -> EffectView {
        match self {
            Effect::ListUserNames(handle, _) => EffectView::ListUserNames(handle@),
            Effect::AddUserToGroup(handle, request) => EffectView::AddUserToGroup(
                handle@,
                request.user@,
                request.group,
            ),
            Effect::UserAddedToGroup(user) => EffectView::UserAddedToGroup(user@),
            Effect::BatchDone => EffectView::BatchDone,
            Effect::Error(error) => EffectView::Error(error@),
        }
    }
}

impl DeepView for Effect {
    type V = EffectView;

    open spec fn deep_view(&self) -> EffectView {
        self@
    }
}

/// What handling a message came to: whether the widget has to be drawn anew,
/// and what the runtime has to do.
#[derive(Debug, PartialEq, Eq)]
pub struct Handled {
    pub should_render: bool,
    pub effects: Vec<Effect>,
}

/// What handling a message came to, over texts.
pub struct HandledView {
    pub should_render: bool,
    pub effects: Seq<EffectView>,
}

impl View for Handled {
    type V = HandledView;

    open spec fn view(&self) -> HandledView {
        HandledView { should_render: self.should_render, effects: self.effects.deep_view() }
    }
}

/// The ids of the users in `members`.
pub open spec fn member_ids(members: Seq<UserView>) -> Set<Seq<char>> {
    Set::new(|id: Seq<char>| exists|i: int| 0 <= i < members.len() && #[trigger] members[i].id == id)
}

/// The users of `list` that are not among `members`, in the order of `list`.
pub open spec fn selectable(list: Seq<UserView>, members: Seq<UserView>) -> Seq<UserView> {
    list.filter(|user: UserView| !member_ids(members).contains(user.id))
}

/// The option that stands for a user in the picker: its value is the user's
/// id, its text the user's display name or, where that is empty, the id.
pub open spec fn option_of(user: UserView) -> OptionView {
    OptionView {
        value: user.id,
        text: if user.display_name.len() == 0 {
            user.id
        } else {
            user.display_name
        },
    }
}

/// The options that stand for `users`, in their order.
pub open spec fn options_of(users: Seq<UserView>) -> Seq<OptionView> {
    users.map_values(|user: UserView| option_of(user))
}

/// The user that an option of the picker stands for.
pub open spec fn user_of(option: OptionView) -> UserView {
    UserView { id: option.value, display_name: option.text }
}

/// The users that `options` stand for, in their order.
pub open spec fn users_of(options: Seq<OptionView>) -> Seq<UserView> {
    options.map_values(|option: OptionView| user_of(option))
}

/// The text on the button that submits a selection of `count` users.
pub open spec fn submit_label(count: nat) -> Seq<char> {
    if count > 1 {
        "Add "@ + decimal(count as int) + " members"@
    } else {
        "Add member"@
    }
}

/// A copy of a list of users.
pub fn clone_users(users: &Vec<User>) -> (copy: Vec<User>)
    ensures
        copy@ == users@,
{
    let mut copy: Vec<User> = Vec::new();
    let mut i: usize = 0;
    while i < users.len()
        invariant
            i <= users.len(),
            copy@ == users@.take(i as int),
        decreases users.len() - i,
    {
        copy.push(users[i].clone());
        i += 1;
    }
    copy
}

/// The users that the options of a picker stand for, in their order.
pub fn users_from_options(options: Vec<SelectOptionProps>) -> (users: Vec<User>)
    ensures
        users.deep_view() == users_of(options.deep_view()),
{
    let mut users: Vec<User> = Vec::new();
    let mut i: usize = 0;
    while i < options.len()
        invariant
            i <= options.len(),
            users.deep_view() == users_of(options.deep_view()).take(i as int),
        decreases options.len() - i,
    {
        let ghost before = users.deep_view();
        let option = &options[i];
        let user = User { id: option.value.clone(), display_name: option.text.clone() };
        users.push(user);
        assert(users.deep_view() =~= before.push(user@));
        i += 1;
    }
    users
}

/// The options that stand for `users` in the picker, in their order.
pub fn options_from_users(users: &Vec<User>) -> (options: Vec<SelectOptionProps>)
    ensures
        options.deep_view() == options_of(users.deep_view()),
{
    let mut options: Vec<SelectOptionProps> = Vec::new();
    let mut i: usize = 0;
    while i < users.len()
        invariant
            i <= users.len(),
            options.deep_view() == options_of(users.deep_view()).take(i as int),
        decreases users.len() - i,
    {
        let user = &users[i];
        let text = if user.display_name.as_str().is_empty() {
            user.id.clone()
        } else {
            user.display_name.clone()
        };
        let ghost before = options.deep_view();
        let option = SelectOptionProps { value: user.id.clone(), text };
        options.push(option);
        assert(options.deep_view() =~= before.push(option@));
        i += 1;
    }
    options
}

/// The users of `list` that are not among `members`, in the order of `list`.
pub fn selectable_users(members: &Vec<User>, list: &Vec<User>) -> (free: Vec<User>)
    ensures
        free.deep_view() == selectable(list.deep_view(), members.deep_view()),
{
    let ghost all_members = members.deep_view();
    let mut ids = StringHashSet::new();
    let mut i: usize = 0;
    while i < members.len()
        invariant
            i <= members.len(),
            all_members == members.deep_view(),
            ids@ == member_ids(all_members.take(i as int)),
        decreases members.len() - i,
    {
        ids.insert(members[i].id.clone());
        proof {
            let before = all_members.take(i as int);
            let now = all_members.take(i + 1);
            assert forall|id: Seq<char>|
                member_ids(before).insert(all_members[i as int].id).contains(
                    id,
                ) implies member_ids(now).contains(id) by {
                if id == all_members[i as int].id {
                    assert(now[i as int].id == id);
                }
            }
        }
        i += 1;
    }
    assert(all_members.take(members.len() as int) =~= all_members);
    let ghost full = list.deep_view();
    let ghost pred = |user: UserView| !member_ids(all_members).contains(user.id);
    let mut free: Vec<User> = Vec::new();
    let mut k: usize = 0;
    while k < list.len()
        invariant
            k <= list.len(),
            full == list.deep_view(),
            ids@ == member_ids(all_members),
            pred == |user: UserView| !member_ids(all_members).contains(user.id),
            free.deep_view() == full.take(k as int).filter(pred),
        decreases list.len() - k,
    {
        let user = &list[k];
        proof {
            lemma_filter_take_next(full, pred, k as int);
        }
        if !ids.contains(user.id.as_str()) {
            free.push(user.clone());
        }
        k += 1;
    }
    assert(full.take(list.len() as int) =~= full);
    free
}

/// What a command of the batch means for the runtime: the request for the
/// item to be added, sent under `handle`; the news that an item was added; or
/// the news that the batch is done.
pub open spec fn effect_of(items: Seq<UserView>, group: i64, handle: nat, step: Step) -> EffectView {
    match step {
        Step::Dispatch(at) => EffectView::AddUserToGroup(handle, items[at as int].id, group),
        Step::Committed(at) => EffectView::UserAddedToGroup(items[at as int]),
        Step::Finished => EffectView::BatchDone,
    }
}

/// The effects that stand for the commands of a batch, in their order.
pub open spec fn effects_of(
    items: Seq<UserView>,
    group: i64,
    handle: nat,
    commands: Seq<Step>,
) -> Seq<EffectView> {
    commands.map_values(|step: Step| effect_of(items, group, handle, step))
}

/// The state of the widget: the last failure, the bookkeeping of its one
/// operation in flight, the list of all users once it has arrived, the users
/// chosen in the picker, and the batch.
pub struct StateView {
    pub error: Option<ErrorView>,
    pub task: TaskView,
    pub user_list: Option<Seq<UserView>>,
    pub selected_users: Seq<UserView>,
    pub job: JobView<UserView>,
}

/// What handling a message leaves: the new state, and either what is to be
/// done or the failure that is to be surfaced.
pub struct Outcome {
    pub state: StateView,
    pub result: Result<HandledView, ErrorView>,
}

/// What is on display.
#[derive(Debug, PartialEq, Eq)]
pub enum Rendering {
    /// The list of users has not arrived.
    Loading,
    /// Every user is a member already: there is nothing to choose.
    AllMembers,
    /// The picker with these options, and the button that submits the
    /// selection.
    Picker { options: Vec<SelectOptionProps>, submit_disabled: bool, submit_label: String },
}

/// What is on display, over texts.
pub enum RenderingView {
    Loading,
    AllMembers,
    Picker { options: Seq<OptionView>, submit_disabled: bool, submit_label: Seq<char> },
}

impl View for Rendering {
    type V = RenderingView;

    open spec fn view(&self) -> RenderingView {
        match self {
            Rendering::Loading => RenderingView::Loading,
            Rendering::AllMembers => RenderingView::AllMembers,
            Rendering::Picker { options, submit_disabled, submit_label } => RenderingView::Picker {
                options: options.deep_view(),
                submit_disabled: *submit_disabled,
                submit_label: submit_label@,
            },
        }
    }
}

impl StateView {
    /// The batch is well formed.
    pub open spec fn wf(self) -> bool {
        self.job.wf()
    }

    /// One more operation can be started.
    pub open spec fn can_start(self) -> bool {
        self.task.generation < AsyncTask::capacity()
    }

    /// The state of a widget that was just created: the request for the list
    /// of users is in flight.
    pub open spec fn initial() -> StateView {
        StateView {
            error: None,
            task: (TaskView { state: crate::task::TaskStateView::Idle, generation: 0 }).started(),
            user_list: None,
            selected_users: Seq::empty(),
            job: JobView::idle(),
        }
    }

    /// The message changes nothing and asks for nothing, not even for a new
    /// rendering.
    pub open spec fn ignoring(self) -> Outcome {
        Outcome {
            state: self,
            result: Ok(HandledView { should_render: false, effects: Seq::empty() }),
        }
    }

    /// What handling `msg` leaves.
    ///
    /// A response whose handle does not name the operation in flight is stale
    /// and ignored. The list of users is kept when it arrives. Submitting an
    /// empty selection is ignored; submitting while an operation is in flight
    /// is refused; otherwise a batch is created for the selection as it is at
    /// that moment and the request for its first user is sent. Each success of
    /// a request of the batch reports that user as added, and then sends the
    /// request for the next user or reports the batch as done. A failure stops
    /// the batch and is surfaced. A new selection replaces the one before and
    /// leaves a batch that runs as it is.
    pub open spec fn handled(self, props: PropsView, msg: MsgView) -> Outcome {
        match msg {
            MsgView::UserListResponse(handle, response) => if !self.task.accepts(handle) {
                self.ignoring()
            } else {
                match response {
                    Ok(users) => Outcome {
                        state: StateView {
                            task: self.task.completed(handle, None),
                            user_list: Some(users),
                            ..self
                        },
                        result: Ok(HandledView { should_render: true, effects: Seq::empty() }),
                    },
                    Err(error) => Outcome {
                        state: StateView {
                            task: self.task.completed(handle, Some(error)),
                            ..self
                        },
                        result: Err(error),
                    },
                }
            },
            MsgView::SubmitAddMembers => if self.selected_users.len() == 0 {
                self.ignoring()
            } else if self.task.state is Running {
                Outcome { state: self, result: Err(ErrorView::busy()) }
            } else {
                Outcome {
                    state: StateView {
                        task: self.task.started(),
                        job: JobView::submitted(self.selected_users),
                        ..self
                    },
                    result: Ok(
                        HandledView {
                            should_render: true,
                            effects: effects_of(
                                self.selected_users,
                                props.group_id,
                                self.task.generation + 1,
                                JobView::<UserView>::first_commands(),
                            ),
                        },
                    ),
                }
            },
            MsgView::AddMemberResponse(handle, failure) => if !self.task.accepts(handle) {
                self.ignoring()
            } else {
                let task = self.task.completed(handle, failure);
                let job = self.job.after(failure);
                match failure {
                    Some(error) => Outcome {
                        state: StateView { task, job, ..self },
                        result: Err(error),
                    },
                    None => Outcome {
                        state: StateView {
                            task: if self.job.status is Running && job.status is Running {
                                task.started()
                            } else {
                                task
                            },
                            job,
                            ..self
                        },
                        result: Ok(
                            HandledView {
                                should_render: true,
                                effects: effects_of(
                                    self.job.items,
                                    props.group_id,
                                    self.task.generation + 1,
                                    self.job.commands(None),
                                ),
                            },
                        ),
                    },
                }
            },
            MsgView::SelectionChanged(options) => Outcome {
                state: StateView { selected_users: users_of(options), ..self },
                result: Ok(HandledView { should_render: true, effects: Seq::empty() }),
            },
        }
    }

    /// The state after `msg`, failures surfaced: a failure is kept as the
    /// widget's last error.
    pub open spec fn after(self, props: PropsView, msg: MsgView) -> StateView {
        let outcome = self.handled(props, msg);
        match outcome.result {
            Ok(_) => outcome.state,
            Err(error) => StateView { error: Some(error), ..outcome.state },
        }
    }

    /// What `msg` asks of the runtime, failures surfaced: a failure is handed
    /// to the owner, and the widget is drawn anew.
    pub open spec fn update(self, props: PropsView, msg: MsgView) -> HandledView {
        match self.handled(props, msg).result {
            Ok(handled) => handled,
            Err(error) => HandledView {
                should_render: true,
                effects: seq![EffectView::Error(error)],
            },
        }
    }

    /// The response that answers the request in flight: success, or the
    /// failure.
    pub open spec fn response(self, failure: Option<ErrorView>) -> MsgView {
        MsgView::AddMemberResponse(self.task.generation, failure)
    }

    /// The state after a run of responses, each of which answers the request
    /// that is in flight when it arrives.
    pub open spec fn after_responses(
        self,
        props: PropsView,
        outcomes: Seq<Option<ErrorView>>,
    ) -> StateView
        decreases outcomes.len(),
    {
        if outcomes.len() == 0 {
            self
        } else {
            let before = self.after_responses(props, outcomes.drop_last());
            before.after(props, before.response(outcomes.last()))
        }
    }

    /// Everything that such a run of responses asks of the runtime, in order.
    pub open spec fn effects_of_responses(
        self,
        props: PropsView,
        outcomes: Seq<Option<ErrorView>>,
    ) -> Seq<EffectView>
        decreases outcomes.len(),
    {
        if outcomes.len() == 0 {
            Seq::empty()
        } else {
            let before = self.after_responses(props, outcomes.drop_last());
            self.effects_of_responses(props, outcomes.drop_last()) + before.update(
                props,
                before.response(outcomes.last()),
            ).effects
        }
    }

    /// What is on display: nothing but a notice while the list of users is
    /// awaited or where every user is a member; otherwise the picker with the
    /// users that are not members, and the button, which is disabled while
    /// nothing is chosen or an operation is in flight.
    pub open spec fn rendering(self, props: PropsView) -> RenderingView {
        match self.user_list {
            None => RenderingView::Loading,
            Some(list) => {
                let options = options_of(selectable(list, props.users));
                if options.len() == 0 {
                    RenderingView::AllMembers
                } else {
                    RenderingView::Picker {
                        options,
                        submit_disabled: self.selected_users.len() == 0 || self.task.state
                            is Running,
                        submit_label: submit_label(self.selected_users.len()),
                    }
                }
            },
        }
    }
}

/// The widget that adds members to a group.
pub struct AddGroupMemberComponent {
    task: AsyncTask,
    errors: ErrorSink,
    /// The list of all users, initially not loaded.
    user_list: Option<Vec<User>>,
    /// The users chosen in the picker.
    selected_users: Vec<User>,
    /// The batch that adds the users chosen when it was submitted.
    job: BatchJob<User>,
}

impl View for AddGroupMemberComponent {
    type V = StateView;

    closed spec fn view(&self) -> StateView {
        StateView {
            error: self.errors@,
            task: self.task@,
            user_list: self.user_list.deep_view(),
            selected_users: self.selected_users.deep_view(),
            job: self.job@,
        }
    }
}

impl AddGroupMemberComponent {
    /// A new widget, and the request for the list of users that it sends at
    /// once.
    pub fn create() -> (created: (Self, Vec<Effect>))
        ensures
            created.0@.wf(),
            created.0@ == StateView::initial(),
            created.1.deep_view() == seq![EffectView::ListUserNames(1)],
    {
        let mut res = AddGroupMemberComponent {
            task: AsyncTask::new(),
            errors: ErrorSink::new(),
            user_list: None,
            selected_users: Vec::new(),
            job: BatchJob::idle(),
        };
        assert(res.selected_users.deep_view() =~= Seq::<UserView>::empty());
        let effects = res.get_user_list();
        (res, effects)
    }

    /// Starts fetching the list of users.
    fn get_user_list(&mut self) -> (effects: Vec<Effect>)
        requires
            old(self)@.can_start(),
        ensures
            final(self)@ == (StateView { task: old(self)@.task.started(), ..old(self)@ }),
            effects.deep_view() == seq![
                EffectView::ListUserNames(old(self)@.task.generation + 1),
            ],
    {
        let handle = self.task.start();
        let mut effects: Vec<Effect> = Vec::new();
        effects.push(Effect::ListUserNames(handle, ListUserNames {  }));
        effects
    }

    /// Whether an operation is in flight.
    pub fn is_task_running(&self) -> (running: bool)
        ensures
            running == (self@.task.state is Running),
    {
        self.task.is_busy()
    }

    /// Whether one more operation can be started.
    pub fn can_start(&self) -> (room: bool)
        ensures
            room == self@.can_start(),
    {
        self.task.can_start()
    }

    /// The last failure, if any.
    pub fn error(&self) -> (last: &Option<TaskError>)
        ensures
            last.deep_view() == self@.error,
    {
        self.errors.last_error()
    }

    /// The list of all users, once it has arrived.
    pub fn user_list(&self) -> (list: &Option<Vec<User>>)
        ensures
            list.deep_view() == self@.user_list,
    {
        &self.user_list
    }

    /// The users chosen in the picker.
    pub fn selected_users(&self) -> (chosen: &Vec<User>)
        ensures
            chosen.deep_view() == self@.selected_users,
    {
        &self.selected_users
    }

    /// The batch.
    pub fn job(&self) -> (job: &BatchJob<User>)
        ensures
            self@.wf(),
            job@ == self@.job,
    {
        proof {
            use_type_invariant(&self.job);
        }
        &self.job
    }

    /// The users of `user_list` that are not members of the group yet.
    pub fn get_selectable_user_list(&self, props: &Props, user_list: &Vec<User>) -> (free: Vec<
        User,
    >)
        ensures
            free.deep_view() == selectable(user_list.deep_view(), props@.users),
    {
        selectable_users(&props.users, user_list)
    }

    /// The options of the picker: one for each user of `user_list` that is
    /// not a member of the group yet.
    pub fn get_selectable_options(&self, props: &Props, user_list: &Vec<User>) -> (options: Vec<
        SelectOptionProps,
    >)
        ensures
            options.deep_view() == options_of(selectable(user_list.deep_view(), props@.users)),
    {
        let free = self.get_selectable_user_list(props, user_list);
        options_from_users(&free)
    }

    /// Starts the request that adds the user at position `at` of the batch.
    /// At or past the end of the batch there is no user to add: nothing is
    /// asked for, and nothing changes.
    fn add_next_user(&mut self, props: &Props, at: usize) -> (effect: Option<Effect>)
        requires
            old(self)@.can_start(),
        ensures
            at >= old(self)@.job.items.len() ==> effect is None && final(self)@ == old(self)@,
            at < old(self)@.job.items.len() ==> {
                &&& final(self)@ == (StateView {
                    task: old(self)@.task.started(),
                    ..old(self)@
                })
                &&& effect matches Some(request)
                &&& request@ == effect_of(
                    old(self)@.job.items,
                    props@.group_id,
                    old(self)@.task.generation + 1,
                    Step::Dispatch(at as nat),
                )
            },
    {
        if at >= self.job.items().len() {
            return None;
        }
        let user = self.job.items()[at].id.clone();
        let handle = self.task.start();
        Some(Effect::AddUserToGroup(handle, AddUserToGroup { user, group: props.group_id }))
    }

    /// Carries out one command of the batch: starts the request that it asks
    /// for, or turns the news that it brings into the effect that tells the
    /// owner.
    fn perform(&mut self, props: &Props, command: BatchCommand, effects: &mut Vec<Effect>)
        requires
            in_range(command@, old(self)@.job.items.len()),
            command@ is Dispatch ==> old(self)@.can_start(),
        ensures
            final(self)@ == (StateView {
                task: if command@ is Dispatch {
                    old(self)@.task.started()
                } else {
                    old(self)@.task
                },
                ..old(self)@
            }),
            final(effects).deep_view() == old(effects).deep_view().push(
                effect_of(
                    old(self)@.job.items,
                    props@.group_id,
                    old(self)@.task.generation + 1,
                    command@,
                ),
            ),
    {
        match command {
            BatchCommand::Dispatch(at) => {
                match self.add_next_user(props, at) {
                    Some(request) => effects.push(request),
                    None => {},
                }
            },
            BatchCommand::Committed(at) => {
                effects.push(Effect::UserAddedToGroup(self.job.items()[at].clone()));
            },
            BatchCommand::Finished => {
                effects.push(Effect::BatchDone);
            },
        }
    }

    /// Carries out what the batch asks for after a submission or a success:
    /// its commands, in their order.
    fn carry_out(&mut self, props: &Props, commands: &Vec<BatchCommand>, effects: &mut Vec<Effect>)
        requires
            old(self)@.can_start(),
            old(effects).deep_view().len() == 0,
            orderly(commands.deep_view(), old(self)@.job.items.len()),
        ensures
            final(self)@ == (StateView {
                task: if commands.deep_view().last() is Dispatch {
                    old(self)@.task.started()
                } else {
                    old(self)@.task
                },
                ..old(self)@
            }),
            final(effects).deep_view() == effects_of(
                old(self)@.job.items,
                props@.group_id,
                old(self)@.task.generation + 1,
                commands.deep_view(),
            ),
    {
        self.perform(props, commands[0], effects);
        if commands.len() == 2 {
            self.perform(props, commands[1], effects);
        }
    }

    /// Submits the selection. See [`StateView::handled`].
    fn submit_add_members(&mut self, props: &Props) -> (result: Result<Handled, TaskError>)
        requires
            old(self)@.can_start(),
        ensures
            final(self)@.wf(),
            final(self)@ == old(self)@.handled(props@, MsgView::SubmitAddMembers).state,
            match result {
                Ok(handled) => old(self)@.handled(props@, MsgView::SubmitAddMembers).result == Ok::<
                    HandledView,
                    ErrorView,
                >(handled@),
                Err(error) => old(self)@.handled(props@, MsgView::SubmitAddMembers).result == Err::<
                    HandledView,
                    ErrorView,
                >(error@),
            },
    {
        proof {
            use_type_invariant(&self.job);
        }
        let mut effects: Vec<Effect> = Vec::new();
        assert(effects.deep_view() =~= Seq::<EffectView>::empty());
        if self.selected_users.len() == 0 {
            return Ok(Handled { should_render: false, effects });
        }
        if self.task.is_busy() {
            return Err(TaskError::busy());
        }
        let items = clone_users(&self.selected_users);
        match BatchJob::submit(items) {
            None => Ok(Handled { should_render: false, effects }),
            Some((job, commands)) => {
                self.job = job;
                self.carry_out(props, &commands, &mut effects);
                Ok(Handled { should_render: true, effects })
            },
        }
    }

    /// Handles a message; a failure is returned, to be surfaced by
    /// [`Self::update`]. See [`StateView::handled`].
    pub fn handle_msg(&mut self, props: &Props, msg: Msg) -> (result: Result<Handled, TaskError>)
        requires
            old(self)@.can_start(),
        ensures
            final(self)@.wf(),
            final(self)@ == old(self)@.handled(props@, msg@).state,
            match result {
                Ok(handled) => old(self)@.handled(props@, msg@).result == Ok::<
                    HandledView,
                    ErrorView,
                >(handled@),
                Err(error) => old(self)@.handled(props@, msg@).result == Err::<
                    HandledView,
                    ErrorView,
                >(error@),
            },
    {
        proof {
            use_type_invariant(&self.job);
        }
        let mut effects: Vec<Effect> = Vec::new();
        assert(effects.deep_view() =~= Seq::<EffectView>::empty());
        match msg {
            Msg::UserListResponse(handle, response) => {
                match self.task.complete(handle, response) {
                    None => Ok(Handled { should_render: false, effects }),
                    Some(Ok(users)) => {
                        self.user_list = Some(users);
                        Ok(Handled { should_render: true, effects })
                    },
                    Some(Err(error)) => Err(error),
                }
            },
            Msg::SubmitAddMembers => self.submit_add_members(props),
            Msg::AddMemberResponse(handle, response) => {
                match self.task.complete(handle, response) {
                    None => Ok(Handled { should_render: false, effects }),
                    Some(Ok(_)) => {
                        let ghost before = self@.job;
                        let commands = self.job.step_succeeded();
                        if commands.len() > 0 {
                            self.carry_out(props, &commands, &mut effects);
                        } else {
                            assert(effects.deep_view() =~= effects_of(
                                before.items,
                                props@.group_id,
                                old(self)@.task.generation + 1,
                                commands.deep_view(),
                            ));
                        }
                        Ok(Handled { should_render: true, effects })
                    },
                    Some(Err(error)) => {
                        self.job.step_failed(error.clone());
                        Err(error)
                    },
                }
            },
            Msg::SelectionChanged(options) => {
                self.selected_users = users_from_options(options);
                Ok(Handled { should_render: true, effects })
            },
        }
    }

    /// Handles a message and surfaces a failure: it is kept as the last error
    /// and handed to the owner. See [`StateView::after`] and
    /// [`StateView::update`].
    pub fn update(&mut self, props: &Props, msg: Msg) -> (handled: Handled)
        requires
            old(self)@.can_start(),
        ensures
            final(self)@.wf(),
            final(self)@ == old(self)@.after(props@, msg@),
            handled@ == old(self)@.update(props@, msg@),
    {
        match self.handle_msg(props, msg) {
            Ok(handled) => handled,
            Err(error) => {
                let forwarded = self.errors.surface(error);
                let mut effects: Vec<Effect> = Vec::new();
                effects.push(Effect::Error(forwarded));
                assert(effects.deep_view() =~= seq![EffectView::Error(error@)]);
                Handled { should_render: true, effects }
            },
        }
    }

    /// The widget goes away: whatever response arrives later is stale.
    pub fn destroy(&mut self)
        ensures
            final(self)@ == (StateView { task: old(self)@.task.torn_down(), ..old(self)@ }),
    {
        self.task.teardown();
    }

    /// What is on display. See [`StateView::rendering`].
    pub fn render(&self, props: &Props) -> (shown: Rendering)
        ensures
            shown@ == self@.rendering(props@),
    {
        match &self.user_list {
            None => Rendering::Loading,
            Some(user_list) => {
                let options = self.get_selectable_options(props, user_list);
                if options.len() == 0 {
                    Rendering::AllMembers
                } else {
                    let count = self.selected_users.len();
                    let submit_label = if count > 1 {
                        "Add ".to_owned().concat(format_usize(count).as_str()).concat(" members")
                    } else {
                        "Add member".to_owned()
                    };
                    Rendering::Picker {
                        options,
                        submit_disabled: count == 0 || self.task.is_busy(),
                        submit_label,
                    }
                }
            },
        }
    }
}

/// The effects of a whole batch, for its commands in order: the request for
/// the item at position `at` is sent under the handle `first + at`.
pub open spec fn run_effects(
    items: Seq<UserView>,
    group: i64,
    first: nat,
    commands: Seq<Step>,
) -> Seq<EffectView> {
    commands.map_values(
        |step: Step|
            match step {
                Step::Dispatch(at) => effect_of(items, group, first + at, step),
                _ => effect_of(items, group, first, step),
            },
    )
}

/// The picker never offers a user who is a member already, whatever the
/// search text: no option on display has the id of a member as its value.
pub proof fn lemma_members_never_offered(
    list: Seq<UserView>,
    members: Seq<UserView>,
    query: Seq<char>,
)
    ensures
        forall|i: int|
            0 <= i < filtered(options_of(selectable(list, members)), query).len() ==> !member_ids(
                members,
            ).contains(#[trigger] filtered(options_of(selectable(list, members)), query)[i].value),
{
    let free = selectable(list, members);
    let offered = options_of(free);
    lemma_filter_members(
        offered,
        |option: OptionView| crate::text::matches_query(option.text, query),
    );
}

/// A response that does not answer the operation in flight is discarded: the
/// state stays as it is, nothing is asked of the runtime, and nothing is drawn
/// anew.
pub proof fn lemma_stale_response_discarded(
    state: StateView,
    props: PropsView,
    handle: nat,
    list: Result<Seq<UserView>, ErrorView>,
    failure: Option<ErrorView>,
)
    requires
        !state.task.accepts(handle),
    ensures
        state.after(props, MsgView::UserListResponse(handle, list)) == state,
        state.update(props, MsgView::UserListResponse(handle, list)) == (HandledView {
            should_render: false,
            effects: Seq::empty(),
        }),
        state.after(props, MsgView::AddMemberResponse(handle, failure)) == state,
        state.update(props, MsgView::AddMemberResponse(handle, failure)) == (HandledView {
            should_render: false,
            effects: Seq::empty(),
        }),
{
}

/// Each failure goes both ways: it is kept as the widget's last error, and it
/// is handed to the owner, alone and as it is.
pub proof fn lemma_failure_goes_both_ways(state: StateView, props: PropsView, msg: MsgView)
    ensures
        state.handled(props, msg).result matches Err(error) ==> {
            &&& state.after(props, msg).error == Some(error)
            &&& state.update(props, msg).effects == seq![EffectView::Error(error)]
            &&& state.update(props, msg).should_render
        },
{
}

/// Submitting an empty selection does nothing: no request, no news, no new
/// state.
pub proof fn lemma_empty_submission_does_nothing(state: StateView, props: PropsView)
    requires
        state.selected_users.len() == 0,
    ensures
        state.after(props, MsgView::SubmitAddMembers) == state,
        state.update(props, MsgView::SubmitAddMembers).effects == Seq::<EffectView>::empty(),
{
}

/// A submission while an operation is in flight is refused: the batch and the
/// operation stay as they are, and no request is sent.
pub proof fn lemma_busy_submission_refused(state: StateView, props: PropsView)
    requires
        state.selected_users.len() > 0,
        state.task.state is Running,
    ensures
        state.after(props, MsgView::SubmitAddMembers) == (StateView {
            error: Some(ErrorView::busy()),
            ..state
        }),
        state.update(props, MsgView::SubmitAddMembers).effects == seq![
            EffectView::Error(ErrorView::busy()),
        ],
{
}

/// A batch holds the selection as it was when it was submitted: a new
/// selection and a new list of users leave its items, its cursor and its
/// status as they are.
pub proof fn lemma_batch_keeps_its_items(state: StateView, props: PropsView, msg: MsgView)
    requires
        state.wf(),
    ensures
        state.after(props, msg).wf(),
        !(msg is SubmitAddMembers) ==> state.after(props, msg).job.items == state.job.items,
        !(msg is SubmitAddMembers) && !(msg is AddMemberResponse) ==> state.after(props, msg).job
            == state.job,
        state.after(props, msg).job.cursor == state.job.cursor || (msg is SubmitAddMembers
            && state.after(props, msg).job.cursor == 0) || (msg matches MsgView::AddMemberResponse(
            _,
            None,
        ) && state.after(props, msg).job.cursor == state.job.cursor + 1),
{
}

/// While the first `k` requests of a submitted batch have succeeded and more
/// users wait, the batch runs with its cursor at `k`, the request for that
/// user is in flight, and what was asked of the runtime since the submission
/// is the image of [`progress`](crate::batch::progress)`(k)`.
pub proof fn lemma_run_prefix(state: StateView, props: PropsView, k: nat)
    requires
        !(state.task.state is Running),
        k < state.selected_users.len(),
    ensures
        ({
            let items = state.selected_users;
            let first = state.task.generation + 1;
            let submitted = state.after(props, MsgView::SubmitAddMembers);
            let reached = submitted.after_responses(props, crate::batch::successes(k));
            &&& reached == (StateView {
                task: TaskView {
                    state: crate::task::TaskStateView::Running,
                    generation: first + k,
                },
                job: JobView {
                    items,
                    cursor: k,
                    status: crate::batch::JobStatusView::Running,
                },
                ..state
            })
            &&& state.update(props, MsgView::SubmitAddMembers).effects
                + submitted.effects_of_responses(props, crate::batch::successes(k)) == run_effects(
                items,
                props.group_id,
                first,
                crate::batch::progress(k),
            )
        }),
    decreases k,
{
    let items = state.selected_users;
    let first = state.task.generation + 1;
    let submitted = state.after(props, MsgView::SubmitAddMembers);
    let at_submit = state.update(props, MsgView::SubmitAddMembers).effects;
    let run = crate::batch::successes(k);
    if k > 0 {
        let j = (k - 1) as nat;
        lemma_run_prefix(state, props, j);
        let shorter = crate::batch::successes(j);
        assert(run.drop_last() =~= shorter);
        let before = submitted.after_responses(props, shorter);
        let added = before.update(props, before.response(None)).effects;
        assert(at_submit + submitted.effects_of_responses(props, run) =~= run_effects(
            items,
            props.group_id,
            first,
            crate::batch::progress(j),
        ) + added);
    }
}

/// A selection of `n` users, submitted while nothing is in flight, whose
/// requests all succeed: exactly `n` requests are sent, for the users in the
/// order of the selection, each one only after the user before was reported
/// as added; the `n` users are reported as added in that order; then the batch
/// is reported as done, and it ends done with its cursor past the last user.
pub proof fn lemma_run_all_succeed(state: StateView, props: PropsView)
    requires
        !(state.task.state is Running),
        state.selected_users.len() > 0,
    ensures
        ({
            let items = state.selected_users;
            let n = items.len();
            let first = state.task.generation + 1;
            let submitted = state.after(props, MsgView::SubmitAddMembers);
            let reached = submitted.after_responses(props, crate::batch::successes(n));
            &&& reached == (StateView {
                task: TaskView {
                    state: crate::task::TaskStateView::Succeeded,
                    generation: (first + n - 1) as nat,
                },
                job: JobView { items, cursor: n, status: crate::batch::JobStatusView::Done },
                ..state
            })
            &&& state.update(props, MsgView::SubmitAddMembers).effects
                + submitted.effects_of_responses(props, crate::batch::successes(n)) == run_effects(
                items,
                props.group_id,
                first,
                crate::batch::full_run(n),
            )
        }),
{
    let items = state.selected_users;
    let n = items.len();
    let last = (n - 1) as nat;
    let first = state.task.generation + 1;
    let submitted = state.after(props, MsgView::SubmitAddMembers);
    let at_submit = state.update(props, MsgView::SubmitAddMembers).effects;
    let run = crate::batch::successes(n);
    let shorter = crate::batch::successes(last);
    lemma_run_prefix(state, props, last);
    assert(run.drop_last() =~= shorter);
    let before = submitted.after_responses(props, shorter);
    let added = before.update(props, before.response(None)).effects;
    assert(at_submit + submitted.effects_of_responses(props, run) =~= run_effects(
        items,
        props.group_id,
        first,
        crate::batch::progress(last),
    ) + added);
}

/// The request for the `i`-th user of a submitted batch (counted from 1)
/// fails after those before it succeeded: exactly `i` requests were sent and
/// exactly the `i - 1` users before were reported as added; the failure is
/// surfaced; the batch ends failed with its cursor on the `i`-th user; and no
/// request for a later user is ever sent.
pub proof fn lemma_run_fails_at(state: StateView, props: PropsView, i: nat, error: ErrorView)
    requires
        !(state.task.state is Running),
        1 <= i <= state.selected_users.len(),
    ensures
        ({
            let items = state.selected_users;
            let first = state.task.generation + 1;
            let submitted = state.after(props, MsgView::SubmitAddMembers);
            let outcomes = crate::batch::successes((i - 1) as nat).push(Some(error));
            let reached = submitted.after_responses(props, outcomes);
            &&& reached == (StateView {
                error: Some(error),
                task: TaskView {
                    state: crate::task::TaskStateView::Failed(error),
                    generation: (first + i - 1) as nat,
                },
                job: JobView {
                    items,
                    cursor: (i - 1) as nat,
                    status: crate::batch::JobStatusView::Failed(error),
                },
                ..state
            })
            &&& state.update(props, MsgView::SubmitAddMembers).effects
                + submitted.effects_of_responses(props, outcomes) == run_effects(
                items,
                props.group_id,
                first,
                crate::batch::progress((i - 1) as nat),
            ).push(EffectView::Error(error))
            &&& forall|handle: nat, failure: Option<ErrorView>|
                #![auto]
                reached.after(props, MsgView::AddMemberResponse(handle, failure)) == reached
                    && reached.update(
                    props,
                    MsgView::AddMemberResponse(handle, failure),
                ).effects.len() == 0
        }),
{
    let k = (i - 1) as nat;
    let shorter = crate::batch::successes(k);
    let outcomes = shorter.push(Some(error));
    lemma_run_prefix(state, props, k);
    assert(outcomes.drop_last() =~= shorter);
}

} // verus!
