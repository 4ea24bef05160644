//! Adding a user to groups: a picker of the groups that the user is not a
//! member of yet, and the batch that adds the user to the chosen ones, one
//! request at a time.
use crate::batch::{in_range, orderly, BatchCommand, BatchJob, JobView, Step};
use crate::components::select::{filtered, OptionView, SelectOptionProps};
use crate::decimal::{
    decimal, format_i64, lemma_decimal_round_trip, parse_i64, parsed, format_usize,
};
use crate::error::{ErrorSink, ErrorView, TaskError};
use crate::seqs::{lemma_filter_members, lemma_filter_take_next};
use crate::task::{AsyncTask, TaskHandle, TaskView};
use std::collections::HashSet;
use vstd::prelude::*;
use vstd::std_specs::convert::FromSpecImpl;
use vstd::string::StringExecFns;

verus! {

/// A group of the directory, as the picker needs it. Two groups are the same
/// where their ids are.
#[derive(Debug, PartialEq, Eq)]
pub struct Group {
    pub id: i64,
    pub display_name: String,
}

/// A group, over texts.
pub struct GroupView {
    pub id: i64,
    pub display_name: Seq<char>,
}

impl View for Group {
    type V = GroupView;

    open spec fn view(&self) -> GroupView {
        GroupView { id: self.id, display_name: self.display_name@ }
    }
}

impl DeepView for Group {
    type V = GroupView;

    open spec fn deep_view(&self) -> GroupView {
        self@
    }
}

impl Clone for Group {
    fn clone(&self) -> (copy: Self)
        ensures
            copy == *self,
    {
        Group { id: self.id, display_name: self.display_name.clone() }
    }
}

/// A group as the list of all groups holds it: with the day of its creation,
/// as text.
#[derive(Debug, PartialEq, Eq)]
pub struct GroupListGroup {
    pub id: i64,
    pub display_name: String,
    pub creation_date: String,
}

impl View for GroupListGroup {
    type V = GroupView;

    open spec fn view(&self) -> GroupView {
        GroupView { id: self.id, display_name: self.display_name@ }
    }
}

impl DeepView for GroupListGroup {
    type V = GroupView;

    open spec fn deep_view(&self) -> GroupView {
        self@
    }
}

impl From<GroupListGroup> for Group {
    fn from(group: GroupListGroup) -> (converted: Self) {
        Self { id: group.id, display_name: group.display_name }
    }
}

impl FromSpecImpl<GroupListGroup> for Group {
    open spec fn obeys_from_spec() -> bool {
        true
    }

    open spec fn from_spec(group: GroupListGroup) -> Self {
        Group { id: group.id, display_name: group.display_name }
    }
}

/// The request that adds one user to one group, with its variables.
#[derive(Debug, PartialEq, Eq)]
pub struct AddUserToGroup {
    pub user: String,
    pub group: i64,
}

/// The request for the list of all groups.
#[derive(Debug, PartialEq, Eq)]
pub struct GetGroupList {}

/// What the widget is given by its owner: the user, and the groups that the
/// user is a member of already.
pub struct Props {
    pub username: String,
    pub groups: Vec<Group>,
}

/// The properties, over texts.
pub struct PropsView {
    pub username: Seq<char>,
    pub groups: Seq<GroupView>,
}

impl View for Props {
    type V = PropsView;

    open spec fn view(&self) -> PropsView {
        PropsView { username: self.username@, groups: self.groups.deep_view() }
    }
}

/// The messages of the widget. A response carries the handle of the operation
/// that it answers.
#[derive(Debug, PartialEq, Eq)]
pub enum Msg {
    /// The list of all groups arrived, or fetching it failed.
    GroupListResponse(TaskHandle, Result<Vec<GroupListGroup>, TaskError>),
    /// The user is to be added to the chosen groups.
    SubmitAddGroups,
    /// The request of the batch that was in flight succeeded or failed.
    AddGroupResponse(TaskHandle, Result<(), TaskError>),
    /// The picker reports a new selection.
    SelectionChanged(Vec<SelectOptionProps>),
}

/// A message, over texts.
pub enum MsgView {
    GroupListResponse(nat, Result<Seq<GroupView>, ErrorView>),
    SubmitAddGroups,
    AddGroupResponse(nat, Option<ErrorView>),
    SelectionChanged(Seq<OptionView>),
}

impl View for Msg {
    type V = MsgView;

    open spec fn view(&self) -> MsgView {
        match self {
            Msg::GroupListResponse(handle, response) => MsgView::GroupListResponse(
                handle@,
                match response {
                    Ok(groups) => Ok(groups.deep_view()),
                    Err(error) => Err(error@),
                },
            ),
            Msg::SubmitAddGroups => MsgView::SubmitAddGroups,
            Msg::AddGroupResponse(handle, response) => MsgView::AddGroupResponse(
                handle@,
                match response {
                    Ok(_) => None,
                    Err(error) => Some(error@),
                },
            ),
            Msg::SelectionChanged(options) => MsgView::SelectionChanged(options.deep_view()),
        }
    }
}

/// What the widget asks of the runtime around it.
#[derive(Debug, PartialEq, Eq)]
pub enum Effect {
    /// Send the request for the list of all groups; answer with
    /// [`Msg::GroupListResponse`] and this handle.
    GetGroupList(TaskHandle, GetGroupList),
    /// Send the request that adds the user to the group; answer with
    /// [`Msg::AddGroupResponse`] and this handle.
    AddUserToGroup(TaskHandle, AddUserToGroup),
    /// Tell the owner that the user is a member of this group now.
    UserAddedToGroup(Group),
    /// Tell the owner that the user is a member of every chosen group now.
    BatchDone,
    /// Tell the owner of this failure.
    Error(TaskError),
}

/// An effect, over texts.
pub enum EffectView {
    GetGroupList(nat),
    AddUserToGroup(nat, Seq<char>, i64),
    UserAddedToGroup(GroupView),
    BatchDone,
    Error(ErrorView),
}

impl View for Effect {
    type V = EffectView;

    open spec fn view(&self) -> EffectView {
        match self {
            Effect::GetGroupList(handle, _) => EffectView::GetGroupList(handle@),
            Effect::AddUserToGroup(handle, request) => EffectView::AddUserToGroup(
                handle@,
                request.user@,
                request.group,
            ),
            Effect::UserAddedToGroup(group) => EffectView::UserAddedToGroup(group@),
            Effect::BatchDone => EffectView::BatchDone,
            Effect::Error(error) => EffectView::Error(error@),
        }
    }
}

impl DeepView for Effect {
    type V = EffectView;

    open spec fn deep_view(&self) -> EffectView {
        self@
    }
}

/// What handling a message came to: whether the widget has to be drawn anew,
/// and what the runtime has to do.
#[derive(Debug, PartialEq, Eq)]
pub struct Handled {
    pub should_render: bool,
    pub effects: Vec<Effect>,
}

/// What handling a message came to, over texts.
pub struct HandledView {
    pub should_render: bool,
    pub effects: Seq<EffectView>,
}

impl View for Handled {
    type V = HandledView;

    open spec fn view(&self) -> HandledView {
        HandledView { should_render: self.should_render, effects: self.effects.deep_view() }
    }
}

/// The ids of the groups in `memberships`.
pub open spec fn member_ids(memberships: Seq<GroupView>) -> Set<i64> {
    Set::new(
        |id: i64| exists|i: int| 0 <= i < memberships.len() && #[trigger] memberships[i].id == id,
    )
}

/// The groups of `list` that are not among `memberships`, in the order of
/// `list`.
pub open spec fn selectable(list: Seq<GroupView>, memberships: Seq<GroupView>) -> Seq<GroupView> {
    list.filter(|group: GroupView| !member_ids(memberships).contains(group.id))
}

/// The option that stands for a group in the picker: its value is the group's
/// id as decimal text, its text the group's display name or, where that is
/// empty, the id as decimal text.
pub open spec fn option_of(group: GroupView) -> OptionView {
    OptionView {
        value: decimal(group.id as int),
        text: if group.display_name.len() == 0 {
            decimal(group.id as int)
        } else {
            group.display_name
        },
    }
}

/// The options that stand for `groups`, in their order.
pub open spec fn options_of(groups: Seq<GroupView>) -> Seq<OptionView> {
    groups.map_values(|group: GroupView| option_of(group))
}

/// Whether an option can stand for a group: its value is the decimal text of
/// a group's id.
pub open spec fn names_group(option: OptionView) -> bool {
    parsed(option.value) is Some
}

/// Whether each of the options can stand for a group.
pub open spec fn name_groups(options: Seq<OptionView>) -> bool {
    forall|i: int| 0 <= i < options.len() ==> names_group(#[trigger] options[i])
}

/// The group that an option of the picker stands for.
pub open spec fn group_of(option: OptionView) -> GroupView
    recommends
        names_group(option),
{
    GroupView { id: parsed(option.value).unwrap(), display_name: option.text }
}

/// The groups that `options` stand for, in their order.
pub open spec fn groups_of(options: Seq<OptionView>) -> Seq<GroupView> {
    options.map_values(|option: OptionView| group_of(option))
}

/// The text on the button that submits a selection of `count` groups.
pub open spec fn submit_label(count: nat) -> Seq<char> {
    if count > 1 {
        "Add to "@ + decimal(count as int) + " groups"@
    } else {
        "Add to group"@
    }
}

/// A copy of a list of groups.
pub fn clone_groups(groups: &Vec<Group>) -> (copy: Vec<Group>)
    ensures
        copy@ == groups@,
{
    let mut copy: Vec<Group> = Vec::new();
    let mut i: usize = 0;
    while i < groups.len()
        invariant
            i <= groups.len(),
            copy@ == groups@.take(i as int),
        decreases groups.len() - i,
    {
        copy.push(groups[i].clone());
        i += 1;
    }
    copy
}

/// The groups of a list of all groups, without the days of their creation.
pub fn groups_from_list(list: Vec<GroupListGroup>) -> (groups: Vec<Group>)
    ensures
        groups.deep_view() == list.deep_view(),
{
    let ghost all = list.deep_view();
    let ghost rows = list@;
    let mut groups: Vec<Group> = Vec::new();
    for row in iter: list.into_iter()
        invariant
            iter.seq() == rows,
            rows.len() == all.len(),
            forall|i: int| 0 <= i < rows.len() ==> (#[trigger] rows[i])@ == all[i],
            groups.deep_view() == all.take(iter.index() as int),
    {
        let ghost before = groups.deep_view();
        let ghost at = iter.index() as int;
        let group = Group::from(row);
        groups.push(group);
        assert(groups.deep_view() =~= before.push(all[at]));
    }
    groups
}

/// Whether an option can stand for a group.
pub fn option_names_group(option: &SelectOptionProps) -> (named: bool)
    ensures
        named == names_group(option@),
{
    parse_i64(option.value.as_str()).is_some()
}

/// Whether each of the options can stand for a group.
pub fn options_name_groups(options: &Vec<SelectOptionProps>) -> (named: bool)
    ensures
        named == name_groups(options.deep_view()),
{
    let mut i: usize = 0;
    while i < options.len()
        invariant
            i <= options.len(),
            forall|j: int| 0 <= j < i ==> names_group(#[trigger] options.deep_view()[j]),
        decreases options.len() - i,
    {
        if !option_names_group(&options[i]) {
            assert(!names_group(options.deep_view()[i as int]));
            return false;
        }
        i += 1;
    }
    true
}

/// The groups that the options of a picker stand for, in their order.
pub fn groups_from_options(options: Vec<SelectOptionProps>) -> (groups: Vec<Group>)
    requires
        name_groups(options.deep_view()),
    ensures
        groups.deep_view() == groups_of(options.deep_view()),
{
    let mut groups: Vec<Group> = Vec::new();
    let mut i: usize = 0;
    while i < options.len()
        invariant
            i <= options.len(),
            name_groups(options.deep_view()),
            groups.deep_view() == groups_of(options.deep_view()).take(i as int),
        decreases options.len() - i,
    {
        let ghost before = groups.deep_view();
        let option = &options[i];
        assert(names_group(options.deep_view()[i as int]));
        let id = parse_i64(option.value.as_str()).unwrap();
        let group = Group { id, display_name: option.text.clone() };
        groups.push(group);
        assert(groups.deep_view() =~= before.push(group@));
        i += 1;
    }
    groups
}

/// The options that stand for `groups` in the picker, in their order.
pub fn options_from_groups(groups: &Vec<Group>) -> (options: Vec<SelectOptionProps>)
    ensures
        options.deep_view() == options_of(groups.deep_view()),
{
    let mut options: Vec<SelectOptionProps> = Vec::new();
    let mut i: usize = 0;
    while i < groups.len()
        invariant
            i <= groups.len(),
            options.deep_view() == options_of(groups.deep_view()).take(i as int),
        decreases groups.len() - i,
    {
        let ghost before = options.deep_view();
        let group = &groups[i];
        let value = format_i64(group.id);
        let text = if group.display_name.as_str().is_empty() {
            value.clone()
        } else {
            group.display_name.clone()
        };
        let option = SelectOptionProps { value, text };
        options.push(option);
        assert(options.deep_view() =~= before.push(option@));
        i += 1;
    }
    options
}

/// The groups of `list` that are not among `memberships`, in the order of
/// `list`.
pub fn selectable_groups(memberships: &Vec<Group>, list: &Vec<Group>) -> (free: Vec<Group>)
    ensures
        free.deep_view() == selectable(list.deep_view(), memberships.deep_view()),
{
    broadcast use vstd::std_specs::hash::group_hash_axioms;

    let ghost all_members = memberships.deep_view();
    let mut ids: HashSet<i64> = HashSet::new();
    let mut i: usize = 0;
    while i < memberships.len()
        invariant
            i <= memberships.len(),
            all_members == memberships.deep_view(),
            ids@ == member_ids(all_members.take(i as int)),
        decreases memberships.len() - i,
    {
        ids.insert(memberships[i].id);
        proof {
            let before = all_members.take(i as int);
            let now = all_members.take(i + 1);
            assert forall|id: i64|
                member_ids(before).insert(all_members[i as int].id).contains(
                    id,
                ) implies member_ids(now).contains(id) by {
                if id == all_members[i as int].id {
                    assert(now[i as int].id == id);
                }
            }
        }
        i += 1;
    }
    assert(all_members.take(memberships.len() as int) =~= all_members);
    let ghost full = list.deep_view();
    let ghost pred = |group: GroupView| !member_ids(all_members).contains(group.id);
    let mut free: Vec<Group> = Vec::new();
    let mut k: usize = 0;
    while k < list.len()
        invariant
            k <= list.len(),
            full == list.deep_view(),
            ids@ == member_ids(all_members),
            pred == |group: GroupView| !member_ids(all_members).contains(group.id),
            free.deep_view() == full.take(k as int).filter(pred),
        decreases list.len() - k,
    {
        let group = &list[k];
        proof {
            lemma_filter_take_next(full, pred, k as int);
        }
        if !ids.contains(&group.id) {
            free.push(group.clone());
        }
        k += 1;
    }
    assert(full.take(list.len() as int) =~= full);
    free
}

/// What a command of the batch means for the runtime: the request that adds
/// the user to the group at that position, sent under `handle`; the news that
/// the user was added to a group; or the news that the batch is done.
pub open spec fn effect_of(
    items: Seq<GroupView>,
    username: Seq<char>,
    handle: nat,
    step: Step,
) -> EffectView {
    match step {
        Step::Dispatch(at) => EffectView::AddUserToGroup(handle, username, items[at as int].id),
        Step::Committed(at) => EffectView::UserAddedToGroup(items[at as int]),
        Step::Finished => EffectView::BatchDone,
    }
}

/// The effects that stand for the commands of a batch, in their order.
pub open spec fn effects_of(
    items: Seq<GroupView>,
    username: Seq<char>,
    handle: nat,
    commands: Seq<Step>,
) -> Seq<EffectView> {
    commands.map_values(|step: Step| effect_of(items, username, handle, step))
}

/// The state of the widget: the last failure, the bookkeeping of its one
/// operation in flight, the list of all groups once it has arrived, the
/// groups chosen in the picker, and the batch.
pub struct StateView {
    pub error: Option<ErrorView>,
    pub task: TaskView,
    pub group_list: Option<Seq<GroupView>>,
    pub selected_groups: Seq<GroupView>,
    pub job: JobView<GroupView>,
}

/// What handling a message leaves: the new state, and either what is to be
/// done or the failure that is to be surfaced.
pub struct Outcome {
    pub state: StateView,
    pub result: Result<HandledView, ErrorView>,
}

/// What is on display.
#[derive(Debug, PartialEq, Eq)]
pub enum Rendering {
    /// The list of groups has not arrived.
    Loading,
    /// The user is a member of every group already: there is nothing to
    /// choose.
    AllGroups,
    /// The picker with these options, and the button that submits the
    /// selection.
    Picker { options: Vec<SelectOptionProps>, submit_disabled: bool, submit_label: String },
}

/// What is on display, over texts.
pub enum RenderingView {
    Loading,
    AllGroups,
    Picker { options: Seq<OptionView>, submit_disabled: bool, submit_label: Seq<char> },
}

impl View for Rendering {
    type V = RenderingView;

    open spec fn view(&self) -> RenderingView {
        match self {
            Rendering::Loading => RenderingView::Loading,
            Rendering::AllGroups => RenderingView::AllGroups,
            Rendering::Picker { options, submit_disabled, submit_label } => RenderingView::Picker {
                options: options.deep_view(),
                submit_disabled: *submit_disabled,
                submit_label: submit_label@,
            },
        }
    }
}

impl StateView {
    /// The batch is well formed.
    pub open spec fn wf(self) -> bool {
        self.job.wf()
    }

    /// One more operation can be started.
    pub open spec fn can_start(self) -> bool {
        self.task.generation < AsyncTask::capacity()
    }

    /// The widget can take the message: a selection is taken where each of
    /// its options can stand for a group.
    pub open spec fn takes(self, msg: MsgView) -> bool {
        msg matches MsgView::SelectionChanged(options) ==> name_groups(options)
    }

    /// The state of a widget that was just created: the request for the list
    /// of groups is in flight.
    pub open spec fn initial() -> StateView {
        StateView {
            error: None,
            task: (TaskView { state: crate::task::TaskStateView::Idle, generation: 0 }).started(),
            group_list: None,
            selected_groups: Seq::empty(),
            job: JobView::idle(),
        }
    }

    /// The message changes nothing and asks for nothing, not even for a new
    /// rendering.
    pub open spec fn ignoring(self) -> Outcome {
        Outcome {
            state: self,
            result: Ok(HandledView { should_render: false, effects: Seq::empty() }),
        }
    }

    /// What handling `msg` leaves.
    ///
    /// A response whose handle does not name the operation in flight is stale
    /// and ignored. The list of groups is kept when it arrives. Submitting an
    /// empty selection is ignored; submitting while an operation is in flight
    /// is refused; otherwise a batch is created for the selection as it is at
    /// that moment and the request for its first group is sent. Each success
    /// of a request of the batch reports that group as joined, and then sends
    /// the request for the next group or reports the batch as done. A failure
    /// stops the batch and is surfaced. A new selection replaces the one before and
    /// leaves a batch that runs as it is.
    pub open spec fn handled(self, props: PropsView, msg: MsgView) -> Outcome {
        match msg {
            MsgView::GroupListResponse(handle, response) => if !self.task.accepts(handle) {
                self.ignoring()
            } else {
                match response {
                    Ok(groups) => Outcome {
                        state: StateView {
                            task: self.task.completed(handle, None),
                            group_list: Some(groups),
                            ..self
                        },
                        result: Ok(HandledView { should_render: true, effects: Seq::empty() }),
                    },
                    Err(error) => Outcome {
                        state: StateView {
                            task: self.task.completed(handle, Some(error)),
                            ..self
                        },
                        result: Err(error),
                    },
                }
            },
            MsgView::SubmitAddGroups => if self.selected_groups.len() == 0 {
                self.ignoring()
            } else if self.task.state is Running {
                Outcome { state: self, result: Err(ErrorView::busy()) }
            } else {
                Outcome {
                    state: StateView {
                        task: self.task.started(),
                        job: JobView::submitted(self.selected_groups),
                        ..self
                    },
                    result: Ok(
                        HandledView {
                            should_render: true,
                            effects: effects_of(
                                self.selected_groups,
                                props.username,
                                self.task.generation + 1,
                                JobView::<GroupView>::first_commands(),
                            ),
                        },
                    ),
                }
            },
            MsgView::AddGroupResponse(handle, failure) => if !self.task.accepts(handle) {
                self.ignoring()
            } else {
                let task = self.task.completed(handle, failure);
                let job = self.job.after(failure);
                match failure {
                    Some(error) => Outcome {
                        state: StateView { task, job, ..self },
                        result: Err(error),
                    },
                    None => Outcome {
                        state: StateView {
                            task: if self.job.status is Running && job.status is Running {
                                task.started()
                            } else {
                                task
                            },
                            job,
                            ..self
                        },
                        result: Ok(
                            HandledView {
                                should_render: true,
                                effects: effects_of(
                                    self.job.items,
                                    props.username,
                                    self.task.generation + 1,
                                    self.job.commands(None),
                                ),
                            },
                        ),
                    },
                }
            },
            MsgView::SelectionChanged(options) => Outcome {
                state: StateView { selected_groups: groups_of(options), ..self },
                result: Ok(HandledView { should_render: true, effects: Seq::empty() }),
            },
        }
    }

    /// The state after `msg`, failures surfaced: a failure is kept as the
    /// widget's last error.
    pub open spec fn after(self, props: PropsView, msg: MsgView) -> StateView {
        let outcome = self.handled(props, msg);
        match outcome.result {
            Ok(_) => outcome.state,
            Err(error) => StateView { error: Some(error), ..outcome.state },
        }
    }

    /// What `msg` asks of the runtime, failures surfaced: a failure is handed
    /// to the owner, and the widget is drawn anew.
    pub open spec fn update(self, props: PropsView, msg: MsgView) -> HandledView {
        match self.handled(props, msg).result {
            Ok(handled) => handled,
            Err(error) => HandledView {
                should_render: true,
                effects: seq![EffectView::Error(error)],
            },
        }
    }

    /// The response that answers the request in flight: success, or the
    /// failure.
    pub open spec fn response(self, failure: Option<ErrorView>) -> MsgView {
        MsgView::AddGroupResponse(self.task.generation, failure)
    }

    /// The state after a run of responses, each of which answers the request
    /// that is in flight when it arrives.
    pub open spec fn after_responses(
        self,
        props: PropsView,
        outcomes: Seq<Option<ErrorView>>,
    ) -> StateView
        decreases outcomes.len(),
    {
        if outcomes.len() == 0 {
            self
        } else {
            let before = self.after_responses(props, outcomes.drop_last());
            before.after(props, before.response(outcomes.last()))
        }
    }

    /// Everything that such a run of responses asks of the runtime, in order.
    pub open spec fn effects_of_responses(
        self,
        props: PropsView,
        outcomes: Seq<Option<ErrorView>>,
    ) -> Seq<EffectView>
        decreases outcomes.len(),
    {
        if outcomes.len() == 0 {
            Seq::empty()
        } else {
            let before = self.after_responses(props, outcomes.drop_last());
            self.effects_of_responses(props, outcomes.drop_last()) + before.update(
                props,
                before.response(outcomes.last()),
            ).effects
        }
    }

    /// What is on display: nothing but a notice while the list of groups is
    /// awaited or where the user is a member of them all; otherwise the picker
    /// with the other groups, and the button, which is disabled while
    /// nothing is chosen or an operation is in flight.
    pub open spec fn rendering(self, props: PropsView) -> RenderingView {
        match self.group_list {
            None => RenderingView::Loading,
            Some(list) => {
                let options = options_of(selectable(list, props.groups));
                if options.len() == 0 {
                    RenderingView::AllGroups
                } else {
                    RenderingView::Picker {
                        options,
                        submit_disabled: self.selected_groups.len() == 0 || self.task.state
                            is Running,
                        submit_label: submit_label(self.selected_groups.len()),
                    }
                }
            },
        }
    }
}

/// The widget that adds a user to groups.
pub struct AddUserToGroupComponent {
    task: AsyncTask,
    errors: ErrorSink,
    /// The list of all groups, initially not loaded.
    group_list: Option<Vec<Group>>,
    /// The groups chosen in the picker.
    selected_groups: Vec<Group>,
    /// The batch that adds the user to the groups chosen when it was
    /// submitted.
    job: BatchJob<Group>,
}

impl View for AddUserToGroupComponent {
    type V = StateView;

    closed spec fn view(&self) -> StateView {
        StateView {
            error: self.errors@,
            task: self.task@,
            group_list: self.group_list.deep_view(),
            selected_groups: self.selected_groups.deep_view(),
            job: self.job@,
        }
    }
}

impl AddUserToGroupComponent {
    /// A new widget, and the request for the list of groups that it sends at
    /// once.
    pub fn create() -> (created: (Self, Vec<Effect>))
        ensures
            created.0@.wf(),
            created.0@ == StateView::initial(),
            created.1.deep_view() == seq![EffectView::GetGroupList(1)],
    {
        let mut res = AddUserToGroupComponent {
            task: AsyncTask::new(),
            errors: ErrorSink::new(),
            group_list: None,
            selected_groups: Vec::new(),
            job: BatchJob::idle(),
        };
        assert(res.selected_groups.deep_view() =~= Seq::<GroupView>::empty());
        let effects = res.get_group_list();
        (res, effects)
    }

    /// Starts fetching the list of groups.
    fn get_group_list(&mut self) -> (effects: Vec<Effect>)
        requires
            old(self)@.can_start(),
        ensures
            final(self)@ == (StateView { task: old(self)@.task.started(), ..old(self)@ }),
            effects.deep_view() == seq![
                EffectView::GetGroupList(old(self)@.task.generation + 1),
            ],
    {
        let handle = self.task.start();
        let mut effects: Vec<Effect> = Vec::new();
        effects.push(Effect::GetGroupList(handle, GetGroupList {  }));
        effects
    }

    /// Whether an operation is in flight.
    pub fn is_task_running(&self) -> (running: bool)
        ensures
            running == (self@.task.state is Running),
    {
        self.task.is_busy()
    }

    /// Whether one more operation can be started.
    pub fn can_start(&self) -> (room: bool)
        ensures
            room == self@.can_start(),
    {
        self.task.can_start()
    }

    /// Whether the widget can take the message.
    pub fn takes(&self, msg: &Msg) -> (taken: bool)
        ensures
            taken == self@.takes(msg@),
    {
        match msg {
            Msg::SelectionChanged(options) => options_name_groups(options),
            _ => true,
        }
    }

    /// The last failure, if any.
    pub fn error(&self) -> (last: &Option<TaskError>)
        ensures
            last.deep_view() == self@.error,
    {
        self.errors.last_error()
    }

    /// The list of all groups, once it has arrived.
    pub fn group_list(&self) -> (list: &Option<Vec<Group>>)
        ensures
            list.deep_view() == self@.group_list,
    {
        &self.group_list
    }

    /// The groups chosen in the picker.
    pub fn selected_groups(&self) -> (chosen: &Vec<Group>)
        ensures
            chosen.deep_view() == self@.selected_groups,
    {
        &self.selected_groups
    }

    /// The batch.
    pub fn job(&self) -> (job: &BatchJob<Group>)
        ensures
            self@.wf(),
            job@ == self@.job,
    {
        proof {
            use_type_invariant(&self.job);
        }
        &self.job
    }

    /// The groups of `group_list` that the user is not a member of yet.
    pub fn get_selectable_group_list(&self, props: &Props, group_list: &Vec<Group>) -> (free: Vec<
        Group,
    >)
        ensures
            free.deep_view() == selectable(group_list.deep_view(), props@.groups),
    {
        selectable_groups(&props.groups, group_list)
    }

    /// The options of the picker: one for each group of `group_list` that the
    /// user is not a member of yet.
    pub fn get_selectable_options(&self, props: &Props, group_list: &Vec<Group>) -> (options: Vec<
        SelectOptionProps,
    >)
        ensures
            options.deep_view() == options_of(selectable(group_list.deep_view(), props@.groups)),
    {
        let free = self.get_selectable_group_list(props, group_list);
        options_from_groups(&free)
    }

    /// Starts the request that adds the user to the group at position `at` of
    /// the batch. At or past the end of the batch there is no group to add the
    /// user to: nothing is asked for, and nothing changes.
    fn add_next_group(&mut self, props: &Props, at: usize) -> (effect: Option<Effect>)
        requires
            old(self)@.can_start(),
        ensures
            at >= old(self)@.job.items.len() ==> effect is None && final(self)@ == old(self)@,
            at < old(self)@.job.items.len() ==> {
                &&& final(self)@ == (StateView {
                    task: old(self)@.task.started(),
                    ..old(self)@
                })
                &&& effect matches Some(request)
                &&& request@ == effect_of(
                    old(self)@.job.items,
                    props@.username,
                    old(self)@.task.generation + 1,
                    Step::Dispatch(at as nat),
                )
            },
    {
        if at >= self.job.items().len() {
            return None;
        }
        let group = self.job.items()[at].id;
        let handle = self.task.start();
        Some(Effect::AddUserToGroup(handle, AddUserToGroup { user: props.username.clone(), group }))
    }

    /// Carries out one command of the batch: starts the request that it asks
    /// for, or turns the news that it brings into the effect that tells the
    /// owner.
    fn perform(&mut self, props: &Props, command: BatchCommand, effects: &mut Vec<Effect>)
        requires
            in_range(command@, old(self)@.job.items.len()),
            command@ is Dispatch ==> old(self)@.can_start(),
        ensures
            final(self)@ == (StateView {
                task: if command@ is Dispatch {
                    old(self)@.task.started()
                } else {
                    old(self)@.task
                },
                ..old(self)@
            }),
            final(effects).deep_view() == old(effects).deep_view().push(
                effect_of(
                    old(self)@.job.items,
                    props@.username,
                    old(self)@.task.generation + 1,
                    command@,
                ),
            ),
    {
        match command {
            BatchCommand::Dispatch(at) => {
                match self.add_next_group(props, at) {
                    Some(request) => effects.push(request),
                    None => {},
                }
            },
            BatchCommand::Committed(at) => {
                effects.push(Effect::UserAddedToGroup(self.job.items()[at].clone()));
            },
            BatchCommand::Finished => {
                effects.push(Effect::BatchDone);
            },
        }
    }

    /// Carries out what the batch asks for after a submission or a success:
    /// its commands, in their order.
    fn carry_out(&mut self, props: &Props, commands: &Vec<BatchCommand>, effects: &mut Vec<Effect>)
        requires
            old(self)@.can_start(),
            old(effects).deep_view().len() == 0,
            orderly(commands.deep_view(), old(self)@.job.items.len()),
        ensures
            final(self)@ == (StateView {
                task: if commands.deep_view().last() is Dispatch {
                    old(self)@.task.started()
                } else {
                    old(self)@.task
                },
                ..old(self)@
            }),
            final(effects).deep_view() == effects_of(
                old(self)@.job.items,
                props@.username,
                old(self)@.task.generation + 1,
                commands.deep_view(),
            ),
    {
        self.perform(props, commands[0], effects);
        if commands.len() == 2 {
            self.perform(props, commands[1], effects);
        }
    }

    /// Submits the selection. See [`StateView::handled`].
    fn submit_add_groups(&mut self, props: &Props) -> (result: Result<Handled, TaskError>)
        requires
            old(self)@.can_start(),
        ensures
            final(self)@.wf(),
            final(self)@ == old(self)@.handled(props@, MsgView::SubmitAddGroups).state,
            match result {
                Ok(handled) => old(self)@.handled(props@, MsgView::SubmitAddGroups).result == Ok::<
                    HandledView,
                    ErrorView,
                >(handled@),
                Err(error) => old(self)@.handled(props@, MsgView::SubmitAddGroups).result == Err::<
                    HandledView,
                    ErrorView,
                >(error@),
            },
    {
        proof {
            use_type_invariant(&self.job);
        }
        let mut effects: Vec<Effect> = Vec::new();
        assert(effects.deep_view() =~= Seq::<EffectView>::empty());
        if self.selected_groups.len() == 0 {
            return Ok(Handled { should_render: false, effects });
        }
        if self.task.is_busy() {
            return Err(TaskError::busy());
        }
        let items = clone_groups(&self.selected_groups);
        match BatchJob::submit(items) {
            None => Ok(Handled { should_render: false, effects }),
            Some((job, commands)) => {
                self.job = job;
                self.carry_out(props, &commands, &mut effects);
                Ok(Handled { should_render: true, effects })
            },
        }
    }

    /// Handles a message; a failure is returned, to be surfaced by
    /// [`Self::update`]. See [`StateView::handled`].
    pub fn handle_msg(&mut self, props: &Props, msg: Msg) -> (result: Result<Handled, TaskError>)
        requires
            old(self)@.can_start(),
            old(self)@.takes(msg@),
        ensures
            final(self)@.wf(),
            final(self)@ == old(self)@.handled(props@, msg@).state,
            match result {
                Ok(handled) => old(self)@.handled(props@, msg@).result == Ok::<
                    HandledView,
                    ErrorView,
                >(handled@),
                Err(error) => old(self)@.handled(props@, msg@).result == Err::<
                    HandledView,
                    ErrorView,
                >(error@),
            },
    {
        proof {
            use_type_invariant(&self.job);
        }
        let mut effects: Vec<Effect> = Vec::new();
        assert(effects.deep_view() =~= Seq::<EffectView>::empty());
        match msg {
            Msg::GroupListResponse(handle, response) => {
                match self.task.complete(handle, response) {
                    None => Ok(Handled { should_render: false, effects }),
                    Some(Ok(list)) => {
                        self.group_list = Some(groups_from_list(list));
                        Ok(Handled { should_render: true, effects })
                    },
                    Some(Err(error)) => Err(error),
                }
            },
            Msg::SubmitAddGroups => self.submit_add_groups(props),
            Msg::AddGroupResponse(handle, response) => {
                match self.task.complete(handle, response) {
                    None => Ok(Handled { should_render: false, effects }),
                    Some(Ok(_)) => {
                        let ghost before = self@.job;
                        let commands = self.job.step_succeeded();
                        if commands.len() > 0 {
                            self.carry_out(props, &commands, &mut effects);
                        } else {
                            assert(effects.deep_view() =~= effects_of(
                                before.items,
                                props@.username,
                                old(self)@.task.generation + 1,
                                commands.deep_view(),
                            ));
                        }
                        Ok(Handled { should_render: true, effects })
                    },
                    Some(Err(error)) => {
                        self.job.step_failed(error.clone());
                        Err(error)
                    },
                }
            },
            Msg::SelectionChanged(options) => {
                self.selected_groups = groups_from_options(options);
                Ok(Handled { should_render: true, effects })
            },
        }
    }

    /// Handles a message and surfaces a failure: it is kept as the last error
    /// and handed to the owner. See [`StateView::after`] and
    /// [`StateView::update`].
    pub fn update(&mut self, props: &Props, msg: Msg) -> (handled: Handled)
        requires
            old(self)@.can_start(),
            old(self)@.takes(msg@),
        ensures
            final(self)@.wf(),
            final(self)@ == old(self)@.after(props@, msg@),
            handled@ == old(self)@.update(props@, msg@),
    {
        match self.handle_msg(props, msg) {
            Ok(handled) => handled,
            Err(error) => {
                let forwarded = self.errors.surface(error);
                let mut effects: Vec<Effect> = Vec::new();
                effects.push(Effect::Error(forwarded));
                assert(effects.deep_view() =~= seq![EffectView::Error(error@)]);
                Handled { should_render: true, effects }
            },
        }
    }

    /// The widget goes away: whatever response arrives later is stale.
    pub fn destroy(&mut self)
        ensures
            final(self)@ == (StateView { task: old(self)@.task.torn_down(), ..old(self)@ }),
    {
        self.task.teardown();
    }

    /// What is on display. See [`StateView::rendering`].
    pub fn render(&self, props: &Props) -> (shown: Rendering)
        ensures
            shown@ == self@.rendering(props@),
    {
        match &self.group_list {
            None => Rendering::Loading,
            Some(group_list) => {
                let options = self.get_selectable_options(props, group_list);
                if options.len() == 0 {
                    Rendering::AllGroups
                } else {
                    let count = self.selected_groups.len();
                    let submit_label = if count > 1 {
                        "Add to ".to_owned().concat(format_usize(count).as_str()).concat(
                            " groups",
                        )
                    } else {
                        "Add to group".to_owned()
                    };
                    Rendering::Picker {
                        options,
                        submit_disabled: count == 0 || self.task.is_busy(),
                        submit_label,
                    }
                }
            },
        }
    }
}

/// The effects of a whole batch, for its commands in order: the request for
/// the item at position `at` is sent under the handle `first + at`.
pub open spec fn run_effects(
    items: Seq<GroupView>,
    username: Seq<char>,
    first: nat,
    commands: Seq<Step>,
) -> Seq<EffectView> {
    commands.map_values(
        |step: Step|
            match step {
                Step::Dispatch(at) => effect_of(items, username, first + at, step),
                _ => effect_of(items, username, first, step),
            },
    )
}

/// The picker never offers a group that the user is a member of already,
/// whatever the search text: the value of each option on display is the
/// decimal text of the id of a group of the list that is no such group.
pub proof fn lemma_memberships_never_offered(
    list: Seq<GroupView>,
    memberships: Seq<GroupView>,
    query: Seq<char>,
)
    ensures
        forall|i: int|
            0 <= i < filtered(options_of(selectable(list, memberships)), query).len() ==> {
                let option = #[trigger] filtered(options_of(selectable(list, memberships)), query)[i];
                &&& names_group(option)
                &&& !member_ids(memberships).contains(group_of(option).id)
                &&& exists|j: int| 0 <= j < list.len() && #[trigger] list[j].id == group_of(option).id
            },
{
    let free = selectable(list, memberships);
    let offered = options_of(free);
    let shown = filtered(offered, query);
    lemma_filter_members(list, |group: GroupView| !member_ids(memberships).contains(group.id));
    lemma_filter_members(
        offered,
        |option: OptionView| crate::text::matches_query(option.text, query),
    );
    assert forall|i: int| 0 <= i < shown.len() implies {
        let option = #[trigger] shown[i];
        &&& names_group(option)
        &&& !member_ids(memberships).contains(group_of(option).id)
        &&& exists|j: int| 0 <= j < list.len() && #[trigger] list[j].id == group_of(option).id
    } by {
        let k = choose|k: int| 0 <= k < offered.len() && offered[k] == shown[i];
        lemma_decimal_round_trip(free[k].id);
    }
}

/// The options of the picker stand for the groups that they were made from:
/// each can be read back, and reading one back gives the group's id and, as
/// its display name, the text of the option. So groups that all have a
/// display name are read back as they are.
pub proof fn lemma_options_read_back(groups: Seq<GroupView>)
    ensures
        name_groups(options_of(groups)),
        groups_of(options_of(groups)).len() == groups.len(),
        forall|i: int|
            0 <= i < groups.len() ==> #[trigger] groups_of(options_of(groups))[i] == (GroupView {
                id: groups[i].id,
                display_name: option_of(groups[i]).text,
            }),
        (forall|i: int| 0 <= i < groups.len() ==> (#[trigger] groups[i]).display_name.len() > 0)
            ==> groups_of(options_of(groups)) == groups,
{
    assert forall|i: int| 0 <= i < groups.len() implies names_group(
        #[trigger] options_of(groups)[i],
    ) && group_of(options_of(groups)[i]) == (GroupView {
        id: groups[i].id,
        display_name: option_of(groups[i]).text,
    }) by {
        lemma_decimal_round_trip(groups[i].id);
    }
    if forall|i: int| 0 <= i < groups.len() ==> (#[trigger] groups[i]).display_name.len() > 0 {
        assert(groups_of(options_of(groups)) =~= groups);
    }
}

/// Whatever a picker reports of the options that were made from groups can be
/// read back: a part of options that name groups names groups.
pub proof fn lemma_filtered_options_name_groups(options: Seq<OptionView>, kept: Seq<OptionView>)
    requires
        name_groups(options),
        forall|i: int| 0 <= i < kept.len() ==> options.contains(#[trigger] kept[i]),
    ensures
        name_groups(kept),
{
}

/// A response that does not answer the operation in flight is discarded: the
/// state stays as it is, nothing is asked of the runtime, and nothing is drawn
/// anew.
pub proof fn lemma_stale_response_discarded(
    state: StateView,
    props: PropsView,
    handle: nat,
    list: Result<Seq<GroupView>, ErrorView>,
    failure: Option<ErrorView>,
)
    requires
        !state.task.accepts(handle),
    ensures
        state.after(props, MsgView::GroupListResponse(handle, list)) == state,
        state.update(props, MsgView::GroupListResponse(handle, list)) == (HandledView {
            should_render: false,
            effects: Seq::empty(),
        }),
        state.after(props, MsgView::AddGroupResponse(handle, failure)) == state,
        state.update(props, MsgView::AddGroupResponse(handle, failure)) == (HandledView {
            should_render: false,
            effects: Seq::empty(),
        }),
{
}

/// Each failure goes both ways: it is kept as the widget's last error, and it
/// is handed to the owner, alone and as it is.
pub proof fn lemma_failure_goes_both_ways(state: StateView, props: PropsView, msg: MsgView)
    ensures
        state.handled(props, msg).result matches Err(error) ==> {
            &&& state.after(props, msg).error == Some(error)
            &&& state.update(props, msg).effects == seq![EffectView::Error(error)]
            &&& state.update(props, msg).should_render
        },
{
}

/// Submitting an empty selection does nothing: no request, no news, no new
/// state.
pub proof fn lemma_empty_submission_does_nothing(state: StateView, props: PropsView)
    requires
        state.selected_groups.len() == 0,
    ensures
        state.after(props, MsgView::SubmitAddGroups) == state,
        state.update(props, MsgView::SubmitAddGroups).effects == Seq::<EffectView>::empty(),
{
}

/// A submission while an operation is in flight is refused: the batch and the
/// operation stay as they are, and no request is sent.
pub proof fn lemma_busy_submission_refused(state: StateView, props: PropsView)
    requires
        state.selected_groups.len() > 0,
        state.task.state is Running,
    ensures
        state.after(props, MsgView::SubmitAddGroups) == (StateView {
            error: Some(ErrorView::busy()),
            ..state
        }),
        state.update(props, MsgView::SubmitAddGroups).effects == seq![
            EffectView::Error(ErrorView::busy()),
        ],
{
}

/// A batch holds the selection as it was when it was submitted: a new
/// selection and a new list of groups leave its items, its cursor and its
/// status as they are.
pub proof fn lemma_batch_keeps_its_items(state: StateView, props: PropsView, msg: MsgView)
    requires
        state.wf(),
    ensures
        state.after(props, msg).wf(),
        !(msg is SubmitAddGroups) ==> state.after(props, msg).job.items == state.job.items,
        !(msg is SubmitAddGroups) && !(msg is AddGroupResponse) ==> state.after(props, msg).job
            == state.job,
        state.after(props, msg).job.cursor == state.job.cursor || (msg is SubmitAddGroups
            && state.after(props, msg).job.cursor == 0) || (msg matches MsgView::AddGroupResponse(
            _,
            None,
        ) && state.after(props, msg).job.cursor == state.job.cursor + 1),
{
}

/// While the first `k` requests of a submitted batch have succeeded and more
/// groups wait, the batch runs with its cursor at `k`, the request for that
/// group is in flight, and what was asked of the runtime since the submission
/// is the image of [`progress`](crate::batch::progress)`(k)`.
pub proof fn lemma_run_prefix(state: StateView, props: PropsView, k: nat)
    requires
        !(state.task.state is Running),
        k < state.selected_groups.len(),
    ensures
        ({
            let items = state.selected_groups;
            let first = state.task.generation + 1;
            let submitted = state.after(props, MsgView::SubmitAddGroups);
            let reached = submitted.after_responses(props, crate::batch::successes(k));
            &&& reached == (StateView {
                task: TaskView {
                    state: crate::task::TaskStateView::Running,
                    generation: first + k,
                },
                job: JobView {
                    items,
                    cursor: k,
                    status: crate::batch::JobStatusView::Running,
                },
                ..state
            })
            &&& state.update(props, MsgView::SubmitAddGroups).effects
                + submitted.effects_of_responses(props, crate::batch::successes(k)) == run_effects(
                items,
                props.username,
                first,
                crate::batch::progress(k),
            )
        }),
    decreases k,
{
    let items = state.selected_groups;
    let first = state.task.generation + 1;
    let submitted = state.after(props, MsgView::SubmitAddGroups);
    let at_submit = state.update(props, MsgView::SubmitAddGroups).effects;
    let run = crate::batch::successes(k);
    if k > 0 {
        let j = (k - 1) as nat;
        lemma_run_prefix(state, props, j);
        let shorter = crate::batch::successes(j);
        assert(run.drop_last() =~= shorter);
        let before = submitted.after_responses(props, shorter);
        let added = before.update(props, before.response(None)).effects;
        assert(at_submit + submitted.effects_of_responses(props, run) =~= run_effects(
            items,
            props.username,
            first,
            crate::batch::progress(j),
        ) + added);
    }
}

/// A selection of `n` groups, submitted while nothing is in flight, whose
/// requests all succeed: exactly `n` requests are sent, for the groups in the
/// order of the selection, each one only after the group before was reported
/// as joined; the `n` groups are reported as joined in that order; then the
/// batch is reported as done, and it ends done with its cursor past the last
/// group.
pub proof fn lemma_run_all_succeed(state: StateView, props: PropsView)
    requires
        !(state.task.state is Running),
        state.selected_groups.len() > 0,
    ensures
        ({
            let items = state.selected_groups;
            let n = items.len();
            let first = state.task.generation + 1;
            let submitted = state.after(props, MsgView::SubmitAddGroups);
            let reached = submitted.after_responses(props, crate::batch::successes(n));
            &&& reached == (StateView {
                task: TaskView {
                    state: crate::task::TaskStateView::Succeeded,
                    generation: (first + n - 1) as nat,
                },
                job: JobView { items, cursor: n, status: crate::batch::JobStatusView::Done },
                ..state
            })
            &&& state.update(props, MsgView::SubmitAddGroups).effects
                + submitted.effects_of_responses(props, crate::batch::successes(n)) == run_effects(
                items,
                props.username,
                first,
                crate::batch::full_run(n),
            )
        }),
{
    let items = state.selected_groups;
    let n = items.len();
    let last = (n - 1) as nat;
    let first = state.task.generation + 1;
    let submitted = state.after(props, MsgView::SubmitAddGroups);
    let at_submit = state.update(props, MsgView::SubmitAddGroups).effects;
    let run = crate::batch::successes(n);
    let shorter = crate::batch::successes(last);
    lemma_run_prefix(state, props, last);
    assert(run.drop_last() =~= shorter);
    let before = submitted.after_responses(props, shorter);
    let added = before.update(props, before.response(None)).effects;
    assert(at_submit + submitted.effects_of_responses(props, run) =~= run_effects(
        items,
        props.username,
        first,
        crate::batch::progress(last),
    ) + added);
}

/// The request for the `i`-th group of a submitted batch (counted from 1)
/// fails after those before it succeeded: exactly `i` requests were sent and
/// exactly the `i - 1` groups before were reported as joined; the failure is
/// surfaced; the batch ends failed with its cursor on the `i`-th group; and no
/// request for a later group is ever sent.
pub proof fn lemma_run_fails_at(state: StateView, props: PropsView, i: nat, error: ErrorView)
    requires
        !(state.task.state is Running),
        1 <= i <= state.selected_groups.len(),
    ensures
        ({
            let items = state.selected_groups;
            let first = state.task.generation + 1;
            let submitted = state.after(props, MsgView::SubmitAddGroups);
            let outcomes = crate::batch::successes((i - 1) as nat).push(Some(error));
            let reached = submitted.after_responses(props, outcomes);
            &&& reached == (StateView {
                error: Some(error),
                task: TaskView {
                    state: crate::task::TaskStateView::Failed(error),
                    generation: (first + i - 1) as nat,
                },
                job: JobView {
                    items,
                    cursor: (i - 1) as nat,
                    status: crate::batch::JobStatusView::Failed(error),
                },
                ..state
            })
            &&& state.update(props, MsgView::SubmitAddGroups).effects
                + submitted.effects_of_responses(props, outcomes) == run_effects(
                items,
                props.username,
                first,
                crate::batch::progress((i - 1) as nat),
            ).push(EffectView::Error(error))
            &&& forall|handle: nat, failure: Option<ErrorView>|
                #![auto]
                reached.after(props, MsgView::AddGroupResponse(handle, failure)) == reached
                    && reached.update(
                    props,
                    MsgView::AddGroupResponse(handle, failure),
                ).effects.len() == 0
        }),
{
    let k = (i - 1) as nat;
    let shorter = crate::batch::successes(k);
    let outcomes = shorter.push(Some(error));
    lemma_run_prefix(state, props, k);
    assert(outcomes.drop_last() =~= shorter);
}

} // verus!
