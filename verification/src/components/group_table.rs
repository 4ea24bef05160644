//! The table of all groups, with a search box that narrows it by name.
use crate::error::{ErrorSink, ErrorView, TaskError};
use crate::seqs::{
    is_subsequence, lemma_filter_all, lemma_filter_is_subsequence, lemma_filter_take_next,
};
use crate::task::{AsyncTask, TaskHandle, TaskView};
use crate::text::{chars_of, contains_chars, lowercase, matches_query, to_lowercase};
use vstd::prelude::*;
use vstd::string::StringExecFns;

verus! {

/// A group as the table shows it. The day of its creation is kept as the text
/// that the server sent.
#[derive(Debug, PartialEq, Eq)]
pub struct Group {
    pub id: i64,
    pub display_name: String,
    pub creation_date: String,
}

/// A row of the table, over texts.
pub struct GroupView {
    pub id: i64,
    pub display_name: Seq<char>,
    pub creation_date: Seq<char>,
}

impl View for Group {
    type V = GroupView;

    open spec fn view(&self) -> GroupView {
        GroupView {
            id: self.id,
            display_name: self.display_name@,
            creation_date: self.creation_date@,
        }
    }
}

impl DeepView for Group {
    type V = GroupView;

    open spec fn deep_view(&self) -> GroupView {
        self@
    }
}

impl Clone for Group {
    fn clone(&self) -> (copy: Self)
        ensures
            copy == *self,
    {
        Group {
            id: self.id,
            display_name: self.display_name.clone(),
            creation_date: self.creation_date.clone(),
        }
    }
}

/// The request for the list of all groups.
#[derive(Debug, PartialEq, Eq)]
pub struct GetGroupList {}

/// The messages of the table. A response carries the handle of the operation
/// that it answers.
#[derive(Debug, PartialEq, Eq)]
pub enum Msg {
    /// The list of groups arrived, or fetching it failed.
    ListGroupsResponse(TaskHandle, Result<Vec<Group>, TaskError>),
    /// The group with this id was deleted.
    OnGroupDeleted(i64),
    /// A part of the table failed.
    OnError(TaskError),
    /// The search box now holds this text.
    OnSearchChange(String),
    /// The list is to be fetched anew.
    SearchGroups,
}

/// A message, over texts.
pub enum MsgView {
    ListGroupsResponse(nat, Result<Seq<GroupView>, ErrorView>),
    OnGroupDeleted(i64),
    OnError(ErrorView),
    OnSearchChange(Seq<char>),
    SearchGroups,
}

impl View for Msg {
    type V = MsgView;

    open spec fn view(&self) -> MsgView {
        match self {
            Msg::ListGroupsResponse(handle, response) => MsgView::ListGroupsResponse(
                handle@,
                match response {
                    Ok(groups) => Ok(groups.deep_view()),
                    Err(error) => Err(error@),
                },
            ),
            Msg::OnGroupDeleted(id) => MsgView::OnGroupDeleted(*id),
            Msg::OnError(error) => MsgView::OnError(error@),
            Msg::OnSearchChange(query) => MsgView::OnSearchChange(query@),
            Msg::SearchGroups => MsgView::SearchGroups,
        }
    }
}

impl DeepView for Msg {
    type V = MsgView;

    open spec fn deep_view(&self) -> MsgView {
        self@
    }
}

/// What the table asks of the runtime around it.
#[derive(Debug, PartialEq, Eq)]
pub enum Effect {
    /// Send the request for the list of all groups; answer with
    /// [`Msg::ListGroupsResponse`] and this handle.
    GetGroupList(TaskHandle, GetGroupList),
}

/// An effect, over texts.
pub enum EffectView {
    GetGroupList(nat),
}

impl View for Effect {
    type V = EffectView;

    open spec fn view(&self) -> EffectView {
        match self {
            Effect::GetGroupList(handle, _) => EffectView::GetGroupList(handle@),
        }
    }
}

impl DeepView for Effect {
    type V = EffectView;

    open spec fn deep_view(&self) -> EffectView {
        self@
    }
}

/// What handling a message came to: whether the table has to be drawn anew,
/// and what the runtime has to do.
#[derive(Debug, PartialEq, Eq)]
pub struct Handled {
    pub should_render: bool,
    pub effects: Vec<Effect>,
}

/// What handling a message came to, over texts.
pub struct HandledView {
    pub should_render: bool,
    pub effects: Seq<EffectView>,
}

impl View for Handled {
    type V = HandledView;

    open spec fn view(&self) -> HandledView {
        HandledView { should_render: self.should_render, effects: self.effects.deep_view() }
    }
}

/// The groups other than the one with this id, in their order.
pub open spec fn without(groups: Seq<GroupView>, id: i64) -> Seq<GroupView> {
    groups.filter(|group: GroupView| group.id != id)
}

/// The groups whose name matches the search text, in their order.
pub open spec fn matching(groups: Seq<GroupView>, query: Seq<char>) -> Seq<GroupView> {
    groups.filter(|group: GroupView| matches_query(group.display_name, query))
}

/// The state of the table: the last failure, the bookkeeping of its one
/// operation in flight, the groups once they have arrived, and the search
/// text.
pub struct TableView {
    pub error: Option<ErrorView>,
    pub task: TaskView,
    pub groups: Option<Seq<GroupView>>,
    pub search_query: Seq<char>,
}

/// What handling a message leaves: the new state, and either what is to be
/// done or the failure that is to be surfaced.
pub struct Outcome {
    pub state: TableView,
    pub result: Result<HandledView, ErrorView>,
}

/// What is on display below the search box.
#[derive(Debug, PartialEq, Eq)]
pub enum Rendering {
    /// The list of groups has not arrived.
    Loading,
    /// A search is set and no group matches it.
    NoMatches,
    /// These rows.
    Table(Vec<Group>),
}

/// What is on display, over texts.
pub enum RenderingView {
    Loading,
    NoMatches,
    Table(Seq<GroupView>),
}

impl View for Rendering {
    type V = RenderingView;

    open spec fn view(&self) -> RenderingView {
        match self {
            Rendering::Loading => RenderingView::Loading,
            Rendering::NoMatches => RenderingView::NoMatches,
            Rendering::Table(rows) => RenderingView::Table(rows.deep_view()),
        }
    }
}

impl TableView {
    /// One more operation can be started.
    pub open spec fn can_start(self) -> bool {
        self.task.generation < AsyncTask::capacity()
    }

    /// The table can take the message: the news that a group was deleted
    /// presupposes that the groups have arrived.
    pub open spec fn takes(self, msg: MsgView) -> bool {
        msg is OnGroupDeleted ==> self.groups is Some
    }

    /// The state of a table that was just created: the request for the list
    /// of groups is in flight.
    pub open spec fn initial() -> TableView {
        TableView {
            error: None,
            task: (TaskView { state: crate::task::TaskStateView::Idle, generation: 0 }).started(),
            groups: None,
            search_query: Seq::empty(),
        }
    }

    /// What handling `msg` leaves.
    ///
    /// A response whose handle does not name the operation in flight is stale
    /// and ignored. The list of groups is kept when it arrives; a failure to
    /// fetch it, and a failure reported by a part of the table, is surfaced. A
    /// deleted group leaves the list. A new search text is kept, without a new
    /// rendering. A search sends the request for the list anew, and supersedes
    /// a request that is in flight.
    pub open spec fn handled(self, msg: MsgView) -> Outcome {
        match msg {
            MsgView::ListGroupsResponse(handle, response) => if !self.task.accepts(handle) {
                Outcome {
                    state: self,
                    result: Ok(HandledView { should_render: false, effects: Seq::empty() }),
                }
            } else {
                match response {
                    Ok(groups) => Outcome {
                        state: TableView {
                            task: self.task.completed(handle, None),
                            groups: Some(groups),
                            ..self
                        },
                        result: Ok(HandledView { should_render: true, effects: Seq::empty() }),
                    },
                    Err(error) => Outcome {
                        state: TableView {
                            task: self.task.completed(handle, Some(error)),
                            ..self
                        },
                        result: Err(error),
                    },
                }
            },
            MsgView::OnError(error) => Outcome { state: self, result: Err(error) },
            MsgView::OnGroupDeleted(id) => Outcome {
                state: TableView {
                    groups: match self.groups {
                        Some(groups) => Some(without(groups, id)),
                        None => None,
                    },
                    ..self
                },
                result: Ok(HandledView { should_render: true, effects: Seq::empty() }),
            },
            MsgView::OnSearchChange(query) => Outcome {
                state: TableView { search_query: query, ..self },
                result: Ok(HandledView { should_render: false, effects: Seq::empty() }),
            },
            MsgView::SearchGroups => Outcome {
                state: TableView { task: self.task.started(), ..self },
                result: Ok(
                    HandledView {
                        should_render: true,
                        effects: seq![EffectView::GetGroupList(self.task.generation + 1)],
                    },
                ),
            },
        }
    }

    /// The state after `msg`, failures surfaced: a failure is kept as the
    /// table's last error.
    pub open spec fn after(self, msg: MsgView) -> TableView {
        let outcome = self.handled(msg);
        match outcome.result {
            Ok(_) => outcome.state,
            Err(error) => TableView { error: Some(error), ..outcome.state },
        }
    }

    /// What `msg` asks of the runtime, failures surfaced: after a failure the
    /// table is drawn anew, to show it.
    pub open spec fn update(self, msg: MsgView) -> HandledView {
        match self.handled(msg).result {
            Ok(handled) => handled,
            Err(_) => HandledView { should_render: true, effects: Seq::empty() },
        }
    }

    /// What is on display below the search box: the groups whose name matches
    /// the search text, or a notice where a search is set and none matches.
    pub open spec fn rendering(self) -> RenderingView {
        match self.groups {
            None => RenderingView::Loading,
            Some(groups) => if matching(groups, self.search_query).len() == 0
                && self.search_query.len() != 0 {
                RenderingView::NoMatches
            } else {
                RenderingView::Table(matching(groups, self.search_query))
            },
        }
    }

    /// The line that shows the last failure, if there is one.
    pub open spec fn error_line(self) -> Option<Seq<char>> {
        match self.error {
            None => None,
            Some(error) => Some("Error: "@ + error.message()),
        }
    }
}

/// A copy of a list of groups.
pub fn clone_groups(groups: &Vec<Group>) -> (copy: Vec<Group>)
    ensures
        copy@ == groups@,
{
    let mut copy: Vec<Group> = Vec::new();
    let mut i: usize = 0;
    while i < groups.len()
        invariant
            i <= groups.len(),
            copy@ == groups@.take(i as int),
        decreases groups.len() - i,
    {
        copy.push(groups[i].clone());
        i += 1;
    }
    copy
}

/// The groups other than the one with this id, in their order.
pub fn remove_group(groups: Vec<Group>, id: i64) -> (kept: Vec<Group>)
    ensures
        kept.deep_view() == without(groups.deep_view(), id),
{
    let ghost all = groups.deep_view();
    let ghost rows = groups@;
    let ghost pred = |group: GroupView| group.id != id;
    let mut kept: Vec<Group> = Vec::new();
    for group in iter: groups.into_iter()
        invariant
            iter.seq() == rows,
            rows.len() == all.len(),
            forall|i: int| 0 <= i < rows.len() ==> (#[trigger] rows[i])@ == all[i],
            pred == |group: GroupView| group.id != id,
            kept.deep_view() == all.take(iter.index() as int).filter(pred),
    {
        let ghost at = iter.index() as int;
        proof {
            lemma_filter_take_next(all, pred, at);
        }
        if group.id != id {
            kept.push(group);
        }
    }
    assert(all.take(all.len() as int) =~= all);
    kept
}

/// The groups whose name matches the search text, ignoring case, in their
/// order. The empty search text keeps them all.
pub fn matching_groups(groups: &Vec<Group>, query: &str) -> (kept: Vec<Group>)
    ensures
        kept.deep_view() == matching(groups.deep_view(), query@),
{
    let ghost full = groups.deep_view();
    let ghost pred = |group: GroupView| matches_query(group.display_name, query@);
    if query.is_empty() {
        let kept = clone_groups(groups);
        proof {
            lemma_filter_all(full, pred);
        }
        return kept;
    }
    let needle = chars_of(to_lowercase(query).as_str());
    let mut kept: Vec<Group> = Vec::new();
    let mut i: usize = 0;
    while i < groups.len()
        invariant
            i <= groups.len(),
            full == groups.deep_view(),
            pred == |group: GroupView| matches_query(group.display_name, query@),
            query@.len() != 0,
            needle@ == lowercase(query@),
            kept.deep_view() == full.take(i as int).filter(pred),
        decreases groups.len() - i,
    {
        let group = &groups[i];
        let lowered_name = to_lowercase(group.display_name.as_str());
        let matched = contains_chars(&chars_of(lowered_name.as_str()), &needle);
        proof {
            lemma_filter_take_next(full, pred, i as int);
        }
        if matched {
            kept.push(group.clone());
        }
        i += 1;
    }
    assert(full.take(groups.len() as int) =~= full);
    kept
}

/// The table of all groups.
pub struct GroupTable {
    task: AsyncTask,
    errors: ErrorSink,
    groups: Option<Vec<Group>>,
    search_query: String,
}

impl View for GroupTable {
    type V = TableView;

    closed spec fn view(&self) -> TableView {
        TableView {
            error: self.errors@,
            task: self.task@,
            groups: self.groups.deep_view(),
            search_query: self.search_query@,
        }
    }
}

impl GroupTable {
    /// A new table, and the request for the list of groups that it sends at
    /// once.
    pub fn create() -> (created: (Self, Vec<Effect>))
        ensures
            created.0@ == TableView::initial(),
            created.1.deep_view() == seq![EffectView::GetGroupList(1)],
    {
        let mut table = GroupTable {
            task: AsyncTask::new(),
            errors: ErrorSink::new(),
            groups: None,
            search_query: String::new(),
        };
        let effects = table.get_groups();
        (table, effects)
    }

    /// Starts fetching the list of groups.
    fn get_groups(&mut self) -> (effects: Vec<Effect>)
        requires
            old(self)@.can_start(),
        ensures
            final(self)@ == (TableView { task: old(self)@.task.started(), ..old(self)@ }),
            effects.deep_view() == seq![EffectView::GetGroupList(old(self)@.task.generation + 1)],
    {
        let handle = self.task.start();
        let mut effects: Vec<Effect> = Vec::new();
        effects.push(Effect::GetGroupList(handle, GetGroupList {  }));
        effects
    }

    /// Whether an operation is in flight.
    pub fn is_task_running(&self) -> (running: bool)
        ensures
            running == (self@.task.state is Running),
    {
        self.task.is_busy()
    }

    /// Whether one more operation can be started.
    pub fn can_start(&self) -> (room: bool)
        ensures
            room == self@.can_start(),
    {
        self.task.can_start()
    }

    /// Whether the table can take the message.
    pub fn takes(&self, msg: &Msg) -> (taken: bool)
        ensures
            taken == self@.takes(msg@),
    {
        match msg {
            Msg::OnGroupDeleted(_) => self.groups.is_some(),
            _ => true,
        }
    }

    /// The last failure, if any.
    pub fn error(&self) -> (last: &Option<TaskError>)
        ensures
            last.deep_view() == self@.error,
    {
        self.errors.last_error()
    }

    /// The groups, once they have arrived.
    pub fn groups(&self) -> (groups: &Option<Vec<Group>>)
        ensures
            groups.deep_view() == self@.groups,
    {
        &self.groups
    }

    /// The search text.
    pub fn search_query(&self) -> (query: &String)
        ensures
            query@ == self@.search_query,
    {
        &self.search_query
    }

    /// Handles a message; a failure is returned, to be surfaced by
    /// [`Self::update`]. See [`TableView::handled`].
    pub fn handle_msg(&mut self, msg: Msg) -> (result: Result<Handled, TaskError>)
        requires
            old(self)@.can_start(),
            old(self)@.takes(msg@),
        ensures
            final(self)@ == old(self)@.handled(msg@).state,
            match result {
                Ok(handled) => old(self)@.handled(msg@).result == Ok::<HandledView, ErrorView>(
                    handled@,
                ),
                Err(error) => old(self)@.handled(msg@).result == Err::<HandledView, ErrorView>(
                    error@,
                ),
            },
    {
        let mut effects: Vec<Effect> = Vec::new();
        assert(effects.deep_view() =~= Seq::<EffectView>::empty());
        match msg {
            Msg::ListGroupsResponse(handle, response) => {
                match self.task.complete(handle, response) {
                    None => Ok(Handled { should_render: false, effects }),
                    Some(Ok(groups)) => {
                        self.groups = Some(groups);
                        Ok(Handled { should_render: true, effects })
                    },
                    Some(Err(error)) => Err(error),
                }
            },
            Msg::OnError(error) => Err(error),
            Msg::OnGroupDeleted(id) => {
                let groups = self.groups.take().unwrap();
                self.groups = Some(remove_group(groups, id));
                Ok(Handled { should_render: true, effects })
            },
            Msg::OnSearchChange(query) => {
                self.search_query = query;
                Ok(Handled { should_render: false, effects })
            },
            Msg::SearchGroups => {
                let effects = self.get_groups();
                Ok(Handled { should_render: true, effects })
            },
        }
    }

    /// Handles a message and surfaces a failure: it is kept as the last
    /// error. See [`TableView::after`] and [`TableView::update`].
    pub fn update(&mut self, msg: Msg) -> (handled: Handled)
        requires
            old(self)@.can_start(),
            old(self)@.takes(msg@),
        ensures
            final(self)@ == old(self)@.after(msg@),
            handled@ == old(self)@.update(msg@),
    {
        match self.handle_msg(msg) {
            Ok(handled) => handled,
            Err(error) => {
                let _ = self.errors.surface(error);
                let effects: Vec<Effect> = Vec::new();
                assert(effects.deep_view() =~= Seq::<EffectView>::empty());
                Handled { should_render: true, effects }
            },
        }
    }

    /// The table goes away: whatever response arrives later is stale.
    pub fn destroy(&mut self)
        ensures
            final(self)@ == (TableView { task: old(self)@.task.torn_down(), ..old(self)@ }),
    {
        self.task.teardown();
    }

    /// The message for a key pressed in the search box: `Enter` starts the
    /// search, every other key empties the search text, which the input that
    /// follows sets anew.
    pub fn on_key_press(key: &str) -> (msg: Msg)
        ensures
            msg@ == if key@ == "Enter"@ {
                MsgView::SearchGroups
            } else {
                MsgView::OnSearchChange(Seq::<char>::empty())
            },
    {
        if key.to_owned() == "Enter".to_owned() {
            Msg::SearchGroups
        } else {
            Msg::OnSearchChange(String::new())
        }
    }

    /// The messages of the button that clears the search: the search text is
    /// emptied, then the list is fetched anew.
    pub fn on_clear() -> (msgs: Vec<Msg>)
        ensures
            msgs.deep_view() == seq![
                MsgView::OnSearchChange(Seq::<char>::empty()),
                MsgView::SearchGroups,
            ],
    {
        let mut msgs: Vec<Msg> = Vec::new();
        msgs.push(Msg::OnSearchChange(String::new()));
        msgs.push(Msg::SearchGroups);
        msgs
    }

    /// The search button is disabled while an operation is in flight.
    pub fn search_disabled(&self) -> (off: bool)
        ensures
            off == (self@.task.state is Running),
    {
        self.task.is_busy()
    }

    /// The button that clears the search shows while a search text is set.
    pub fn shows_clear(&self) -> (shown: bool)
        ensures
            shown == (self@.search_query.len() != 0),
    {
        !self.search_query.as_str().is_empty()
    }

    /// What is on display below the search box. See
    /// [`TableView::rendering`].
    pub fn view_groups(&self) -> (shown: Rendering)
        ensures
            shown@ == self@.rendering(),
    {
        match &self.groups {
            None => Rendering::Loading,
            Some(groups) => {
                let filtered_groups = matching_groups(groups, self.search_query.as_str());
                if filtered_groups.len() == 0 && !self.search_query.as_str().is_empty() {
                    Rendering::NoMatches
                } else {
                    Rendering::Table(filtered_groups)
                }
            },
        }
    }

    /// The line that shows the last failure, if there is one.
    pub fn view_errors(&self) -> (line: Option<String>)
        ensures
            line.deep_view() == self@.error_line(),
    {
        match self.errors.last_error() {
            None => None,
            Some(error) => Some("Error: ".to_owned().concat(error.message().as_str())),
        }
    }
}

/// After a group was deleted no row has its id, and the other rows stay, in
/// their order.
pub proof fn lemma_deleted_group_leaves(groups: Seq<GroupView>, id: i64)
    ensures
        is_subsequence(without(groups, id), groups),
        forall|i: int| 0 <= i < without(groups, id).len() ==> (#[trigger] without(groups, id)[i]).id != id,
        forall|i: int|
            0 <= i < groups.len() && groups[i].id != id ==> without(groups, id).contains(
                #[trigger] groups[i],
            ),
{
    let pred = |group: GroupView| group.id != id;
    lemma_filter_is_subsequence(groups, pred);
}

/// The rows on display are rows of the list, in their order, and each name
/// matches the search text; the empty search text shows the whole list.
pub proof fn lemma_rows_match_search(groups: Seq<GroupView>, query: Seq<char>)
    ensures
        is_subsequence(matching(groups, query), groups),
        forall|i: int|
            0 <= i < matching(groups, query).len() ==> matches_query(
                (#[trigger] matching(groups, query)[i]).display_name,
                query,
            ),
        forall|i: int|
            0 <= i < groups.len() && matches_query(groups[i].display_name, query) ==> matching(
                groups,
                query,
            ).contains(#[trigger] groups[i]),
        query.len() == 0 ==> matching(groups, query) == groups,
{
    let pred = |group: GroupView| matches_query(group.display_name, query);
    lemma_filter_is_subsequence(groups, pred);
    if query.len() == 0 {
        lemma_filter_all(groups, pred);
    }
}

/// A search supersedes the request that was in flight: the answer to the new
/// request is taken, and an answer to the old one is discarded, with the state
/// as it is and nothing drawn anew.
pub proof fn lemma_search_supersedes(
    state: TableView,
    old_handle: nat,
    response: Result<Seq<GroupView>, ErrorView>,
)
    requires
        old_handle <= state.task.generation,
    ensures
        ({
            let searching = state.after(MsgView::SearchGroups);
            &&& searching.task.accepts(state.task.generation + 1)
            &&& searching.after(MsgView::ListGroupsResponse(old_handle, response)) == searching
            &&& searching.update(MsgView::ListGroupsResponse(old_handle, response)) == (HandledView {
                should_render: false,
                effects: Seq::empty(),
            })
        }),
{
}

/// A failure is kept as the table's last error, whichever message brought it.
pub proof fn lemma_failure_is_kept(state: TableView, msg: MsgView)
    ensures
        state.handled(msg).result matches Err(error) ==> state.after(msg).error == Some(error)
            && state.update(msg).should_render,
        msg matches MsgView::OnError(error) ==> state.after(msg) == (TableView {
            error: Some(error),
            ..state
        }),
{
}

} // verus!
