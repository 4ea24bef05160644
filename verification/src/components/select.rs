//! Pickers: the plain drop-down, and the searchable list with a live text
//! filter and a selection that outlives the filter.
use crate::seqs::{
    is_subsequence, lemma_filter_all, lemma_filter_is_subsequence, lemma_filter_take_next, lemma_filter_twice,
};
use crate::text::{
    chars_of, contains_chars, contains_text, lowercase, matches_query, to_lowercase,
};
use vstd::hash_set::StringHashSet;
use vstd::prelude::*;

verus! {

/// One entry that a picker offers: the value that identifies it and the text
/// that is shown and searched.
#[derive(Debug, PartialEq, Eq)]
pub struct SelectOptionProps {
    pub value: String,
    pub text: String,
}

/// What an option is to the contracts: its value and its text, as texts.
pub struct OptionView {
    pub value: Seq<char>,
    pub text: Seq<char>,
}

impl View for SelectOptionProps {
    type V = OptionView;

    open spec fn view(&self) -> OptionView {
        OptionView { value: self.value@, text: self.text@ }
    }
}

impl DeepView for SelectOptionProps {
    type V = OptionView;

    open spec fn deep_view(&self) -> OptionView {
        self@
    }
}

impl Clone for SelectOptionProps {
    fn clone(&self) -> (copy: Self)
        ensures
            copy == *self,
    {
        SelectOptionProps { value: self.value.clone(), text: self.text.clone() }
    }
}

/// The options of `full` whose text matches `query`, in their order.
pub open spec fn filtered(full: Seq<OptionView>, query: Seq<char>) -> Seq<OptionView> {
    full.filter(|option: OptionView| matches_query(option.text, query))
}

/// The options of `full` whose value is in `selected`, in the order of `full`.
pub open spec fn chosen(full: Seq<OptionView>, selected: Set<Seq<char>>) -> Seq<OptionView> {
    full.filter(|option: OptionView| selected.contains(option.value))
}

/// A copy of a list of options.
pub fn clone_options(options: &Vec<SelectOptionProps>) -> (copy: Vec<SelectOptionProps>)
    ensures
        copy@ == options@,
{
    let mut copy: Vec<SelectOptionProps> = Vec::new();
    let mut i: usize = 0;
    while i < options.len()
        invariant
            i <= options.len(),
            copy@ == options@.take(i as int),
        decreases options.len() - i,
    {
        copy.push(options[i].clone());
        i += 1;
    }
    copy
}

/// The options whose text matches `query`, ignoring case, in their order. The
/// empty query keeps them all.
pub fn filter_options(options: &Vec<SelectOptionProps>, query: &str) -> (kept: Vec<
    SelectOptionProps,
>)
    ensures
        kept.deep_view() == filtered(options.deep_view(), query@),
{
    let ghost full = options.deep_view();
    let ghost pred = |option: OptionView| matches_query(option.text, query@);
    if query.is_empty() {
        let kept = clone_options(options);
        proof {
            lemma_filter_all(full, pred);
        }
        return kept;
    }
    let needle = chars_of(to_lowercase(query).as_str());
    let mut kept: Vec<SelectOptionProps> = Vec::new();
    let mut i: usize = 0;
    while i < options.len()
        invariant
            i <= options.len(),
            full == options.deep_view(),
            pred == |option: OptionView| matches_query(option.text, query@),
            query@.len() != 0,
            needle@ == lowercase(query@),
            kept.deep_view() == full.take(i as int).filter(pred),
        decreases options.len() - i,
    {
        let option = &options[i];
        let lowered_text = to_lowercase(option.text.as_str());
        let matched = contains_chars(&chars_of(lowered_text.as_str()), &needle);
        proof {
            lemma_filter_take_next(full, pred, i as int);
        }
        if matched {
            kept.push(option.clone());
        }
        i += 1;
    }
    assert(full.take(options.len() as int) =~= full);
    kept
}

/// The properties of the plain drop-down: the options it offers, in order.
pub struct SelectProps {
    pub children: Vec<SelectOptionProps>,
    pub searchable: bool,
    pub multiple: bool,
}

impl SelectProps {
    /// Properties with the given options; neither searchable nor multiple.
    pub fn new(children: Vec<SelectOptionProps>) -> (props: Self)
        ensures
            props.children == children,
            !props.searchable,
            !props.multiple,
    {
        SelectProps { children, searchable: false, multiple: false }
    }
}

/// The one message of the plain drop-down: the chosen entry changed.
#[derive(Debug, PartialEq, Eq, Clone, Copy)]
pub enum SelectMsg {
    OnSelectChange,
}

/// The plain drop-down. It keeps no state of its own: what is chosen lives in
/// the page, and is handed in as the index of the chosen entry.
pub struct Select {}

/// The option at position `nth`, where there is one.
pub open spec fn nth_option(children: Seq<OptionView>, nth: int) -> Option<OptionView> {
    if 0 <= nth < children.len() {
        Some(children[nth])
    } else {
        None
    }
}

impl Select {
    /// A drop-down.
    pub fn create() -> Self {
        Select {  }
    }

    /// The option at position `nth`; none for `-1`, which stands for "nothing
    /// chosen", and none for any other position that holds no option.
    pub fn get_nth_child_props(&self, props: &SelectProps, nth: i32) -> (found: Option<
        SelectOptionProps,
    >)
        ensures
            found.deep_view() == nth_option(props.children.deep_view(), nth as int),
    {
        if nth < 0 {
            return None;
        }
        let index: usize = nth as usize;
        if index < props.children.len() {
            Some(props.children[index].clone())
        } else {
            None
        }
    }

    /// What is reported to the owner when the entry at `selected_index` is the
    /// chosen one: that entry, or none.
    pub fn send_selection_update(&self, props: &SelectProps, selected_index: i32) -> (emitted:
        Option<SelectOptionProps>)
        ensures
            emitted.deep_view() == nth_option(props.children.deep_view(), selected_index as int),
    {
        self.get_nth_child_props(props, selected_index)
    }

    /// After each rendering the chosen entry is reported anew.
    pub fn rendered(&mut self, props: &SelectProps, selected_index: i32) -> (emitted: Option<
        SelectOptionProps,
    >)
        ensures
            emitted.deep_view() == nth_option(props.children.deep_view(), selected_index as int),
    {
        self.send_selection_update(props, selected_index)
    }

    /// Handles a message: reports the chosen entry, and asks for no new
    /// rendering (the first component of the result).
    pub fn update(&mut self, props: &SelectProps, selected_index: i32, msg: SelectMsg) -> (result: (
        bool,
        Option<SelectOptionProps>,
    ))
        ensures
            !result.0,
            result.1.deep_view() == nth_option(props.children.deep_view(), selected_index as int),
    {
        (false, self.send_selection_update(props, selected_index))
    }

    /// The drop-down is disabled while it has nothing to offer.
    pub fn disabled(props: &SelectProps) -> (off: bool)
        ensures
            off == (props.children@.len() == 0),
    {
        props.children.len() == 0
    }
}

/// The properties of the searchable picker.
pub struct SearchableSelectProps {
    pub options: Vec<SelectOptionProps>,
    pub multiple: bool,
    pub placeholder: String,
}

impl SearchableSelectProps {
    /// Properties with the given options, for choosing a single one, with the
    /// placeholder "Search...".
    pub fn new(options: Vec<SelectOptionProps>) -> (props: Self)
        ensures
            props.options == options,
            !props.multiple,
            props.placeholder@ == "Search..."@,
    {
        SearchableSelectProps {
            options,
            multiple: false,
            placeholder: "Search...".to_owned(),
        }
    }
}

/// The messages of the searchable picker.
#[derive(Debug, PartialEq, Eq)]
pub enum SearchableSelectMsg {
    /// The search box now holds this text.
    OnSearchChange(String),
    /// The option was clicked, to be turned on (`true`) or off (`false`).
    OnOptionSelect(SelectOptionProps, bool),
    /// The selection is confirmed.
    OnSubmit,
}

/// A message of the searchable picker, over texts.
pub enum PickerEvent {
    SearchChanged(Seq<char>),
    OptionSelected(OptionView, bool),
    Submitted,
}

impl View for SearchableSelectMsg {
    type V = PickerEvent;

    open spec fn view(&self) -> PickerEvent {
        match self {
            SearchableSelectMsg::OnSearchChange(query) => PickerEvent::SearchChanged(query@),
            SearchableSelectMsg::OnOptionSelect(option, selected) => PickerEvent::OptionSelected(
                option@,
                *selected,
            ),
            SearchableSelectMsg::OnSubmit => PickerEvent::Submitted,
        }
    }
}

/// The state of a searchable picker: what it offers, whether several options
/// may be chosen, the search text, and the values that are chosen. What is
/// visible is no part of it: it follows from the options and the search text.
pub struct PickerView {
    pub options: Seq<OptionView>,
    pub multiple: bool,
    pub placeholder: Seq<char>,
    pub query: Seq<char>,
    pub selected: Set<Seq<char>>,
}

impl PickerView {
    /// The options on display.
    pub open spec fn visible(self) -> Seq<OptionView> {
        filtered(self.options, self.query)
    }

    /// The state after `event`.
    pub open spec fn after(self, event: PickerEvent) -> PickerView {
        match event {
            PickerEvent::SearchChanged(query) => PickerView { query, ..self },
            PickerEvent::OptionSelected(option, turn_on) => {
                let kept = if self.multiple {
                    self.selected
                } else {
                    Set::<Seq<char>>::empty()
                };
                PickerView {
                    selected: if turn_on {
                        kept.insert(option.value)
                    } else {
                        kept.remove(option.value)
                    },
                    ..self
                }
            },
            PickerEvent::Submitted => self,
        }
    }

    /// What `event` makes the picker report to its owner, if anything: with a
    /// single choice each click reports the option that was turned on, or
    /// nothing chosen; with several, confirming a selection that is not empty
    /// reports the chosen options in the order in which they are offered.
    pub open spec fn emitted(self, event: PickerEvent) -> Option<Seq<OptionView>> {
        match event {
            PickerEvent::SearchChanged(_) => None,
            PickerEvent::OptionSelected(option, turn_on) => if self.multiple {
                None
            } else if turn_on {
                Some(seq![option])
            } else {
                Some(Seq::<OptionView>::empty())
            },
            PickerEvent::Submitted => if self.multiple && !self.selected.is_empty() {
                Some(chosen(self.options, self.selected))
            } else {
                None
            },
        }
    }

    /// The click on `option` as an event: it turns the option on where it is
    /// off, and off where it is on.
    pub open spec fn toggle_event(self, option: OptionView) -> PickerEvent {
        PickerEvent::OptionSelected(option, !self.selected.contains(option.value))
    }
}

/// What a message did: whether the picker has to be drawn anew, and what it
/// reports to its owner, if anything.
pub struct SelectionUpdate {
    pub should_render: bool,
    pub emitted: Option<Vec<SelectOptionProps>>,
}

/// A search: its text, and the options that it leaves on display. The two
/// change together.
struct Search {
    query: String,
    filtered_set: Vec<SelectOptionProps>,
}

/// The options of a picker under a search: all of them, the search text, and
/// those on display, which are at every moment what the search text leaves of
/// all of them.
pub struct FilterState {
    full_set: Vec<SelectOptionProps>,
    search: Search,
}

/// What a filter is to the contracts: the options and the search text. What
/// is on display follows from them.
pub struct FilterView {
    pub full_set: Seq<OptionView>,
    pub query: Seq<char>,
}

impl FilterView {
    /// The options on display.
    pub open spec fn filtered_set(self) -> Seq<OptionView> {
        filtered(self.full_set, self.query)
    }
}

impl View for FilterState {
    type V = FilterView;

    closed spec fn view(&self) -> FilterView {
        FilterView { full_set: self.full_set.deep_view(), query: self.search.query@ }
    }
}

impl FilterState {
    #[verifier::type_invariant]
    closed spec fn shows_what_matches(self) -> bool {
        self.search.filtered_set.deep_view() == self@.filtered_set()
    }

    /// A filter over `full_set` with the empty search text: everything is on
    /// display.
    pub fn new(full_set: Vec<SelectOptionProps>) -> (filter: Self)
        ensures
            filter@ == (FilterView {
                full_set: full_set.deep_view(),
                query: Seq::<char>::empty(),
            }),
    {
        let filtered_set = clone_options(&full_set);
        proof {
            lemma_filter_all(
                full_set.deep_view(),
                |option: OptionView| matches_query(option.text, Seq::<char>::empty()),
            );
        }
        FilterState { full_set, search: Search { query: String::new(), filtered_set } }
    }

    /// All the options, in the order in which they are offered.
    pub fn full_set(&self) -> (all: &Vec<SelectOptionProps>)
        ensures
            all.deep_view() == self@.full_set,
    {
        &self.full_set
    }

    /// The search text.
    pub fn query(&self) -> (text: &String)
        ensures
            text@ == self@.query,
    {
        &self.search.query
    }

    /// The options on display, in the order in which they are offered.
    pub fn filtered_set(&self) -> (shown: &Vec<SelectOptionProps>)
        ensures
            shown.deep_view() == self@.filtered_set(),
    {
        proof {
            use_type_invariant(self);
        }
        &self.search.filtered_set
    }

    /// Sets the search text, and with it what is on display.
    pub fn set_query(&mut self, query: String)
        ensures
            final(self)@ == (FilterView { query: query@, ..old(self)@ }),
    {
        let filtered_set = filter_options(&self.full_set, query.as_str());
        self.search = Search { query, filtered_set };
    }
}

/// The searchable picker.
pub struct SearchableSelect {
    filter: FilterState,
    multiple: bool,
    placeholder: String,
    selected_options: StringHashSet,
}

impl View for SearchableSelect {
    type V = PickerView;

    closed spec fn view(&self) -> PickerView {
        PickerView {
            options: self.filter@.full_set,
            multiple: self.multiple,
            placeholder: self.placeholder@,
            query: self.filter@.query,
            selected: self.selected_options@,
        }
    }
}

impl SearchableSelect {
    /// A picker for `props`: everything is on display, nothing is chosen.
    pub fn create(props: SearchableSelectProps) -> (picker: Self)
        ensures
            picker@ == (PickerView {
                options: props.options.deep_view(),
                multiple: props.multiple,
                placeholder: props.placeholder@,
                query: Seq::<char>::empty(),
                selected: Set::<Seq<char>>::empty(),
            }),
    {
        SearchableSelect {
            filter: FilterState::new(props.options),
            multiple: props.multiple,
            placeholder: props.placeholder,
            selected_options: StringHashSet::new(),
        }
    }

    /// The options on display, in the order in which they are offered.
    pub fn filtered_options(&self) -> (shown: &Vec<SelectOptionProps>)
        ensures
            shown.deep_view() == self@.visible(),
    {
        self.filter.filtered_set()
    }

    /// Whether the option with this value is chosen.
    pub fn is_selected(&self, value: &str) -> (on: bool)
        ensures
            on == self@.selected.contains(value@),
    {
        self.selected_options.contains(value)
    }

    /// Whether several options may be chosen.
    pub fn multiple(&self) -> (several: bool)
        ensures
            several == self@.multiple,
    {
        self.multiple
    }

    /// The text shown in the empty search box.
    pub fn placeholder(&self) -> (text: &String)
        ensures
            text@ == self@.placeholder,
    {
        &self.placeholder
    }

    /// The search text.
    pub fn query(&self) -> (text: &String)
        ensures
            text@ == self@.query,
    {
        self.filter.query()
    }

    /// The button that confirms the selection is disabled while nothing is
    /// chosen.
    pub fn submit_disabled(&self) -> (off: bool)
        ensures
            off == self@.selected.is_empty(),
    {
        self.selected_options.is_empty()
    }

    /// The chosen options, in the order in which they are offered.
    pub fn selection(&self) -> (picked: Vec<SelectOptionProps>)
        ensures
            picked.deep_view() == chosen(self@.options, self@.selected),
    {
        let options = self.filter.full_set();
        let ghost full = options.deep_view();
        let ghost selected = self.selected_options@;
        let ghost pred = |option: OptionView| selected.contains(option.value);
        let mut picked: Vec<SelectOptionProps> = Vec::new();
        let mut i: usize = 0;
        while i < options.len()
            invariant
                i <= options.len(),
                full == options.deep_view(),
                selected == self.selected_options@,
                pred == |option: OptionView| selected.contains(option.value),
                picked.deep_view() == full.take(i as int).filter(pred),
            decreases options.len() - i,
        {
            let option = &options[i];
            proof {
                lemma_filter_take_next(full, pred, i as int);
            }
            if self.selected_options.contains(option.value.as_str()) {
                picked.push(option.clone());
            }
            i += 1;
        }
        assert(full.take(options.len() as int) =~= full);
        picked
    }

    /// The message that a click on `option` sends: it turns the option on
    /// where it is off, and off where it is on.
    pub fn toggle_msg(&self, option: SelectOptionProps) -> (msg: SearchableSelectMsg)
        ensures
            msg@ == self@.toggle_event(option@),
    {
        let turn_on = !self.selected_options.contains(option.value.as_str());
        SearchableSelectMsg::OnOptionSelect(option, turn_on)
    }

    /// Handles a message. The picker is drawn anew after every message.
    pub fn update(&mut self, msg: SearchableSelectMsg) -> (result: SelectionUpdate)
        ensures
            final(self)@ == old(self)@.after(msg@),
            result.should_render,
            result.emitted.deep_view() == old(self)@.emitted(msg@),
    {
        match msg {
            SearchableSelectMsg::OnSearchChange(query) => {
                self.filter.set_query(query);
                SelectionUpdate { should_render: true, emitted: None }
            },
            SearchableSelectMsg::OnOptionSelect(option, turn_on) => {
                if self.multiple {
                    if turn_on {
                        self.selected_options.insert(option.value.clone());
                    } else {
                        self.selected_options.remove(option.value.as_str());
                    }
                    SelectionUpdate { should_render: true, emitted: None }
                } else {
                    self.selected_options.clear();
                    let mut picked: Vec<SelectOptionProps> = Vec::new();
                    if turn_on {
                        self.selected_options.insert(option.value.clone());
                        picked.push(option);
                    } else {
                        assert(self.selected_options@ =~= Set::<Seq<char>>::empty().remove(
                            option.value@,
                        ));
                    }
                    SelectionUpdate { should_render: true, emitted: Some(picked) }
                }
            },
            SearchableSelectMsg::OnSubmit => {
                if self.multiple && !self.selected_options.is_empty() {
                    let picked = self.selection();
                    SelectionUpdate { should_render: true, emitted: Some(picked) }
                } else {
                    SelectionUpdate { should_render: true, emitted: None }
                }
            },
        }
    }

    /// Sets the search text; what is chosen stays chosen.
    pub fn set_query(&mut self, query: String)
        ensures
            final(self)@ == (PickerView { query: query@, ..old(self)@ }),
    {
        let _ = self.update(SearchableSelectMsg::OnSearchChange(query));
    }

    /// A click on `option`. With several choices it joins or leaves the
    /// selection and nothing is reported; with a single choice the selection
    /// becomes that option alone, or empty where the option was chosen before,
    /// and is reported at once.
    pub fn toggle(&mut self, option: SelectOptionProps) -> (emitted: Option<Vec<SelectOptionProps>>)
        ensures
            final(self)@ == old(self)@.after(old(self)@.toggle_event(option@)),
            emitted.deep_view() == old(self)@.emitted(old(self)@.toggle_event(option@)),
    {
        let msg = self.toggle_msg(option);
        self.update(msg).emitted
    }

    /// Confirms the selection: with several choices and a selection that is
    /// not empty, reports the chosen options in the order in which they are
    /// offered; reports nothing otherwise. The selection stays as it is.
    pub fn submit(&mut self) -> (emitted: Option<Vec<SelectOptionProps>>)
        ensures
            final(self)@ == old(self)@,
            emitted.deep_view() == old(self)@.emitted(PickerEvent::Submitted),
    {
        self.update(SearchableSelectMsg::OnSubmit).emitted
    }
}

/// The empty search text leaves every option on display.
pub proof fn lemma_empty_query_keeps_all(full: Seq<OptionView>)
    ensures
        filtered(full, Seq::<char>::empty()) == full,
{
    lemma_filter_all(
        full,
        |option: OptionView| matches_query(option.text, Seq::<char>::empty()),
    );
}

/// What a search leaves on display is part of what is offered, in the same
/// order; each text left matches the search text, which for a search text that
/// is not empty means that its lowercase form contains that of the search
/// text; and each option whose text matches is left.
pub proof fn lemma_filtered_sound(full: Seq<OptionView>, query: Seq<char>)
    ensures
        is_subsequence(filtered(full, query), full),
        forall|i: int|
            0 <= i < filtered(full, query).len() ==> {
                &&& full.contains(#[trigger] filtered(full, query)[i])
                &&& matches_query(filtered(full, query)[i].text, query)
                &&& query.len() > 0 ==> contains_text(
                    lowercase(filtered(full, query)[i].text),
                    lowercase(query),
                )
            },
        forall|i: int|
            0 <= i < full.len() && matches_query(full[i].text, query) ==> filtered(
                full,
                query,
            ).contains(#[trigger] full[i]),
{
    let pred = |option: OptionView| matches_query(option.text, query);
    lemma_filter_is_subsequence(full, pred);
}

/// Searching in what a search left, for the same text, leaves the same.
pub proof fn lemma_filtered_idempotent(full: Seq<OptionView>, query: Seq<char>)
    ensures
        filtered(filtered(full, query), query) == filtered(full, query),
{
    lemma_filter_twice(full, |option: OptionView| matches_query(option.text, query));
}

/// The options reported for a selection are part of what is offered, in the
/// order in which they are offered, whatever the order of the clicks; each has
/// its value in the selection, and each option with its value in the selection
/// is among them.
pub proof fn lemma_chosen_sound(full: Seq<OptionView>, selected: Set<Seq<char>>)
    ensures
        is_subsequence(chosen(full, selected), full),
        forall|i: int|
            0 <= i < chosen(full, selected).len() ==> {
                &&& full.contains(#[trigger] chosen(full, selected)[i])
                &&& selected.contains(chosen(full, selected)[i].value)
            },
        forall|i: int|
            0 <= i < full.len() && selected.contains(full[i].value) ==> chosen(
                full,
                selected,
            ).contains(#[trigger] full[i]),
{
    let pred = |option: OptionView| selected.contains(option.value);
    lemma_filter_is_subsequence(full, pred);
}

/// A search changes neither what is chosen nor what is offered, and reports
/// nothing: an option that the search hides stays chosen.
pub proof fn lemma_search_keeps_selection(state: PickerView, query: Seq<char>)
    ensures
        state.after(PickerEvent::SearchChanged(query)).selected == state.selected,
        state.after(PickerEvent::SearchChanged(query)).options == state.options,
        state.emitted(PickerEvent::SearchChanged(query)) is None,
{
}

/// Where several options may be chosen, two clicks on the same option leave
/// the picker as it was, and report nothing.
pub proof fn lemma_toggle_twice(state: PickerView, option: OptionView)
    requires
        state.multiple,
    ensures
        ({
            let once = state.after(state.toggle_event(option));
            &&& once.after(once.toggle_event(option)) == state
            &&& state.emitted(state.toggle_event(option)) is None
            &&& once.emitted(once.toggle_event(option)) is None
        }),
{
    let once = state.after(state.toggle_event(option));
    let twice = once.after(once.toggle_event(option));
    assert(twice.selected =~= state.selected);
}

/// Where a single option may be chosen, turning on `a` and then `b` reports
/// `[a]` and then `[b]`, one report for each click, and leaves `b` alone
/// chosen.
pub proof fn lemma_single_choice_replaces(state: PickerView, a: OptionView, b: OptionView)
    requires
        !state.multiple,
    ensures
        ({
            let first = PickerEvent::OptionSelected(a, true);
            let second = PickerEvent::OptionSelected(b, true);
            let between = state.after(first);
            &&& state.emitted(first) == Some(seq![a])
            &&& between.selected == set![a.value]
            &&& between.emitted(second) == Some(seq![b])
            &&& between.after(second).selected == set![b.value]
        }),
{
}

/// Where a single option may be chosen, a click on the chosen option turns it
/// off: nothing is chosen, and the empty selection is reported.
pub proof fn lemma_single_choice_turns_off(state: PickerView, option: OptionView)
    requires
        !state.multiple,
        state.selected.contains(option.value),
    ensures
        state.after(state.toggle_event(option)).selected == Set::<Seq<char>>::empty(),
        state.emitted(state.toggle_event(option)) == Some(Seq::<OptionView>::empty()),
{
}

} // verus!
