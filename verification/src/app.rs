//! The application state and the transitions that key presses cause.
//!
//! The state is one value, updated in place by one transition for each key
//! press. What a transition asks of the outside world it hands back as an
//! `Effect`; the intents to quit and to launch are flags that the driver of
//! the loop reads once the loop has ended.

use vstd::prelude::*;
use crate::cursor::advance;
use crate::cursor::advanced;
use crate::cursor::cursor_fits;
use crate::cursor::first;
use crate::cursor::first_or_none;
use crate::cursor::retreat;
use crate::cursor::retreated;
use crate::cursor::revalidate;
use crate::cursor::revalidated;
use crate::filter::filter_instances;
use crate::filter::lemma_empty_query_shows_all;
use crate::filter::visible;
use crate::instance::Instance;
use crate::sort::is_stable_sort;
use crate::sort::rearranges;
use crate::sort::sort_instances;
use crate::sort::sorted_from;
use crate::sort_mode::SortMode;
use crate::text::pop_char;
use crate::text::push_char;

verus! {

/// A key press, as far as the transitions tell keys apart.
#[derive(Debug, Clone, Copy, PartialEq, Eq, Structural)]
pub enum Key {
    /// A printable character.
    Char(char),
    Enter,
    Esc,
    Backspace,
    Up,
    Down,
    /// Any other key.
    Other,
}

/// What a transition asks the driver of the loop to do.
#[derive(Debug)]
pub enum Effect {
    /// Nothing.
    Nothing,
    /// Open the directory at this path with the system's file browser.
    OpenFolder(String),
}

/// The application state.
pub struct App {
    instances: Vec<Instance>,
    filtered_instances: Vec<Instance>,
    selected: Option<usize>,
    should_quit: bool,
    should_launch: bool,
    sort_mode: SortMode,
    search_mode: bool,
    search_query: String,
    details_mode: bool,
}

/// The application state as plain values.
pub struct AppView {
    /// The full collection, in the order of the last sort.
    pub instances: Seq<Instance>,
    /// The visible subset.
    pub filtered: Seq<Instance>,
    /// The cursor into the visible subset.
    pub selected: Option<usize>,
    /// The intent to leave the interactive loop.
    pub should_quit: bool,
    /// The intent to launch the selected instance after the loop.
    pub should_launch: bool,
    pub sort_mode: SortMode,
    /// Whether key presses edit the search query.
    pub search_mode: bool,
    pub search_query: Seq<char>,
    /// Whether the detail panel is shown.
    pub details_mode: bool,
}

impl AppView {
    /// The state's invariant: the visible subset is that of the full
    /// collection under the query, and the cursor fits it.
    pub open spec fn wf(self) -> bool {
        &&& self.filtered == visible(self.instances, self.search_query)
        &&& cursor_fits(self.selected, self.filtered.len())
    }

    /// The selected instance, if there is one.
    pub open spec fn selected_instance(self) -> Option<Instance> {
        match self.selected {
            Some(i) if i < self.filtered.len() => Some(self.filtered[i as int]),
            _ => None,
        }
    }

    /// The state at startup, with `instances` as the full collection.
    pub open spec fn initial(instances: Seq<Instance>) -> AppView {
        AppView {
            instances: instances,
            filtered: instances,
            selected: first_or_none(instances.len()),
            should_quit: false,
            should_launch: false,
            sort_mode: SortMode::Name,
            search_mode: false,
            search_query: Seq::empty(),
            details_mode: false,
        }
    }

    /// The state with the visible subset computed afresh and the cursor
    /// brought back into it.
    pub open spec fn refreshed(self) -> AppView {
        let filtered = visible(self.instances, self.search_query);
        AppView { filtered: filtered, selected: revalidated(self.selected, filtered.len()), ..self }
    }

    /// The state after a step down the list.
    pub open spec fn after_next(self) -> AppView {
        AppView { selected: advanced(self.selected, self.filtered.len()), ..self }
    }

    /// The state after a step up the list.
    pub open spec fn after_previous(self) -> AppView {
        AppView { selected: retreated(self.selected, self.filtered.len()), ..self }
    }

    /// The state after search mode is entered: the query starts empty.
    pub open spec fn after_enter_search(self) -> AppView {
        AppView { search_mode: true, search_query: Seq::empty(), ..self }.refreshed()
    }

    /// The state after search mode is left: the query is dropped.
    pub open spec fn after_exit_search(self) -> AppView {
        AppView { search_mode: false, search_query: Seq::empty(), ..self }.refreshed()
    }

    /// The state after `c` is typed into the query.
    pub open spec fn after_typing(self, c: char) -> AppView {
        AppView { search_query: self.search_query.push(c), ..self }.refreshed()
    }

    /// The state after the last character of the query is deleted; an empty
    /// query stays empty.
    pub open spec fn after_backspace(self) -> AppView {
        let query = if self.search_query.len() > 0 {
            self.search_query.drop_last()
        } else {
            self.search_query
        };
        AppView { search_query: query, ..self }.refreshed()
    }

    /// The state with the detail panel switched.
    pub open spec fn after_toggle_details(self) -> AppView {
        AppView { details_mode: !self.details_mode, ..self }
    }

    /// The state with the intent to quit.
    pub open spec fn with_quit(self) -> AppView {
        AppView { should_quit: true, ..self }
    }

    /// The state with the intents to quit and to launch.
    pub open spec fn with_launch(self) -> AppView {
        AppView { should_quit: true, should_launch: true, ..self }
    }

    /// Whether `next` is a state that a change to the following sort mode
    /// leads to from `self`: the full collection is sorted by the new mode,
    /// the visible subset is computed from it, and the cursor is on the
    /// first visible item.
    pub open spec fn sort_cycled(self, next: AppView) -> bool {
        &&& next.sort_mode == self.sort_mode.successor()
        &&& sorted_from(next.sort_mode, self.instances, next.instances)
        &&& next.filtered == visible(next.instances, self.search_query)
        &&& next.selected == first_or_none(next.filtered.len())
        &&& next.should_quit == self.should_quit
        &&& next.should_launch == self.should_launch
        &&& next.search_mode == self.search_mode
        &&& next.search_query == self.search_query
        &&& next.details_mode == self.details_mode
    }

    /// The effect of asking for the selected instance's directory.
    pub open spec fn open_folder_effect(self) -> Effect {
        match self.selected_instance() {
            Some(inst) => Effect::OpenFolder(inst.path),
            None => Effect::Nothing,
        }
    }

    /// Whether the key press `key` may lead from `self` to `next` with the
    /// effect `effect`.
    ///
    /// In search mode every printable character is text for the query, so
    /// the commands bound to characters are not to be had there. Escape
    /// leaves search mode, Enter leaves it and then asks for the launch.
    /// Outside search mode `q` and Escape quit, `j` and `k` move like the
    /// arrow keys, `o` asks for the selected directory to be opened, `s`
    /// changes the sort mode, `/` enters search mode and `i` switches the
    /// detail panel. A key without a meaning changes nothing.
    pub open spec fn steps(self, key: Key, next: AppView, effect: Effect) -> bool {
        if self.search_mode {
            &&& effect == Effect::Nothing
            &&& next == match key {
                Key::Esc => self.after_exit_search(),
                Key::Char(c) => self.after_typing(c),
                Key::Backspace => self.after_backspace(),
                Key::Enter => self.after_exit_search().with_launch(),
                Key::Down => self.after_next(),
                Key::Up => self.after_previous(),
                Key::Other => self,
            }
        } else if key == Key::Char('s') {
            effect == Effect::Nothing && self.sort_cycled(next)
        } else if key == Key::Char('o') {
            effect == self.open_folder_effect() && next == self
        } else {
            &&& effect == Effect::Nothing
            &&& next == match key {
                Key::Esc => self.with_quit(),
                Key::Enter => self.with_launch(),
                Key::Down => self.after_next(),
                Key::Up => self.after_previous(),
                Key::Char(c) => if c == 'q' {
                    self.with_quit()
                } else if c == 'j' {
                    self.after_next()
                } else if c == 'k' {
                    self.after_previous()
                } else if c == '/' {
                    self.after_enter_search()
                } else if c == 'i' {
                    self.after_toggle_details()
                } else {
                    self
                },
                _ => self,
            }
        }
    }
}

/// Computing the visible subset afresh is idempotent: with the same full
/// collection and the same query a second computation gives what the first
/// gave, cursor included, and a state that satisfies the invariant is not
/// changed at all.
pub proof fn lemma_refresh_is_idempotent(state: AppView)
    ensures
        state.refreshed().refreshed() == state.refreshed(),
        state.refreshed().wf(),
        state.wf() ==> state.refreshed() == state,
{
}

/// No key press takes back an intent to quit or to launch.
pub proof fn lemma_intents_stay_set(state: AppView, key: Key, next: AppView, effect: Effect)
    requires
        state.steps(key, next, effect),
    ensures
        state.should_quit ==> next.should_quit,
        state.should_launch ==> next.should_launch,
{
}

/// No key press adds an instance to the full collection or takes one away:
/// the collection after the key press is a rearrangement of the one before.
pub proof fn lemma_steps_keep_collection(state: AppView, key: Key, next: AppView, effect: Effect)
    requires
        state.steps(key, next, effect),
    ensures
        exists|origin: Seq<int>| rearranges(state.instances, next.instances, origin),
{
    if !state.search_mode && key == Key::Char('s') {
        let origin = choose|origin: Seq<int>|
            is_stable_sort(next.sort_mode, state.instances, next.instances, origin);
        assert(rearranges(state.instances, next.instances, origin));
    } else {
        let origin = Seq::new(state.instances.len(), |i: int| i);
        assert(next.instances == state.instances);
        assert(rearranges(state.instances, next.instances, origin));
    }
}

/// Every key press leads from a state that satisfies the invariant to one
/// that does.
pub proof fn lemma_steps_keep_invariant(state: AppView, key: Key, next: AppView, effect: Effect)
    requires
        state.wf(),
        state.steps(key, next, effect),
    ensures
        next.wf(),
{
}

impl View for App {
    type V = AppView;

    closed spec fn view(&self) -> AppView {
        AppView {
            instances: self.instances@,
            filtered: self.filtered_instances@,
            selected: self.selected,
            should_quit: self.should_quit,
            should_launch: self.should_launch,
            sort_mode: self.sort_mode,
            search_mode: self.search_mode,
            search_query: self.search_query@,
            details_mode: self.details_mode,
        }
    }
}

impl App {
    /// The state at startup: everything is visible, the cursor is on the
    /// first instance if there is one, the list counts as sorted by name,
    /// and no mode or intent is set.
    pub fn new(instances: Vec<Instance>) -> (app: App)
        ensures
            app@ == AppView::initial(instances@),
            app@.wf(),
    {
        let mut filtered_instances: Vec<Instance> = Vec::new();
        let mut i: usize = 0;
        while i < instances.len()
            invariant
                i <= instances.len(),
                filtered_instances@ == instances@.take(i as int),
            decreases instances.len() - i,
        {
            filtered_instances.push(instances[i].clone());
            assert(instances@.take(i as int).push(instances@[i as int]) =~= instances@.take(
                i + 1,
            ));
            i += 1;
        }
        assert(instances@.take(i as int) =~= instances@);
        proof {
            lemma_empty_query_shows_all(instances@);
        }
        let selected = first(instances.len());
        App {
            instances,
            filtered_instances,
            selected,
            should_quit: false,
            should_launch: false,
            sort_mode: SortMode::Name,
            search_mode: false,
            search_query: String::new(),
            details_mode: false,
        }
    }

    /// The full collection.
    pub fn instances(&self) -> (r: &Vec<Instance>)
        ensures
            r@ == self@.instances,
    {
        &self.instances
    }

    /// The visible subset.
    pub fn filtered_instances(&self) -> (r: &Vec<Instance>)
        ensures
            r@ == self@.filtered,
    {
        &self.filtered_instances
    }

    /// The cursor.
    pub fn selected(&self) -> (r: Option<usize>)
        ensures
            r == self@.selected,
    {
        self.selected
    }

    /// The selected instance, if there is one.
    pub fn selected_instance(&self) -> (r: Option<&Instance>)
        ensures
            match r {
                Some(inst) => Some(*inst),
                None => None,
            } == self@.selected_instance(),
    {
        match self.selected {
            Some(i) if i < self.filtered_instances.len() => Some(&self.filtered_instances[i]),
            _ => None,
        }
    }

    /// Whether the interactive loop is to end.
    pub fn should_quit(&self) -> (r: bool)
        ensures
            r == self@.should_quit,
    {
        self.should_quit
    }

    /// Whether the selected instance is to be launched once the loop has
    /// ended.
    pub fn should_launch(&self) -> (r: bool)
        ensures
            r == self@.should_launch,
    {
        self.should_launch
    }

    /// The current sort mode.
    pub fn sort_mode(&self) -> (r: SortMode)
        ensures
            r == self@.sort_mode,
    {
        self.sort_mode
    }

    /// Whether key presses edit the search query.
    pub fn search_mode(&self) -> (r: bool)
        ensures
            r == self@.search_mode,
    {
        self.search_mode
    }

    /// The search query.
    pub fn search_query(&self) -> (r: &str)
        ensures
            r@ == self@.search_query,
    {
        self.search_query.as_str()
    }

    /// Whether the detail panel is shown.
    pub fn details_mode(&self) -> (r: bool)
        ensures
            r == self@.details_mode,
    {
        self.details_mode
    }

    /// Moves the cursor one step down. From the last visible item it wraps
    /// round to the first; with nothing visible it does nothing.
    pub fn next(&mut self)
        ensures
            final(self)@ == old(self)@.after_next(),
            old(self)@.wf() ==> final(self)@.wf(),
            old(self)@.filtered.len() == 0 ==> final(self)@ == old(self)@,
            old(self)@.filtered.len() > 0 && old(self)@.selected == Some(
                (old(self)@.filtered.len() - 1) as usize,
            ) ==> final(self)@.selected == Some(0usize),
    {
        self.selected = advance(self.selected, self.filtered_instances.len());
    }

    /// Moves the cursor one step up. From the first visible item it wraps
    /// round to the last; with nothing visible it does nothing.
    pub fn previous(&mut self)
        ensures
            final(self)@ == old(self)@.after_previous(),
            old(self)@.wf() ==> final(self)@.wf(),
            old(self)@.filtered.len() == 0 ==> final(self)@ == old(self)@,
            old(self)@.filtered.len() > 0 && old(self)@.selected == Some(0usize)
                ==> final(self)@.selected == Some((old(self)@.filtered.len() - 1) as usize),
    {
        self.selected = retreat(self.selected, self.filtered_instances.len());
    }

    /// Sorts the full collection by the current sort mode. The visible
    /// subset is left as it is.
    fn sort_instances(&mut self)
        ensures
            sorted_from(old(self)@.sort_mode, old(self)@.instances, final(self)@.instances),
            final(self)@ == (AppView { instances: final(self)@.instances, ..old(self)@ }),
    {
        sort_instances(&mut self.instances, self.sort_mode);
    }

    /// Computes the visible subset afresh from the full collection and the
    /// query, and brings the cursor back into it. On a state whose visible
    /// subset is up to date this changes nothing.
    pub fn update_filter(&mut self)
        ensures
            final(self)@ == old(self)@.refreshed(),
            final(self)@.wf(),
            old(self)@.wf() ==> final(self)@ == old(self)@,
    {
        self.filtered_instances = filter_instances(&self.instances, self.search_query.as_str());
        self.selected = revalidate(self.selected, self.filtered_instances.len());
    }

    /// Changes to the following sort mode, sorts the full collection by it,
    /// computes the visible subset afresh and puts the cursor on its first
    /// item.
    pub fn cycle_sort(&mut self)
        ensures
            old(self)@.sort_cycled(final(self)@),
            final(self)@.wf(),
            old(self)@.search_query.len() == 0 ==> final(self)@.filtered == final(self)@.instances,
    {
        self.sort_mode = self.sort_mode.next();
        self.sort_instances();
        self.update_filter();
        self.selected = first(self.filtered_instances.len());
        proof {
            if self@.search_query.len() == 0 {
                assert(self@.search_query =~= Seq::empty());
                lemma_empty_query_shows_all(self@.instances);
            }
        }
    }

    /// Enters search mode with an empty query.
    pub fn enter_search_mode(&mut self)
        ensures
            final(self)@ == old(self)@.after_enter_search(),
            final(self)@.wf(),
            final(self)@.filtered == final(self)@.instances,
    {
        self.search_mode = true;
        self.search_query = String::new();
        self.update_filter();
        proof {
            lemma_empty_query_shows_all(self@.instances);
        }
    }

    /// Leaves search mode and drops the query.
    pub fn exit_search_mode(&mut self)
        ensures
            final(self)@ == old(self)@.after_exit_search(),
            final(self)@.wf(),
            final(self)@.filtered == final(self)@.instances,
    {
        self.search_mode = false;
        self.search_query = String::new();
        self.update_filter();
        proof {
            lemma_empty_query_shows_all(self@.instances);
        }
    }

    /// Appends `c` to the query.
    pub fn update_search_query(&mut self, c: char)
        ensures
            final(self)@ == old(self)@.after_typing(c),
            final(self)@.wf(),
    {
        push_char(&mut self.search_query, c);
        self.update_filter();
    }

    /// Deletes the last character of the query, if it has one.
    pub fn backspace_search(&mut self)
        ensures
            final(self)@ == old(self)@.after_backspace(),
            final(self)@.wf(),
    {
        let _ = pop_char(&mut self.search_query);
        self.update_filter();
    }

    /// Shows the detail panel if it is hidden and hides it if it is shown.
    pub fn toggle_details(&mut self)
        ensures
            final(self)@ == old(self)@.after_toggle_details(),
            old(self)@.wf() ==> final(self)@.wf(),
    {
        self.details_mode = !self.details_mode;
    }

    fn quit(&mut self, launch: bool)
        ensures
            final(self)@ == if launch {
                old(self)@.with_launch()
            } else {
                old(self)@.with_quit()
            },
    {
        self.should_quit = true;
        if launch {
            self.should_launch = true;
        }
    }

    fn open_folder(&self) -> (effect: Effect)
        ensures
            effect == self@.open_folder_effect(),
    {
        match self.selected_instance() {
            Some(inst) => Effect::OpenFolder(inst.path.clone()),
            None => Effect::Nothing,
        }
    }

    /// Makes the transition for one key press and returns what it asks of
    /// the driver. An intent, once set, stays set.
    pub fn handle_key(&mut self, key: Key) -> (effect: Effect)
        ensures
            old(self)@.steps(key, final(self)@, effect),
            old(self)@.wf() ==> final(self)@.wf(),
            old(self)@.should_quit ==> final(self)@.should_quit,
            old(self)@.should_launch ==> final(self)@.should_launch,
    {
        if self.search_mode {
            match key {
                Key::Esc => self.exit_search_mode(),
                Key::Char(c) => self.update_search_query(c),
                Key::Backspace => self.backspace_search(),
                Key::Enter => {
                    self.exit_search_mode();
                    self.quit(true);
                },
                Key::Down => self.next(),
                Key::Up => self.previous(),
                Key::Other => {},
            }
            Effect::Nothing
        } else {
            match key {
                Key::Esc => self.quit(false),
                Key::Enter => self.quit(true),
                Key::Down => self.next(),
                Key::Up => self.previous(),
                Key::Char(c) => {
                    if c == 'q' {
                        self.quit(false);
                    } else if c == 'j' {
                        self.next();
                    } else if c == 'k' {
                        self.previous();
                    } else if c == 'o' {
                        return self.open_folder();
                    } else if c == 's' {
                        self.cycle_sort();
                    } else if c == '/' {
                        self.enter_search_mode();
                    } else if c == 'i' {
                        self.toggle_details();
                    }
                },
                _ => {},
            }
            Effect::Nothing
        }
    }
}

} // verus!
