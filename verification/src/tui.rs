//! The state of the interactive table: which rows are shown, which one is
//! selected, and what each key does to them.

use vstd::prelude::*;
use crate::band::{band_label, Band};
use crate::correlate::{row_views, PodRow, PodRowView};
use crate::sequences::{
    embeds, lemma_filter_all, lemma_filter_embeds, lemma_filter_push, lemma_filter_twice,
};
use crate::text::{contains_text, lowercase_of, occurs_in};

verus! {

/// Which bands the table shows.
#[derive(Debug, Clone, Copy, PartialEq, Eq, Structural)]
pub enum FilterStatus {
    All,
    Overutilized,
    Underutilized,
    Normal,
}

/// Whether keys move through the table or edit the search text.
#[derive(Debug, Clone, Copy, PartialEq, Eq, Structural)]
pub enum InputMode {
    Normal,
    Editing,
}

/// A key that was pressed.
#[derive(Debug, Clone, Copy, PartialEq, Eq, Structural)]
pub enum Key {
    Char(char),
    Down,
    Up,
    Tab,
    Esc,
    Enter,
    Backspace,
    Other,
}

/// What the caller does after a key was handled.
#[derive(Debug, Clone, Copy, PartialEq, Eq, Structural)]
pub enum Outcome {
    Continue,
    Quit,
}

/// The filter that follows a filter in the cycle.
pub open spec fn next_filter(filter: FilterStatus) -> FilterStatus {
    match filter {
        FilterStatus::All => FilterStatus::Overutilized,
        FilterStatus::Overutilized => FilterStatus::Underutilized,
        FilterStatus::Underutilized => FilterStatus::Normal,
        FilterStatus::Normal => FilterStatus::All,
    }
}

/// The name of a filter, as the title shows it.
pub open spec fn filter_label(filter: FilterStatus) -> Seq<char> {
    match filter {
        FilterStatus::All => "ALL"@,
        FilterStatus::Overutilized => "OVERUTILIZED"@,
        FilterStatus::Underutilized => "UNDERUTILIZED"@,
        FilterStatus::Normal => "NORMAL"@,
    }
}

/// Whether a filter lets a band through.
pub open spec fn band_matches(filter: FilterStatus, band: Band) -> bool {
    match filter {
        FilterStatus::All => true,
        FilterStatus::Overutilized => band == Band::Overutilized,
        FilterStatus::Underutilized => band == Band::Underutilized,
        FilterStatus::Normal => band == Band::Normal,
    }
}

/// Whether a text stands in the name, the namespace or the band label of a
/// row, each of the three taken in lower case.
pub open spec fn holds_text(text: Seq<char>, row: PodRowView) -> bool {
    occurs_in(text, lowercase_of(row.name)) || occurs_in(text, lowercase_of(row.namespace))
        || occurs_in(text, lowercase_of(band_label(row.band)))
}

/// Whether a row answers a search text: an empty text is answered by every
/// row, another one by a row whose name, namespace or band label holds it,
/// all taken in lower case.
pub open spec fn text_matches(query: Seq<char>, row: PodRowView) -> bool {
    query.len() == 0 || holds_text(lowercase_of(query), row)
}

/// Whether a row is shown under a filter and a search text.
pub open spec fn row_visible(filter: FilterStatus, query: Seq<char>, row: PodRowView) -> bool {
    band_matches(filter, row.band) && text_matches(query, row)
}

/// The rows that are shown under a filter and a search text, in their order.
pub open spec fn visible_rows(all: Seq<PodRowView>, filter: FilterStatus, query: Seq<char>) -> Seq<
    PodRowView,
> {
    all.filter(|r: PodRowView| row_visible(filter, query, r))
}

/// The selection after the shown rows were computed anew: the first row, or
/// none where no row is shown.
pub open spec fn first_of(visible: Seq<PodRowView>) -> Option<nat> {
    if visible.len() > 0 {
        Some(0)
    } else {
        None
    }
}

/// What the state of the table is.
pub struct AppStateView {
    pub all: Seq<PodRowView>,
    pub visible: Seq<PodRowView>,
    pub selected: Option<nat>,
    pub filter: FilterStatus,
    pub query: Seq<char>,
    pub mode: InputMode,
}

impl AppStateView {
    /// The shown rows are those that the filter and the search text let
    /// through, and a row of them is selected exactly if there is one.
    pub open spec fn wf(self) -> bool {
        &&& self.visible == visible_rows(self.all, self.filter, self.query)
        &&& match self.selected {
            Some(i) => i < self.visible.len(),
            None => self.visible.len() == 0,
        }
    }

    /// The state with the shown rows computed anew and the selection reset.
    pub open spec fn recomputed(self) -> AppStateView {
        let visible = visible_rows(self.all, self.filter, self.query);
        AppStateView { visible, selected: first_of(visible), ..self }
    }

    /// The state with the selection moved one row down, from the last row to
    /// the first. With no row shown nothing changes.
    pub open spec fn moved_down(self) -> AppStateView {
        if self.visible.len() == 0 {
            self
        } else {
            AppStateView {
                selected: Some(
                    match self.selected {
                        Some(i) => if i + 1 >= self.visible.len() {
                            0
                        } else {
                            i + 1
                        },
                        None => 0,
                    },
                ),
                ..self
            }
        }
    }

    /// The state with the selection moved one row up, from the first row to
    /// the last. With no row shown nothing changes.
    pub open spec fn moved_up(self) -> AppStateView {
        if self.visible.len() == 0 {
            self
        } else {
            AppStateView {
                selected: Some(
                    match self.selected {
                        Some(i) => if i == 0 {
                            (self.visible.len() - 1) as nat
                        } else {
                            (i - 1) as nat
                        },
                        None => 0,
                    },
                ),
                ..self
            }
        }
    }

    /// The state with the next filter of the cycle.
    pub open spec fn filter_cycled(self) -> AppStateView {
        AppStateView { filter: next_filter(self.filter), ..self }.recomputed()
    }

    /// The state with no search text and every band shown.
    pub open spec fn reset(self) -> AppStateView {
        AppStateView { filter: FilterStatus::All, query: Seq::empty(), ..self }.recomputed()
    }

    /// The state with one more character at the end of the search text.
    pub open spec fn typed(self, c: char) -> AppStateView {
        AppStateView { query: self.query.push(c), ..self }.recomputed()
    }

    /// The state with the last character of the search text taken off.
    pub open spec fn erased(self) -> AppStateView {
        AppStateView {
            query: if self.query.len() > 0 {
                self.query.drop_last()
            } else {
                self.query
            },
            ..self
        }.recomputed()
    }

    /// The state in another input mode.
    pub open spec fn in_mode(self, mode: InputMode) -> AppStateView {
        AppStateView { mode, ..self }
    }

    /// The state after a key.
    pub open spec fn after_key(self, key: Key) -> AppStateView {
        match self.mode {
            InputMode::Normal => match key {
                Key::Down => self.moved_down(),
                Key::Up => self.moved_up(),
                Key::Tab => self.filter_cycled(),
                Key::Char(c) => if c == '/' {
                    self.in_mode(InputMode::Editing)
                } else {
                    self
                },
                Key::Esc => self.reset(),
                _ => self,
            },
            InputMode::Editing => match key {
                Key::Enter => self.in_mode(InputMode::Normal),
                Key::Esc => self.in_mode(InputMode::Normal),
                Key::Backspace => self.erased(),
                Key::Char(c) => self.typed(c),
                _ => self,
            },
        }
    }

    /// Whether a key ends the session in this state.
    pub open spec fn quits_on(self, key: Key) -> bool {
        self.mode == InputMode::Normal && key == Key::Char('q')
    }
}

impl FilterStatus {
    /// The filter that follows this one in the cycle.
    pub fn next(&self) -> (following: FilterStatus)
        ensures
            following == next_filter(*self),
    {
        match self {
            FilterStatus::All => FilterStatus::Overutilized,
            FilterStatus::Overutilized => FilterStatus::Underutilized,
            FilterStatus::Underutilized => FilterStatus::Normal,
            FilterStatus::Normal => FilterStatus::All,
        }
    }

    /// The name of this filter, as the title shows it.
    pub fn to_string(&self) -> (text: String)
        ensures
            text@ == filter_label(*self),
    {
        match self {
            FilterStatus::All => "ALL".to_owned(),
            FilterStatus::Overutilized => "OVERUTILIZED".to_owned(),
            FilterStatus::Underutilized => "UNDERUTILIZED".to_owned(),
            FilterStatus::Normal => "NORMAL".to_owned(),
        }
    }

    /// Whether this filter lets a band through.
    pub fn admits(&self, band: Band) -> (admitted: bool)
        ensures
            admitted == band_matches(*self, band),
    {
        match self {
            FilterStatus::All => true,
            FilterStatus::Overutilized => band == Band::Overutilized,
            FilterStatus::Underutilized => band == Band::Underutilized,
            FilterStatus::Normal => band == Band::Normal,
        }
    }
}

/// Whether a text stands in the name, the namespace or the band label of a
/// row, each of the three taken in lower case.
pub fn row_holds(text: &str, row: &PodRow) -> (holds: bool)
    ensures
        holds == holds_text(text@, row@),
{
    if contains_text(row.name.as_str().to_lowercase().as_str(), text) {
        true
    } else if contains_text(row.namespace.as_str().to_lowercase().as_str(), text) {
        true
    } else {
        let label: String = row.band.label();
        contains_text(label.as_str().to_lowercase().as_str(), text)
    }
}

/// The rows that are shown under a filter and a search text, in their order.
pub fn select_visible(all: &Vec<PodRow>, filter: FilterStatus, query: &String) -> (visible: Vec<
    PodRow,
>)
    ensures
        row_views(visible@) == visible_rows(row_views(all@), filter, query@),
{
    let lowered: String = query.as_str().to_lowercase();
    let any_text: bool = query.as_str().is_empty();
    let ghost pred = |r: PodRowView| row_visible(filter, query@, r);
    let mut visible: Vec<PodRow> = Vec::new();
    let mut i: usize = 0;
    proof {
        reveal(Seq::filter);
        assert(row_views(all@).take(0).filter(pred) =~= Seq::<PodRowView>::empty());
    }
    while i < all.len()
        invariant
            i <= all.len(),
            lowered@ == lowercase_of(query@),
            any_text == (query@.len() == 0),
            pred == |r: PodRowView| row_visible(filter, query@, r),
            row_views(visible@) == row_views(all@).take(i as int).filter(pred),
        decreases all.len() - i,
    {
        proof {
            lemma_filter_push(row_views(all@).take(i as int), pred, all[i as int]@);
            assert(row_views(all@).take(i + 1) =~= row_views(all@).take(i as int).push(
                all[i as int]@,
            ));
        }
        if filter.admits(all[i].band) && (any_text || row_holds(lowered.as_str(), &all[i])) {
            let ghost before = row_views(visible@);
            let row: PodRow = all[i].copy();
            visible.push(row);
            proof {
                assert(row_views(visible@) =~= before.push(all[i as int]@));
            }
        }
        i = i + 1;
    }
    proof {
        assert(row_views(all@).take(i as int) =~= row_views(all@));
    }
    visible
}

/// The state of the interactive table over one set of rows.
pub struct AppState {
    all_items: Vec<PodRow>,
    visible_items: Vec<PodRow>,
    selected: Option<usize>,
    status_filter: FilterStatus,
    search_query: String,
    input_mode: InputMode,
}

impl View for AppState {
    type V = AppStateView;

    closed spec fn view(&self) -> AppStateView {
        AppStateView {
            all: row_views(self.all_items@),
            visible: row_views(self.visible_items@),
            selected: match self.selected {
                Some(i) => Some(i as nat),
                None => None,
            },
            filter: self.status_filter,
            query: self.search_query@,
            mode: self.input_mode,
        }
    }
}

impl AppState {
    /// The state at the start: every row shown, the first one selected, no
    /// search text, keys move through the table.
    pub fn new(items: Vec<PodRow>) -> (state: AppState)
        ensures
            state@.wf(),
            state@.all == row_views(items@),
            state@.filter == FilterStatus::All,
            state@.query == Seq::<char>::empty(),
            state@.mode == InputMode::Normal,
            state@.selected == first_of(state@.visible),
            state@.visible == state@.all,
    {
        let search_query: String = String::new();
        let visible_items: Vec<PodRow> = select_visible(&items, FilterStatus::All, &search_query);
        proof {
            lemma_everything_visible(row_views(items@));
        }
        let selected: Option<usize> = if visible_items.len() > 0 {
            Some(0)
        } else {
            None
        };
        AppState {
            all_items: items,
            visible_items,
            selected,
            status_filter: FilterStatus::All,
            search_query,
            input_mode: InputMode::Normal,
        }
    }

    /// Computes the shown rows anew from the filter and the search text, and
    /// selects the first of them.
    pub fn apply_filters(&mut self)
        ensures
            final(self)@ == old(self)@.recomputed(),
            final(self)@.wf(),
    {
        self.visible_items = select_visible(&self.all_items, self.status_filter, &self.search_query);
        if self.visible_items.len() == 0 {
            self.selected = None;
        } else {
            self.selected = Some(0);
        }
    }

    /// Moves the selection one row down, from the last row to the first.
    pub fn next(&mut self)
        ensures
            final(self)@ == old(self)@.moved_down(),
            old(self)@.wf() ==> final(self)@.wf(),
    {
        if self.visible_items.len() == 0 {
            return ;
        }
        let i: usize = match self.selected {
            Some(i) => if i >= self.visible_items.len() - 1 {
                0
            } else {
                i + 1
            },
            None => 0,
        };
        self.selected = Some(i);
    }

    /// Moves the selection one row up, from the first row to the last.
    pub fn previous(&mut self)
        ensures
            final(self)@ == old(self)@.moved_up(),
            old(self)@.wf() ==> final(self)@.wf(),
    {
        if self.visible_items.len() == 0 {
            return ;
        }
        let i: usize = match self.selected {
            Some(i) => if i == 0 {
                self.visible_items.len() - 1
            } else {
                i - 1
            },
            None => 0,
        };
        self.selected = Some(i);
    }

    /// Goes on to the next filter of the cycle.
    pub fn cycle_filter(&mut self)
        ensures
            final(self)@ == old(self)@.filter_cycled(),
            final(self)@.wf(),
    {
        self.status_filter = self.status_filter.next();
        self.apply_filters();
    }

    /// Clears the search text and shows every band.
    pub fn reset(&mut self)
        ensures
            final(self)@ == old(self)@.reset(),
            final(self)@.wf(),
    {
        self.search_query = String::new();
        self.status_filter = FilterStatus::All;
        self.apply_filters();
    }

    /// Appends a character to the search text.
    pub fn push_char(&mut self, c: char)
        ensures
            final(self)@ == old(self)@.typed(c),
            final(self)@.wf(),
    {
        self.search_query.push(c);
        self.apply_filters();
    }

    /// Takes the last character off the search text, if it has one.
    pub fn backspace(&mut self)
        ensures
            final(self)@ == old(self)@.erased(),
            final(self)@.wf(),
    {
        let _ = self.search_query.pop();
        self.apply_filters();
    }

    /// Handles one key and says whether the session goes on.
    pub fn handle_key(&mut self, key: Key) -> (outcome: Outcome)
        ensures
            final(self)@ == old(self)@.after_key(key),
            old(self)@.wf() ==> final(self)@.wf(),
            outcome == if old(self)@.quits_on(key) {
                Outcome::Quit
            } else {
                Outcome::Continue
            },
    {
        match self.input_mode {
            InputMode::Normal => match key {
                Key::Char(c) => {
                    if c == 'q' {
                        return Outcome::Quit;
                    } else if c == '/' {
                        self.input_mode = InputMode::Editing;
                    }
                },
                Key::Down => self.next(),
                Key::Up => self.previous(),
                Key::Tab => self.cycle_filter(),
                Key::Esc => self.reset(),
                _ => {},
            },
            InputMode::Editing => match key {
                Key::Enter => {
                    self.input_mode = InputMode::Normal;
                },
                Key::Esc => {
                    self.input_mode = InputMode::Normal;
                },
                Key::Backspace => self.backspace(),
                Key::Char(c) => self.push_char(c),
                _ => {},
            },
        }
        Outcome::Continue
    }

    /// All rows, shown or not.
    pub fn all_items(&self) -> (rows: &Vec<PodRow>)
        ensures
            row_views(rows@) == self@.all,
    {
        &self.all_items
    }

    /// The rows that are shown.
    pub fn visible_items(&self) -> (rows: &Vec<PodRow>)
        ensures
            row_views(rows@) == self@.visible,
    {
        &self.visible_items
    }

    /// The position of the selected row among the shown rows.
    pub fn selected(&self) -> (position: Option<usize>)
        ensures
            match position {
                Some(i) => self@.selected == Some(i as nat),
                None => self@.selected.is_none(),
            },
    {
        self.selected
    }

    /// The filter in use.
    pub fn status_filter(&self) -> (filter: FilterStatus)
        ensures
            filter == self@.filter,
    {
        self.status_filter
    }

    /// The search text.
    pub fn search_query(&self) -> (query: &String)
        ensures
            query@ == self@.query,
    {
        &self.search_query
    }

    /// The input mode.
    pub fn input_mode(&self) -> (mode: InputMode)
        ensures
            mode == self@.mode,
    {
        self.input_mode
    }
}

/// The state after the selection was moved down `k` times.
pub open spec fn moved_down_times(s: AppStateView, k: nat) -> AppStateView
    decreases k,
{
    if k == 0 {
        s
    } else {
        moved_down_times(s, (k - 1) as nat).moved_down()
    }
}

/// The state after the selection was moved up `k` times.
pub open spec fn moved_up_times(s: AppStateView, k: nat) -> AppStateView
    decreases k,
{
    if k == 0 {
        s
    } else {
        moved_up_times(s, (k - 1) as nat).moved_up()
    }
}

/// The state after the filter was cycled `k` times.
pub open spec fn filter_cycled_times(s: AppStateView, k: nat) -> AppStateView
    decreases k,
{
    if k == 0 {
        s
    } else {
        filter_cycled_times(s, (k - 1) as nat).filter_cycled()
    }
}

/// The filters form a cycle of four: the fourth filter after any filter is
/// that filter again.
pub proof fn lemma_filter_cycle(filter: FilterStatus)
    ensures
        next_filter(next_filter(next_filter(next_filter(filter)))) == filter,
        next_filter(filter) != filter,
        next_filter(next_filter(filter)) != filter,
        next_filter(next_filter(next_filter(filter))) != filter,
{
}

/// Cycling the filter four times brings the filter of a state back to where
/// it was; from the start that is the filter that shows every band.
pub proof fn lemma_four_cycles_restore_filter(s: AppStateView)
    ensures
        filter_cycled_times(s, 4).filter == s.filter,
        filter_cycled_times(s, 4) == s.recomputed(),
{
    reveal_with_fuel(filter_cycled_times, 5);
}

/// Computing the shown rows anew twice gives what computing them once gives.
pub proof fn lemma_recompute_idempotent(s: AppStateView)
    ensures
        s.recomputed().recomputed() == s.recomputed(),
        s.recomputed().wf(),
{
}

/// The rows shown under a filter and a search text, taken as the whole set,
/// are all shown again under the same two.
pub proof fn lemma_visible_rows_idempotent(all: Seq<PodRowView>, filter: FilterStatus, query: Seq<char>)
    ensures
        visible_rows(visible_rows(all, filter, query), filter, query) == visible_rows(
            all,
            filter,
            query,
        ),
{
    lemma_filter_twice(all, |r: PodRowView| row_visible(filter, query, r));
}

/// In a well-formed state the shown rows are rows of the whole set, in the
/// same order, and each of them is let through by the filter and the search
/// text.
pub proof fn lemma_visible_is_part(s: AppStateView)
    requires
        s.wf(),
    ensures
        embeds(s.visible, s.all),
        forall|i: int| 0 <= i < s.visible.len() ==> row_visible(s.filter, s.query, #[trigger] s.visible[i]),
        forall|i: int| 0 <= i < s.visible.len() ==> s.all.contains(#[trigger] s.visible[i]),
{
    let pred = |r: PodRowView| row_visible(s.filter, s.query, r);
    lemma_filter_embeds(s.all, pred);
    assert forall|i: int| 0 <= i < s.visible.len() implies row_visible(
        s.filter,
        s.query,
        #[trigger] s.visible[i],
    ) && s.all.contains(s.visible[i]) by {
        s.all.lemma_filter_pred(pred, i);
        assert(s.all.filter(pred).contains(s.visible[i]));
        s.all.lemma_filter_contains_rev(pred, s.visible[i]);
    }
}

/// Every key takes a well-formed state to a well-formed state.
pub proof fn lemma_keys_preserve_wf(s: AppStateView, key: Key)
    requires
        s.wf(),
    ensures
        s.after_key(key).wf(),
{
}

/// No key changes the set of rows that the table was made over.
pub proof fn lemma_keys_keep_rows(s: AppStateView, key: Key)
    ensures
        s.after_key(key).all == s.all,
{
}

/// Leaving the search, by either key, keeps the text as it was typed and the
/// rows that it shows.
pub proof fn lemma_leaving_search_keeps_text(s: AppStateView)
    requires
        s.mode == InputMode::Editing,
    ensures
        s.after_key(Key::Enter) == s.in_mode(InputMode::Normal),
        s.after_key(Key::Esc) == s.in_mode(InputMode::Normal),
        s.after_key(Key::Enter).query == s.query,
        s.after_key(Key::Enter).visible == s.visible,
        s.after_key(Key::Enter).selected == s.selected,
{
}

/// Moving down `k` times from the first row selects row `k`, as long as
/// there is such a row.
pub proof fn lemma_down_counts(s: AppStateView, k: nat)
    requires
        s.selected == Some(0nat),
        k < s.visible.len(),
    ensures
        moved_down_times(s, k) == (AppStateView { selected: Some(k), ..s }),
    decreases k,
{
    if k > 0 {
        lemma_down_counts(s, (k - 1) as nat);
    }
}

/// Moving down wraps: from the first row, as many moves as rows are shown
/// lead through every row and back to the first.
pub proof fn lemma_down_wraps(s: AppStateView)
    requires
        s.selected == Some(0nat),
        s.visible.len() > 0,
    ensures
        moved_down_times(s, (s.visible.len() - 1) as nat).selected == Some(
            (s.visible.len() - 1) as nat,
        ),
        moved_down_times(s, s.visible.len()) == s,
{
    lemma_down_counts(s, (s.visible.len() - 1) as nat);
}

/// Moving up `k` times from the first row selects the row `k` before the
/// end, as long as `k` is above zero and there is such a row.
pub proof fn lemma_up_counts(s: AppStateView, k: nat)
    requires
        s.selected == Some(0nat),
        0 < k <= s.visible.len(),
    ensures
        moved_up_times(s, k) == (AppStateView { selected: Some((s.visible.len() - k) as nat), ..s }),
    decreases k,
{
    if k > 1 {
        lemma_up_counts(s, (k - 1) as nat);
    } else {
        assert(moved_up_times(s, 0) == s);
    }
}

/// Moving up wraps: from the first row one move selects the last row, and
/// as many moves as rows are shown lead back to the first.
pub proof fn lemma_up_wraps(s: AppStateView)
    requires
        s.selected == Some(0nat),
        s.visible.len() > 0,
    ensures
        s.moved_up().selected == Some((s.visible.len() - 1) as nat),
        moved_up_times(s, s.visible.len()) == s,
{
    lemma_up_counts(s, s.visible.len());
}

/// A move down and a move up undo each other wherever a row is selected.
pub proof fn lemma_down_up_inverse(s: AppStateView)
    requires
        s.wf(),
    ensures
        s.moved_down().moved_up() == s,
        s.moved_up().moved_down() == s,
{
}

/// With no search text and every band let through, every row is shown.
pub proof fn lemma_everything_visible(all: Seq<PodRowView>)
    ensures
        visible_rows(all, FilterStatus::All, Seq::empty()) == all,
{
    lemma_filter_all(all, |r: PodRowView| row_visible(FilterStatus::All, Seq::empty(), r));
}

/// After a reset every row is shown again, and the first one is selected.
pub proof fn lemma_reset_shows_everything(s: AppStateView)
    ensures
        s.reset().visible == s.all,
        s.reset().selected == first_of(s.all),
        s.reset().query.len() == 0,
        s.reset().filter == FilterStatus::All,
        s.reset().mode == s.mode,
{
    lemma_everything_visible(s.all);
}

/// A character typed and erased again leaves the search text as it was, and
/// with it the rows that are shown.
pub proof fn lemma_type_then_erase(s: AppStateView, c: char)
    ensures
        s.typed(c).erased().query == s.query,
        s.typed(c).erased() == s.recomputed(),
{
    assert(s.query.push(c).drop_last() =~= s.query);
}

/// With no row shown, moving the selection changes nothing.
pub proof fn lemma_moves_without_rows(s: AppStateView)
    requires
        s.visible.len() == 0,
    ensures
        s.moved_down() == s,
        s.moved_up() == s,
{
}

} // verus!
