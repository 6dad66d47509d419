//! The cursor: which sheet is shown, and where the selection stands in each
//! sheet that was looked at.
use crate::model::sheets::SheetView;
use crate::model::Model;
use crate::model::Sheet;
use crate::model::Transaction;
use vstd::prelude::*;
use vstd::view::View as _;

pub mod rendering;
pub mod states;

pub use states::SheetState;

verus! {

/// The text of the member of a transaction in the given column: the date,
/// the label, the amount, and nothing beyond. A date is printed on one line.
pub fn get_string_of_transaction_member(transaction: &Transaction, index: usize) -> (r: String)
    ensures
        r@ == transaction@.member_text(index as int),
        index == 0 ==> !r@.contains('\n') && !r@.contains('\r'),
{
    transaction.member_text(index)
}

/// The state kept for the sheet of one name.
#[derive(Debug)]
pub struct StateEntry {
    pub name: String,
    pub state: SheetState,
}

/// The states by sheet name. Where a name occurs twice, the first entry
/// counts.
pub open spec fn entries_map(entries: Seq<StateEntry>) -> Map<Seq<char>, SheetState>
    decreases entries.len(),
{
    if entries.len() == 0 {
        Map::empty()
    } else {
        let rest = entries_map(entries.drop_last());
        let entry = entries.last();
        if rest.contains_key(entry.name@) {
            rest
        } else {
            rest.insert(entry.name@, entry.state)
        }
    }
}

/// A name that no entry has is not in the map.
pub proof fn lemma_entries_absent(entries: Seq<StateEntry>, name: Seq<char>)
    requires
        forall|j: int| 0 <= j < entries.len() ==> entries[j].name@ != name,
    ensures
        !entries_map(entries).contains_key(name),
    decreases entries.len(),
{
    if entries.len() > 0 {
        lemma_entries_absent(entries.drop_last(), name);
    }
}

/// The first entry of a name gives the state of that name.
pub proof fn lemma_entries_first(entries: Seq<StateEntry>, i: int, name: Seq<char>)
    requires
        0 <= i < entries.len(),
        entries[i].name@ == name,
        forall|j: int| 0 <= j < i ==> entries[j].name@ != name,
    ensures
        entries_map(entries).contains_key(name),
        entries_map(entries)[name] == entries[i].state,
    decreases entries.len(),
{
    if i == entries.len() - 1 {
        lemma_entries_absent(entries.drop_last(), name);
    } else {
        lemma_entries_first(entries.drop_last(), i, name);
    }
}

/// Changing the state in the first entry of a name changes the state of
/// that name, and nothing else.
pub proof fn lemma_entries_update(
    entries: Seq<StateEntry>,
    i: int,
    name: Seq<char>,
    changed: Seq<StateEntry>,
)
    requires
        0 <= i < entries.len(),
        entries[i].name@ == name,
        forall|j: int| 0 <= j < i ==> entries[j].name@ != name,
        changed.len() == entries.len(),
        changed[i].name@ == name,
        forall|j: int| 0 <= j < entries.len() && j != i ==> changed[j] == entries[j],
    ensures
        entries_map(changed) == entries_map(entries).insert(name, changed[i].state),
    decreases entries.len(),
{
    let last = entries.len() - 1;
    if i == last {
        assert(changed.drop_last() =~= entries.drop_last());
        lemma_entries_absent(entries.drop_last(), name);
        assert(entries_map(changed) =~= entries_map(entries).insert(name, changed[i].state));
    } else {
        lemma_entries_update(entries.drop_last(), i, name, changed.drop_last());
        lemma_entries_first(entries.drop_last(), i, name);
        assert(changed.last() == entries.last());
        assert(entries_map(changed) =~= entries_map(entries).insert(name, changed[i].state));
    }
}

/// A new name at the end adds its state, and changes nothing else.
pub proof fn lemma_entries_push(entries: Seq<StateEntry>, entry: StateEntry)
    requires
        forall|j: int| 0 <= j < entries.len() ==> entries[j].name@ != entry.name@,
    ensures
        entries_map(entries.push(entry)) == entries_map(entries).insert(entry.name@, entry.state),
{
    lemma_entries_absent(entries, entry.name@);
    assert(entries.push(entry).drop_last() =~= entries);
}

/// Represents the view of the user.
#[derive(Debug)]
pub struct View {
    /// The states of the sheets that were looked at, by name. They are kept
    /// as a list that is searched from the front: vstd knows how std's hash
    /// maps behave for keys that are integers, not for keys that are strings.
    pub sheet_states: Vec<StateEntry>,
    /// The currently selected sheet; see [`Model::get_sheet`] for the
    /// indexing.
    pub selected_sheet: usize,
}

/// The view as a mathematical value.
pub struct ViewState {
    pub states: Map<Seq<char>, SheetState>,
    pub selected_sheet: usize,
}

impl vstd::view::View for View {
    type V = ViewState;

    open spec fn view(&self) -> ViewState {
        ViewState {
            states: entries_map(self.sheet_states@),
            selected_sheet: self.selected_sheet,
        }
    }
}

impl ViewState {
    /// The state of a sheet: the one kept under its name, or a fresh one.
    pub open spec fn state_of(self, sheet: SheetView) -> SheetState {
        if self.states.contains_key(sheet.name) {
            self.states[sheet.name]
        } else {
            SheetState::spec_new(sheet.len())
        }
    }

    /// The view with the state of a sheet replaced.
    pub open spec fn with_state(self, sheet: SheetView, state: SheetState) -> ViewState {
        ViewState { states: self.states.insert(sheet.name, state), ..self }
    }

    /// The row of the sheet that is nearest to `row`: `row` itself, or the
    /// last row where the sheet ends before.
    pub open spec fn nearest_row(sheet: SheetView, row: usize) -> usize {
        if row <= states::last_index(sheet.len()) {
            row
        } else {
            states::last_index(sheet.len())
        }
    }

    /// The view after a row of the sheet was selected: `row`, or the last
    /// row where the sheet ends before. A sheet without rows has no row to
    /// select, and the view stays as it is.
    pub open spec fn at_row(self, sheet: SheetView, row: usize) -> ViewState {
        if sheet.len() == 0 {
            self
        } else {
            self.with_state(sheet, self.state_of(sheet).at_row(Self::nearest_row(sheet, row)))
        }
    }

    /// The view after the sheet was looked at: it has a state now.
    pub open spec fn looked_at(self, sheet: SheetView) -> ViewState {
        self.with_state(sheet, self.state_of(sheet))
    }

    /// The view after the selection of the sheet moved down by `count` rows,
    /// stopping at the last row.
    pub open spec fn moved_down(self, sheet: SheetView, count: usize) -> ViewState {
        self.at_row(sheet, self.state_of(sheet).row_below(count, sheet.len()))
    }

    /// The view after the selection of the sheet moved up by `count` rows,
    /// stopping at the first row.
    pub open spec fn moved_up(self, sheet: SheetView, count: usize) -> ViewState {
        self.at_row(sheet, self.state_of(sheet).row_above(count))
    }

    /// The view after the column selection of the sheet moved one to the
    /// right.
    pub open spec fn column_right(self, sheet: SheetView) -> ViewState {
        let state = self.state_of(sheet);
        self.with_state(
            sheet,
            SheetState {
                table_state: states::TableState {
                    selected_column: Some(state.table_state.next_column()),
                    ..state.table_state
                },
                ..state
            },
        )
    }

    /// The view after the column selection of the sheet moved one to the
    /// left.
    pub open spec fn column_left(self, sheet: SheetView) -> ViewState {
        let state = self.state_of(sheet);
        self.with_state(
            sheet,
            SheetState {
                table_state: states::TableState {
                    selected_column: Some(state.table_state.previous_column()),
                    ..state.table_state
                },
                ..state
            },
        )
    }

    /// The selected row of a sheet, as its state has it.
    pub open spec fn selected_row(self, sheet: SheetView) -> Option<usize> {
        self.state_of(sheet).table_state.selected
    }

    /// The selected cell of a sheet, as its state has it.
    pub open spec fn selected_cell(self, sheet: SheetView) -> Option<(usize, usize)> {
        self.state_of(sheet).table_state.spec_selected_cell()
    }

    /// The view with another sheet selected.
    pub open spec fn with_selected(self, index: usize) -> ViewState {
        ViewState { selected_sheet: index, ..self }
    }
}

/// The sheet after sheet `index` of `count`, the first following the last.
pub open spec fn next_index(index: int, count: int) -> int {
    (index + 1) % count
}

/// The sheet before sheet `index` of `count`, the last preceding the first.
pub open spec fn previous_index(index: int, count: int) -> int {
    (index + count - 1) % count
}

/// The sheet reached from `index` by going to the next sheet `steps` times.
pub open spec fn next_index_times(index: int, count: int, steps: nat) -> int
    decreases steps,
{
    if steps == 0 {
        index
    } else {
        next_index(next_index_times(index, count, (steps - 1) as nat), count)
    }
}

/// After a row was asked for, the selected row is a row of the sheet; and
/// in a sheet without rows nothing has changed.
pub proof fn lemma_selected_row_exists(view: ViewState, sheet: SheetView, row: usize)
    ensures
        sheet.len() > 0 ==> view.at_row(sheet, row).selected_row(sheet) == Some(
            ViewState::nearest_row(sheet, row),
        ) && ViewState::nearest_row(sheet, row) < sheet.len(),
        sheet.len() == 0 ==> view.at_row(sheet, row) == view,
{
}

/// After moving down by `count` rows in a sheet with rows, the selected row
/// is `count` below the one that was selected, or the last row where the
/// sheet ends before. In a sheet without rows nothing changes.
pub proof fn lemma_moved_down_row(view: ViewState, sheet: SheetView, count: usize)
    ensures
        sheet.len() > 0 ==> view.moved_down(sheet, count).selected_row(sheet) == Some(
            view.state_of(sheet).row_below(count, sheet.len()),
        ),
        view.state_of(sheet).row_below(count, sheet.len()) <= states::last_index(sheet.len()),
        view.state_of(sheet).row_or_zero() + count <= states::last_index(sheet.len())
            ==> view.state_of(sheet).row_below(count, sheet.len()) == view.state_of(
            sheet,
        ).row_or_zero() + count,
        sheet.len() == 0 ==> view.moved_down(sheet, count) == view,
        sheet.len() == 0 ==> view.moved_up(sheet, count) == view,
{
}

/// Going to the next sheet adds one, and starts over after the last.
pub proof fn lemma_next_index(index: int, count: int)
    requires
        0 <= index < count,
    ensures
        next_index(index, count) == (if index + 1 == count {
            0
        } else {
            index + 1
        }),
{
    if index + 1 == count {
        vstd::arithmetic::div_mod::lemma_mod_self_0(count);
    } else {
        vstd::arithmetic::div_mod::lemma_small_mod((index + 1) as nat, count as nat);
    }
}

/// Going to the previous sheet takes one away, and starts from the last
/// before the first.
pub proof fn lemma_previous_index(index: int, count: int)
    requires
        0 <= index < count,
    ensures
        previous_index(index, count) == (if index == 0 {
            count - 1
        } else {
            index - 1
        }),
{
    if index == 0 {
        vstd::arithmetic::div_mod::lemma_small_mod((count - 1) as nat, count as nat);
    } else {
        vstd::arithmetic::div_mod::lemma_mod_add_multiples_vanish(index - 1, count);
        vstd::arithmetic::div_mod::lemma_small_mod((index - 1) as nat, count as nat);
        assert(index + count - 1 == count + (index - 1));
    }
}

/// Going to the next sheet `steps` times adds `steps`, around the end.
pub proof fn lemma_next_index_times(index: int, count: int, steps: nat)
    requires
        0 <= index < count,
    ensures
        next_index_times(index, count, steps) == (index + steps) % count,
    decreases steps,
{
    if steps == 0 {
        vstd::arithmetic::div_mod::lemma_small_mod(index as nat, count as nat);
    } else {
        lemma_next_index_times(index, count, (steps - 1) as nat);
        let x = index + steps - 1;
        let q = x / count;
        let a = x % count;
        vstd::arithmetic::div_mod::lemma_fundamental_div_mod(x, count);
        vstd::arithmetic::div_mod::lemma_mod_bound(x, count);
        lemma_next_index(a, count);
        assert(count * q == q * count) by (nonlinear_arith);
        if a + 1 == count {
            assert(x + 1 == (q + 1) * count + 0) by (nonlinear_arith)
                requires
                    x == q * count + a,
                    a + 1 == count,
            ;
            vstd::arithmetic::div_mod::lemma_fundamental_div_mod_converse_mod(
                x + 1,
                count,
                q + 1,
                0,
            );
        } else {
            vstd::arithmetic::div_mod::lemma_fundamental_div_mod_converse_mod(
                x + 1,
                count,
                q,
                a + 1,
            );
        }
    }
}

/// Sheet cycling wraps: with `count` sheets, going to the next sheet `count`
/// times leads back to the sheet where it began.
pub proof fn lemma_next_sheet_cycle(index: int, count: int)
    requires
        0 <= index < count,
    ensures
        next_index_times(index, count, count as nat) == index,
{
    lemma_next_index_times(index, count, count as nat);
    vstd::arithmetic::div_mod::lemma_mod_add_multiples_vanish(index, count);
    vstd::arithmetic::div_mod::lemma_small_mod(index as nat, count as nat);
    assert(index + count == count + index);
}

/// The sheet before the next sheet, and the sheet after the previous one,
/// is the sheet itself.
pub proof fn lemma_next_previous(index: int, count: int)
    requires
        0 <= index < count,
    ensures
        previous_index(next_index(index, count), count) == index,
        next_index(previous_index(index, count), count) == index,
{
    lemma_next_index(index, count);
    lemma_previous_index(index, count);
    lemma_previous_index(next_index(index, count), count);
    lemma_next_index(previous_index(index, count), count);
}

impl View {
    /// Returns a new view: no sheet looked at yet, the main sheet selected.
    pub fn new() -> (r: View)
        ensures
            r@ == (ViewState { states: Map::empty(), selected_sheet: 0 }),
    {
        View { sheet_states: Vec::new(), selected_sheet: 0 }
    }

    /// Gets the selected sheet from the model. The index of the selected
    /// sheet is always that of a sheet.
    pub fn get_selected_sheet<'a>(&self, model: &'a Model) -> (r: &'a Sheet)
        requires
            self.selected_sheet < model@.count(),
        ensures
            r@ == model@.sheet(self.selected_sheet as int),
    {
        match model.get_sheet(self.selected_sheet) {
            Some(sheet) => sheet,
            None => {
                assert(false);
                &model.main_sheet
            },
        }
    }

    /// Finds the stored state of a given sheet, or creates a new state to
    /// track, as this is the first time the user looks at this sheet.
    pub fn get_state_of(&mut self, sheet: &Sheet) -> (r: &mut SheetState)
        ensures
            *r == old(self)@.state_of(sheet@),
            final(self)@ == old(self)@.with_state(sheet@, *final(r)),
            final(self).selected_sheet == old(self).selected_sheet,
    {
        let mut i: usize = 0;
        let mut found = false;
        while i < self.sheet_states.len() && !found
            invariant
                i <= self.sheet_states.len(),
                *self == *old(self),
                forall|j: int| 0 <= j < i ==> self.sheet_states@[j].name@ != sheet.name@,
                found ==> i < self.sheet_states.len() && self.sheet_states@[i as int].name@
                    == sheet.name@,
            decreases self.sheet_states.len() - i + (if found { 0int } else { 1int }),
        {
            if self.sheet_states[i].name == sheet.name {
                found = true;
            } else {
                i += 1;
            }
        }
        let ghost before = self.sheet_states@;
        if i == self.sheet_states.len() {
            let entry = StateEntry { name: sheet.name.clone(), state: SheetState::new(sheet) };
            proof {
                lemma_entries_absent(before, sheet.name@);
                lemma_entries_push(before, entry);
            }
            self.sheet_states.push(entry);
        } else {
            proof {
                lemma_entries_first(before, i as int, sheet.name@);
            }
        }
        let ghost entries = self.sheet_states@;
        proof {
            lemma_entries_first(entries, i as int, sheet.name@);
        }
        let state = &mut self.sheet_states[i].state;
        proof {
            let changed = entries.update(
                i as int,
                StateEntry { name: entries[i as int].name, state: *final(state) },
            );
            lemma_entries_update(entries, i as int, sheet.name@, changed);
            assert(entries_map(entries).insert(sheet.name@, *final(state)) =~= old(
                self,
            )@.states.insert(sheet.name@, *final(state)));
        }
        state
    }

    /// The selected cell of a sheet. Looking at the sheet gives it a state.
    pub fn get_selected_cell(&mut self, sheet: &Sheet) -> (r: Option<(usize, usize)>)
        ensures
            r == old(self)@.selected_cell(sheet@),
            final(self)@ == old(self)@.looked_at(sheet@),
    {
        let state = self.get_state_of(sheet);
        state.table_state.selected_cell()
    }

    /// The selected row of a sheet. Looking at the sheet gives it a state.
    pub fn get_selected_row(&mut self, sheet: &Sheet) -> (r: Option<usize>)
        ensures
            r == old(self)@.selected_row(sheet@),
            final(self)@ == old(self)@.looked_at(sheet@),
    {
        let state = self.get_state_of(sheet);
        state.table_state.selected()
    }

    /// Selects a row of the sheet: `row`, or the last row where the sheet
    /// ends before. In a sheet without rows nothing is selected, and the view
    /// stays as it is.
    pub fn select_row(&mut self, sheet: &Sheet, row: usize)
        ensures
            final(self)@ == old(self)@.at_row(sheet@, row),
            final(self).selected_sheet == old(self).selected_sheet,
    {
        let len = sheet.transactions.len();
        if len == 0 {
            return ;
        }
        let target = if row <= len - 1 {
            row
        } else {
            len - 1
        };
        self.get_state_of(sheet).scroll_to_row(target);
    }

    /// Scroll to the given row, counted from 1, or to the last row where
    /// the sheet ends before. A sheet without rows stays as it is.
    pub fn jump_to_row(&mut self, row: usize, model: &Model)
        requires
            old(self).selected_sheet < model@.count(),
        ensures
            final(self)@ == old(self)@.at_row(
                model@.sheet(old(self).selected_sheet as int),
                if row == 0 {
                    0
                } else {
                    (row - 1) as usize
                },
            ),
    {
        let sheet = self.get_selected_sheet(model);
        let target = if row == 0 {
            0
        } else {
            row - 1
        };
        self.select_row(sheet, target);
    }

    /// Scroll to the next row. A sheet without rows stays as it is.
    pub fn next_row(&mut self, model: &Model)
        requires
            old(self).selected_sheet < model@.count(),
        ensures
            final(self)@ == old(self)@.moved_down(model@.sheet(old(self).selected_sheet as int), 1),
    {
        self.down_by(1, model);
    }

    /// Scroll to the previous row. A sheet without rows stays as it is.
    pub fn previous_row(&mut self, model: &Model)
        requires
            old(self).selected_sheet < model@.count(),
        ensures
            final(self)@ == old(self)@.moved_up(model@.sheet(old(self).selected_sheet as int), 1),
    {
        self.up_by(1, model);
    }

    /// Scroll to the first row. A sheet without rows stays as it is.
    pub fn first_row(&mut self, model: &Model)
        requires
            old(self).selected_sheet < model@.count(),
        ensures
            final(self)@ == old(self)@.at_row(model@.sheet(old(self).selected_sheet as int), 0),
    {
        let sheet = self.get_selected_sheet(model);
        self.select_row(sheet, 0);
    }

    /// Scroll to the last row. A sheet without rows stays as it is.
    pub fn last_row(&mut self, model: &Model)
        requires
            old(self).selected_sheet < model@.count(),
        ensures
            final(self)@ == old(self)@.at_row(
                model@.sheet(old(self).selected_sheet as int),
                states::last_index(model@.sheet(old(self).selected_sheet as int).len()),
            ),
    {
        let sheet = self.get_selected_sheet(model);
        let len = sheet.transactions.len();
        let last = if len == 0 {
            0
        } else {
            len - 1
        };
        self.select_row(sheet, last);
    }

    /// Move the cursor to the next column.
    pub fn next_column(&mut self, model: &Model)
        requires
            old(self).selected_sheet < model@.count(),
        ensures
            final(self)@ == old(self)@.column_right(model@.sheet(old(self).selected_sheet as int)),
    {
        let sheet = self.get_selected_sheet(model);
        self.get_state_of(sheet).table_state.select_next_column();
    }

    /// Move the cursor to the previous column.
    pub fn previous_column(&mut self, model: &Model)
        requires
            old(self).selected_sheet < model@.count(),
        ensures
            final(self)@ == old(self)@.column_left(model@.sheet(old(self).selected_sheet as int)),
    {
        let sheet = self.get_selected_sheet(model);
        self.get_state_of(sheet).table_state.select_previous_column();
    }

    /// Scroll up by a count, stopping at the first row. A sheet without
    /// rows has nothing to scroll, and the view stays as it is.
    pub fn up_by(&mut self, count: usize, model: &Model)
        requires
            old(self).selected_sheet < model@.count(),
        ensures
            final(self)@ == old(self)@.moved_up(
                model@.sheet(old(self).selected_sheet as int),
                count,
            ),
    {
        let sheet = self.get_selected_sheet(model);
        let len = sheet.transactions.len();
        if len == 0 {
            return ;
        }
        let state = self.get_state_of(sheet);
        let base = match state.table_state.selected() {
            Some(r) => r,
            None => 0,
        };
        let above = if base >= count {
            base - count
        } else {
            0
        };
        let new = if above <= len - 1 {
            above
        } else {
            len - 1
        };
        state.scroll_to_row(new);
    }

    /// Scroll down by a count, stopping at the last row. A sheet without
    /// rows has nothing to scroll, and the view stays as it is.
    pub fn down_by(&mut self, count: usize, model: &Model)
        requires
            old(self).selected_sheet < model@.count(),
        ensures
            final(self)@ == old(self)@.moved_down(
                model@.sheet(old(self).selected_sheet as int),
                count,
            ),
    {
        let sheet = self.get_selected_sheet(model);
        let len = sheet.transactions.len();
        if len == 0 {
            return ;
        }
        let last = len - 1;
        let state = self.get_state_of(sheet);
        let base = match state.table_state.selected() {
            Some(r) => r,
            None => 0,
        };
        let new = if base > last || count > last - base {
            last
        } else {
            base + count
        };
        state.scroll_to_row(new);
    }

    /// Scroll up by half the screen, and by one row at least. A sheet
    /// without rows stays as it is.
    pub fn half_up(&mut self, model: &Model)
        requires
            old(self).selected_sheet < model@.count(),
        ensures
            final(self)@ == old(self)@.moved_up(
                model@.sheet(old(self).selected_sheet as int),
                old(self)@.state_of(model@.sheet(old(self).selected_sheet as int)).half_page(),
            ),
    {
        let sheet = self.get_selected_sheet(model);
        let len = sheet.transactions.len();
        if len == 0 {
            return ;
        }
        let state = self.get_state_of(sheet);
        let half = state.visible_row_num / 2;
        let count: usize = if half >= 1 {
            half as usize
        } else {
            1
        };
        let base = match state.table_state.selected() {
            Some(r) => r,
            None => 0,
        };
        let above = if base >= count {
            base - count
        } else {
            0
        };
        let new = if above <= len - 1 {
            above
        } else {
            len - 1
        };
        state.scroll_to_row(new);
    }

    /// Scroll down by half the screen, and by one row at least. A sheet
    /// without rows stays as it is.
    pub fn half_down(&mut self, model: &Model)
        requires
            old(self).selected_sheet < model@.count(),
        ensures
            final(self)@ == old(self)@.moved_down(
                model@.sheet(old(self).selected_sheet as int),
                old(self)@.state_of(model@.sheet(old(self).selected_sheet as int)).half_page(),
            ),
    {
        let sheet = self.get_selected_sheet(model);
        let len = sheet.transactions.len();
        if len == 0 {
            return ;
        }
        let last = len - 1;
        let state = self.get_state_of(sheet);
        let half = state.visible_row_num / 2;
        let count: usize = if half >= 1 {
            half as usize
        } else {
            1
        };
        let base = match state.table_state.selected() {
            Some(r) => r,
            None => 0,
        };
        let new = if base > last || count > last - base {
            last
        } else {
            base + count
        };
        state.scroll_to_row(new);
    }

    /// Gives up the selected cell of the selected sheet.
    pub fn deselect_cell(&mut self, model: &Model)
        requires
            old(self).selected_sheet < model@.count(),
        ensures
            final(self)@ == old(self)@.with_state(
                model@.sheet(old(self).selected_sheet as int),
                old(self)@.state_of(model@.sheet(old(self).selected_sheet as int)).without_cell(),
            ),
            final(self).selected_sheet == old(self).selected_sheet,
    {
        let sheet = self.get_selected_sheet(model);
        self.get_state_of(sheet).deselect_cell();
    }

    /// Switch to the next sheet; after the last comes the first.
    pub fn next_sheet(&mut self, model: &Model)
        requires
            model.wf(),
            old(self).selected_sheet < model@.count(),
        ensures
            final(self)@ == old(self)@.with_selected(
                next_index(old(self).selected_sheet as int, model@.count() as int) as usize,
            ),
            final(self).selected_sheet < model@.count(),
    {
        let count = model.sheet_count();
        proof {
            lemma_next_index(self.selected_sheet as int, count as int);
        }
        if self.selected_sheet + 1 == count {
            self.selected_sheet = 0;
        } else {
            self.selected_sheet = self.selected_sheet + 1;
        }
    }

    /// Switch to the previous sheet; before the first comes the last.
    pub fn previous_sheet(&mut self, model: &Model)
        requires
            model.wf(),
            old(self).selected_sheet < model@.count(),
        ensures
            final(self)@ == old(self)@.with_selected(
                previous_index(old(self).selected_sheet as int, model@.count() as int) as usize,
            ),
            final(self).selected_sheet < model@.count(),
    {
        let count = model.sheet_count();
        proof {
            lemma_previous_index(self.selected_sheet as int, count as int);
        }
        if self.selected_sheet == 0 {
            self.selected_sheet = count - 1;
        } else {
            self.selected_sheet = self.selected_sheet - 1;
        }
    }
}

} // verus!
