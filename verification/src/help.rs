//! The help menu: its table of key bindings grouped by screen, the flattened
//! list of rows shown on screen, the moving selection and the scrolling that
//! keeps the selected entry and its section header in view.

use vstd::prelude::*;

verus! {

/// One key binding with a short and a long description.
#[derive(Clone, Copy, Debug, PartialEq, Eq)]
pub struct HelpEntry {
    pub key: &'static str,
    pub desc: &'static str,
    pub detail: &'static str,
}

/// A titled group of key bindings.
#[derive(Debug)]
pub struct HelpGroup {
    pub title: &'static str,
    pub entries: Vec<HelpEntry>,
}

/// A group seen as a title and a sequence of entries.
pub struct HelpGroupView {
    pub title: &'static str,
    pub entries: Seq<HelpEntry>,
}

impl View for HelpGroup {
    type V = HelpGroupView;

    open spec fn view(&self) -> HelpGroupView {
        HelpGroupView { title: self.title, entries: self.entries@ }
    }
}

/// The selection in the help menu and the first visible row.
#[derive(Clone, Copy, Debug, PartialEq, Eq)]
pub struct HelpState {
    /// Index into the entries (headers excluded).
    pub selected: usize,
    /// Index into the rows of the first row shown.
    pub scroll_offset: usize,
}

/// A row of the help menu: a section header or one entry.
#[derive(Clone, Copy, Debug, PartialEq, Eq)]
pub enum HelpRow {
    Header(&'static str),
    Entry(HelpEntry),
}

pub open spec fn entry(key: &'static str, desc: &'static str, detail: &'static str) -> HelpEntry {
    HelpEntry { key, desc, detail }
}

/// The contents of the help menu.
pub open spec fn help_table() -> Seq<HelpGroupView> {
    seq![
        HelpGroupView {
            title: "Project List",
            entries: seq![
                entry("j/k, Ctrl-n/p", "Navigate", "Move the selection up or down the project list."),
                entry("Enter", "Details", "Expand or collapse details for the selected project."),
                entry("o", "Open", "Open the selected project in Unity."),
                entry("c", "Create", "Start the new project creation wizard."),
                entry("d", "Delete", "Delete the selected project, keeping its files on disk."),
                entry("D", "Delete w/ Dir", "Delete the selected project and its directory."),
                entry("e", "Editors", "Switch to the editor versions screen."),
                entry("r", "Refresh", "Reload the project list from disk."),
            ],
        },
        HelpGroupView {
            title: "Editor List",
            entries: seq![
                entry("j/k, Ctrl-n/p", "Navigate", "Move the selection up or down the editor list."),
                entry("i", "Install", "Install the selected Unity editor version."),
                entry("d", "Uninstall", "Uninstall the selected Unity editor version."),
                entry("Esc", "Back", "Return to the project list."),
            ],
        },
        HelpGroupView {
            title: "Dialogs & Input",
            entries: seq![
                entry("Enter", "Confirm", "Confirm the current dialog or input step."),
                entry("Esc", "Cancel", "Cancel the current dialog or input step."),
                entry("Tab", "Complete Path", "Autocomplete the currently highlighted path entry."),
                entry("Ctrl-v", "Paste", "Paste clipboard contents into the active input field."),
                entry("h/l", "Select Ok/Cancel", "Move focus between the Ok and Cancel buttons."),
            ],
        },
        HelpGroupView {
            title: "Global",
            entries: seq![
                entry("?", "Help", "Toggle this help menu."),
                entry("q", "Quit", "Quit the application."),
            ],
        },
    ]
}

/// Builds the help table.
pub fn help_groups() -> (r: Vec<HelpGroup>)
    ensures
        r@.map_values(|g: HelpGroup| g@) == help_table(),
{
    let r = vec![
        HelpGroup {
            title: "Project List",
            entries: vec![
                HelpEntry { key: "j/k, Ctrl-n/p", desc: "Navigate", detail: "Move the selection up or down the project list." },
                HelpEntry { key: "Enter", desc: "Details", detail: "Expand or collapse details for the selected project." },
                HelpEntry { key: "o", desc: "Open", detail: "Open the selected project in Unity." },
                HelpEntry { key: "c", desc: "Create", detail: "Start the new project creation wizard." },
                HelpEntry { key: "d", desc: "Delete", detail: "Delete the selected project, keeping its files on disk." },
                HelpEntry { key: "D", desc: "Delete w/ Dir", detail: "Delete the selected project and its directory." },
                HelpEntry { key: "e", desc: "Editors", detail: "Switch to the editor versions screen." },
                HelpEntry { key: "r", desc: "Refresh", detail: "Reload the project list from disk." },
            ],
        },
        HelpGroup {
            title: "Editor List",
            entries: vec![
                HelpEntry { key: "j/k, Ctrl-n/p", desc: "Navigate", detail: "Move the selection up or down the editor list." },
                HelpEntry { key: "i", desc: "Install", detail: "Install the selected Unity editor version." },
                HelpEntry { key: "d", desc: "Uninstall", detail: "Uninstall the selected Unity editor version." },
                HelpEntry { key: "Esc", desc: "Back", detail: "Return to the project list." },
            ],
        },
        HelpGroup {
            title: "Dialogs & Input",
            entries: vec![
                HelpEntry { key: "Enter", desc: "Confirm", detail: "Confirm the current dialog or input step." },
                HelpEntry { key: "Esc", desc: "Cancel", detail: "Cancel the current dialog or input step." },
                HelpEntry { key: "Tab", desc: "Complete Path", detail: "Autocomplete the currently highlighted path entry." },
                HelpEntry { key: "Ctrl-v", desc: "Paste", detail: "Paste clipboard contents into the active input field." },
                HelpEntry { key: "h/l", desc: "Select Ok/Cancel", detail: "Move focus between the Ok and Cancel buttons." },
            ],
        },
        HelpGroup {
            title: "Global",
            entries: vec![
                HelpEntry { key: "?", desc: "Help", detail: "Toggle this help menu." },
                HelpEntry { key: "q", desc: "Quit", detail: "Quit the application." },
            ],
        },
    ];
    assert(r@.map_values(|g: HelpGroup| g@) =~= help_table());
    r
}


/// The rows shown for a sequence of groups: each group's title as a header,
/// followed by one row per entry of the group.
pub open spec fn rows_of(groups: Seq<HelpGroupView>) -> Seq<HelpRow>
    decreases groups.len(),
{
    if groups.len() == 0 {
        seq![]
    } else {
        rows_of(groups.drop_last()) + seq![HelpRow::Header(groups.last().title)]
            + groups.last().entries.map_values(|e: HelpEntry| HelpRow::Entry(e))
    }
}

/// Positions, in order, of the entry rows (headers excluded).
pub open spec fn entry_positions(rows: Seq<HelpRow>) -> Seq<int>
    decreases rows.len(),
{
    if rows.len() == 0 {
        seq![]
    } else {
        let p = entry_positions(rows.drop_last());
        if rows.last() is Entry {
            p.push(rows.len() - 1)
        } else {
            p
        }
    }
}

/// Index of the header that owns row `i`: the last header at or before `i`,
/// or 0 where no header comes at or before `i`.
pub open spec fn owner(rows: Seq<HelpRow>, i: int) -> int
    decreases i,
{
    if i <= 0 {
        0
    } else if rows[i] is Header {
        i
    } else {
        owner(rows, i - 1)
    }
}

/// The number of entries in the help menu.
pub open spec fn help_entry_total() -> nat {
    entry_positions(rows_of(help_table())).len()
}

/// Flattens the help table into rows.
pub fn help_rows() -> (rows: Vec<HelpRow>)
    ensures
        rows@ == rows_of(help_table()),
{
    let groups = help_groups();
    let ghost gv = groups@.map_values(|g: HelpGroup| g@);
    let mut rows: Vec<HelpRow> = Vec::new();
    let n = groups.len();
    for gi in 0..n
        invariant
            n == groups@.len(),
            gv == groups@.map_values(|g: HelpGroup| g@),
            rows@ == rows_of(gv.take(gi as int)),
    {
        let group = &groups[gi];
        let ghost before = rows@;
        rows.push(HelpRow::Header(group.title));
        let m = group.entries.len();
        for ei in 0..m
            invariant
                m == group.entries@.len(),
                rows@ == before + seq![HelpRow::Header(group.title)]
                    + group.entries@.take(ei as int).map_values(|e: HelpEntry| HelpRow::Entry(e)),
        {
            rows.push(HelpRow::Entry(group.entries[ei]));
            assert(group.entries@.take(ei + 1).map_values(|e: HelpEntry| HelpRow::Entry(e))
                =~= group.entries@.take(ei as int).map_values(|e: HelpEntry| HelpRow::Entry(e)).push(
                HelpRow::Entry(group.entries@[ei as int])));
        }
        assert(group.entries@.take(m as int) =~= group.entries@);
        assert(gv.take(gi + 1).drop_last() =~= gv.take(gi as int));
        assert(gv.take(gi + 1).last() == group@);
    }
    assert(gv.take(n as int) =~= gv);
    rows
}

/// For each row, the index of the header that owns it.
pub fn owning_header_indices(rows: &[HelpRow]) -> (owners: Vec<usize>)
    ensures
        owners@.len() == rows@.len(),
        forall|i: int| 0 <= i < rows@.len() ==> owners@[i] == owner(rows@, i),
{
    let mut owners: Vec<usize> = Vec::new();
    let mut current_header: usize = 0;
    let n = rows.len();
    for i in 0..n
        invariant
            n == rows@.len(),
            owners@.len() == i,
            forall|k: int| 0 <= k < i ==> owners@[k] == owner(rows@, k),
            i > 0 ==> current_header == owner(rows@, i - 1),
            i == 0 ==> current_header == 0,
    {
        if let HelpRow::Header(_) = rows[i] {
            current_header = i;
        }
        owners.push(current_header);
    }
    owners
}

/// Positions of the entry rows among `rows`.
pub fn entry_row_positions(rows: &[HelpRow]) -> (positions: Vec<usize>)
    ensures
        positions@.len() == entry_positions(rows@).len(),
        forall|k: int| 0 <= k < positions@.len() ==> positions@[k] == entry_positions(rows@)[k],
{
    let mut positions: Vec<usize> = Vec::new();
    let n = rows.len();
    for i in 0..n
        invariant
            n == rows@.len(),
            positions@.len() == entry_positions(rows@.take(i as int)).len(),
            forall|k: int| 0 <= k < positions@.len() ==> positions@[k] == entry_positions(rows@.take(i as int))[k],
    {
        assert(rows@.take(i + 1).drop_last() =~= rows@.take(i as int));
        if let HelpRow::Entry(_) = rows[i] {
            positions.push(i);
        }
    }
    assert(rows@.take(n as int) =~= rows@);
    positions
}


/// Counting entries distributes over concatenation.
pub proof fn lemma_entry_count_append(a: Seq<HelpRow>, b: Seq<HelpRow>)
    ensures
        entry_positions(a + b).len() == entry_positions(a).len() + entry_positions(b).len(),
    decreases b.len(),
{
    if b.len() == 0 {
        assert(a + b =~= a);
    } else {
        lemma_entry_count_append(a, b.drop_last());
        assert((a + b).drop_last() =~= a + b.drop_last());
        assert((a + b).last() == b.last());
    }
}

proof fn lemma_entry_count_of_entries(es: Seq<HelpEntry>)
    ensures
        entry_positions(es.map_values(|e: HelpEntry| HelpRow::Entry(e))).len() == es.len(),
    decreases es.len(),
{
    if es.len() > 0 {
        lemma_entry_count_of_entries(es.drop_last());
        assert(es.map_values(|e: HelpEntry| HelpRow::Entry(e)).drop_last()
            =~= es.drop_last().map_values(|e: HelpEntry| HelpRow::Entry(e)));
    }
}

proof fn lemma_group_rows_count(groups: Seq<HelpGroupView>)
    requires
        groups.len() > 0,
    ensures
        entry_positions(rows_of(groups)).len() == entry_positions(rows_of(groups.drop_last())).len()
            + groups.last().entries.len(),
{
    let g = groups.last();
    let header = seq![HelpRow::Header(g.title)];
    let body = g.entries.map_values(|e: HelpEntry| HelpRow::Entry(e));
    lemma_entry_count_append(rows_of(groups.drop_last()) + header, body);
    lemma_entry_count_append(rows_of(groups.drop_last()), header);
    lemma_entry_count_of_entries(g.entries);
    assert(header.drop_last() =~= Seq::<HelpRow>::empty());
    assert(entry_positions(Seq::<HelpRow>::empty()).len() == 0);
    assert(header.last() == HelpRow::Header(g.title));
    assert(entry_positions(header).len() == 0);
    assert(rows_of(groups) == rows_of(groups.drop_last()) + header + body);
}

/// The help menu lists nineteen entries.
pub proof fn lemma_help_entry_total()
    ensures
        help_entry_total() == 19,
{
    let t = help_table();
    lemma_group_rows_count(t);
    lemma_group_rows_count(t.drop_last());
    lemma_group_rows_count(t.drop_last().drop_last());
    lemma_group_rows_count(t.drop_last().drop_last().drop_last());
    assert(t.drop_last().drop_last().drop_last().drop_last() =~= Seq::<HelpGroupView>::empty());
}

impl HelpState {
    /// The first entry is selected and the menu is scrolled to the top.
    pub fn new() -> (r: Self)
        ensures
            r.selected == 0,
            r.scroll_offset == 0,
    {
        Self { selected: 0, scroll_offset: 0 }
    }

    /// Moves the selection to the next entry (or the previous one), wrapping
    /// around at either end.
    pub fn move_selection(&mut self, next: bool)
        requires
            next ==> old(self).selected + 1 <= usize::MAX,
            !next ==> old(self).selected + help_entry_total() <= usize::MAX,
        ensures
            final(self).scroll_offset == old(self).scroll_offset,
            next ==> final(self).selected == (old(self).selected + 1) % (help_entry_total() as int),
            !next ==> final(self).selected == (old(self).selected + help_entry_total() - 1) % (help_entry_total() as int),
    {
        proof {
            lemma_help_entry_total();
        }
        let rows = help_rows();
        let positions = entry_row_positions(rows.as_slice());
        let entry_count = positions.len();
        if entry_count == 0 {
            return;
        }
        if next {
            self.selected = (self.selected + 1) % entry_count;
        } else {
            self.selected = (self.selected + entry_count - 1) % entry_count;
        }
    }
}

/// What part of the help menu is shown, as decided before drawing it.
#[derive(Clone, Copy, Debug, PartialEq, Eq)]
pub struct HelpLayout {
    /// Index of the first row drawn below the pinned header (if any).
    pub top: usize,
    /// How many rows are drawn from `top` on.
    pub body_height: usize,
    /// The header row drawn above the body when the body does not begin with one.
    pub pinned_header: Option<usize>,
    /// The row of the selected entry, if the selection names an entry.
    pub selected_row: Option<usize>,
}

/// The row to keep in view: that of the selected entry, or the first row.
pub open spec fn focus_row(rows: Seq<HelpRow>, selected: int) -> int {
    if 0 <= selected < entry_positions(rows).len() {
        entry_positions(rows)[selected]
    } else {
        0
    }
}

/// The scroll offset after the first adjustment: moved just enough for the
/// focus row to lie within `height` rows from it.
pub open spec fn first_scroll(focus: int, scroll: int, height: int) -> int {
    if focus < scroll {
        focus
    } else if focus >= scroll + height {
        focus + 1 - height
    } else {
        scroll
    }
}

/// Height left for the body below a pinned header.
pub open spec fn pinned_body(available: int) -> int {
    if available >= 1 { available - 1 } else { 0 }
}

/// The scroll offset once laid out: after the first adjustment, when the top
/// row is an entry, a line goes to its pinned section header, so the body is
/// one line shorter and the focus row must lie within it. The offset stays
/// on the last row where the adjustments would move it past the rows (the
/// last entry in a list area of fewer than two lines).
pub open spec fn final_scroll(rows: Seq<HelpRow>, selected: int, scroll: int, available: int) -> int {
    let focus = focus_row(rows, selected);
    let s1 = first_scroll(focus, scroll, available);
    let s2 = if s1 < rows.len() && !(rows[s1] is Header) && focus >= s1 + pinned_body(available) {
        focus + 1 - pinned_body(available)
    } else {
        s1
    };
    if s2 < rows.len() { s2 } else { rows.len() - 1 }
}

/// Whether a section header is pinned above the body: exactly when the first
/// row shown, once scrolled, is not a header.
pub open spec fn needs_pin(rows: Seq<HelpRow>, selected: int, scroll: int, available: int) -> bool {
    !(rows[final_scroll(rows, selected, scroll, available)] is Header)
}

/// How many rows are drawn below the pinned header, if any.
pub open spec fn body_rows(rows: Seq<HelpRow>, selected: int, scroll: int, available: int) -> int {
    if needs_pin(rows, selected, scroll, available) {
        pinned_body(available)
    } else {
        available
    }
}

/// Every entry position is a row.
proof fn lemma_entry_positions_in_range(rows: Seq<HelpRow>)
    ensures
        forall|k: int| 0 <= k < entry_positions(rows).len() ==>
            0 <= #[trigger] entry_positions(rows)[k] < rows.len(),
    decreases rows.len(),
{
    if rows.len() > 0 {
        let t = rows.drop_last();
        lemma_entry_positions_in_range(t);
        let p = entry_positions(t);
        assert forall|k: int| 0 <= k < entry_positions(rows).len() implies
            0 <= #[trigger] entry_positions(rows)[k] < rows.len() by {
            if k < p.len() {
                assert(entry_positions(rows)[k] == p[k]);
            }
        }
    }
}

/// The help menu has twenty-three rows, the first of them a header.
pub proof fn lemma_help_rows()
    ensures
        rows_of(help_table()).len() == 23,
        rows_of(help_table())[0] is Header,
{
    let t = help_table();
    let t3 = t.drop_last();
    let t2 = t3.drop_last();
    let t1 = t2.drop_last();
    assert(t1.drop_last() =~= Seq::<HelpGroupView>::empty());
    assert(rows_of(t1.drop_last()).len() == 0);
    assert(rows_of(t1)[0] == HelpRow::Header(t1.last().title));
    assert(rows_of(t2)[0] == rows_of(t1)[0]);
    assert(rows_of(t3)[0] == rows_of(t2)[0]);
    assert(rows_of(t)[0] == rows_of(t3)[0]);
}

/// The layout keeps the scroll among the rows; with at least two lines, the
/// first row drawn is at or before the focus row.
pub proof fn lemma_final_scroll_in_rows(selected: int, scroll: int, available: int)
    requires
        0 <= scroll,
        0 <= available,
    ensures
        ({
            let rows = rows_of(help_table());
            let top = final_scroll(rows, selected, scroll, available);
            &&& 0 <= focus_row(rows, selected) < rows.len()
            &&& 0 <= top < rows.len()
            &&& available >= 2 ==> top <= focus_row(rows, selected)
        }),
{
    let rows = rows_of(help_table());
    lemma_help_rows();
    lemma_entry_positions_in_range(rows);
    if 0 <= selected < entry_positions(rows).len() {
        assert(0 <= entry_positions(rows)[selected] < rows.len());
    }
}

impl HelpState {
    /// Scrolls the menu so that the selected entry is visible, pinning the
    /// section header of the first shown row when that row is an entry, and
    /// says which rows to draw in `available_height` lines.
    pub fn layout(&mut self, available_height: usize) -> (r: HelpLayout)
        ensures
            ({
                let rows = rows_of(help_table());
                let sel = old(self).selected as int;
                let scroll = old(self).scroll_offset as int;
                let pin = needs_pin(rows, sel, scroll, available_height as int);
                &&& final(self).selected == old(self).selected
                &&& final(self).scroll_offset == final_scroll(rows, sel, scroll, available_height as int)
                &&& final(self).scroll_offset < rows.len()
                &&& r.top == final(self).scroll_offset
                &&& r.body_height == body_rows(rows, sel, scroll, available_height as int)
                &&& r.pinned_header == (if pin { Some(owner(rows, r.top as int) as usize) } else { None })
                &&& r.selected_row == (if sel < entry_positions(rows).len() {
                    Some(entry_positions(rows)[sel] as usize) } else { None })
            }),
    {
        proof {
            lemma_final_scroll_in_rows(self.selected as int, self.scroll_offset as int, available_height as int);
            lemma_help_rows();
        }
        let rows = help_rows();
        let owners = owning_header_indices(rows.as_slice());
        let positions = entry_row_positions(rows.as_slice());
        let selected_row: Option<usize> = if self.selected < positions.len() {
            Some(positions[self.selected])
        } else {
            None
        };
        let focus: usize = match selected_row {
            Some(r) => r,
            None => 0,
        };
        let n = rows.len();
        if focus < self.scroll_offset {
            self.scroll_offset = focus;
        } else if focus - self.scroll_offset >= available_height {
            self.scroll_offset = focus + 1 - available_height;
        }
        let first = self.scroll_offset;
        let body = available_height.saturating_sub(1);
        if first < n {
            let first_is_entry = match rows[first] {
                HelpRow::Header(_) => false,
                HelpRow::Entry(_) => true,
            };
            if first_is_entry && focus >= first && focus - first >= body {
                self.scroll_offset = focus + 1 - body;
            }
        }
        if self.scroll_offset >= n {
            self.scroll_offset = n - 1;
        }
        let top = self.scroll_offset;
        let pin = match rows[top] {
            HelpRow::Header(_) => false,
            HelpRow::Entry(_) => true,
        };
        let body_height = if pin { body } else { available_height };
        let pinned_header = if pin { Some(owners[top]) } else { None };
        HelpLayout { top, body_height, pinned_header, selected_row }
    }
}


/// The entry selected after one move from `selected` among `total` entries.
pub open spec fn moved_selection(selected: int, total: int, next: bool) -> int {
    if next {
        (selected + 1) % total
    } else {
        (selected + total - 1) % total
    }
}

/// Moving the help selection always lands on an entry, and a move down
/// followed by a move up (or the reverse) comes back to the entry it left.
pub proof fn lemma_help_selection_round_trip(selected: int, next: bool)
    requires
        0 <= selected < help_entry_total(),
    ensures
        0 <= moved_selection(selected, help_entry_total() as int, next) < help_entry_total(),
        moved_selection(moved_selection(selected, help_entry_total() as int, next),
            help_entry_total() as int, !next) == selected,
{
    lemma_help_entry_total();
}

/// The owner of a row is a header at or before it, and no header lies
/// between the owner and the row, as long as the first row is a header.
pub proof fn lemma_owner_is_nearest_header(rows: Seq<HelpRow>, i: int)
    requires
        0 <= i < rows.len(),
        rows[0] is Header,
    ensures
        0 <= owner(rows, i) <= i,
        rows[owner(rows, i)] is Header,
        forall|k: int| owner(rows, i) < k <= i ==> !(#[trigger] rows[k] is Header),
    decreases i,
{
    if i > 0 && !(rows[i] is Header) {
        lemma_owner_is_nearest_header(rows, i - 1);
    }
}

/// Once laid out, the row of the selected entry lies among the rows drawn,
/// whenever at least two lines are available.
pub proof fn lemma_layout_shows_focus(selected: int, scroll: int, available: int)
    requires
        0 <= scroll,
        available >= 2,
    ensures
        ({
            let rows = rows_of(help_table());
            let top = final_scroll(rows, selected, scroll, available);
            top <= focus_row(rows, selected) < top + body_rows(rows, selected, scroll, available)
        }),
{
    lemma_final_scroll_in_rows(selected, scroll, available);
}

/// With at least two lines, laying the menu out again changes nothing: a
/// scroll that already shows the focus row (below the pinned header, when the
/// first row is an entry) is kept, and the scroll a layout leaves is such a
/// scroll.
pub proof fn lemma_layout_stable(selected: int, scroll: int, available: int)
    requires
        0 <= scroll,
        available >= 2,
    ensures
        ({
            let rows = rows_of(help_table());
            let h = available;
            let focus = focus_row(rows, selected);
            &&& scroll < rows.len() && scroll <= focus
                && focus < scroll + (if rows[scroll] is Header { h } else { h - 1 })
                ==> final_scroll(rows, selected, scroll, available) == scroll
            &&& final_scroll(rows, selected, final_scroll(rows, selected, scroll, available), available)
                == final_scroll(rows, selected, scroll, available)
        }),
{
    lemma_final_scroll_in_rows(selected, scroll, available);
}

/// The entry selected after `n` moves in the same direction from `selected`.
pub open spec fn moved_times(selected: int, next: bool, n: nat) -> int
    decreases n,
{
    if n == 0 {
        selected
    } else {
        moved_selection(moved_times(selected, next, (n - 1) as nat), help_entry_total() as int, next)
    }
}

proof fn lemma_moved_times_closed_form(selected: int, next: bool, n: nat)
    requires
        0 <= selected < 19,
        help_entry_total() == 19,
    ensures
        moved_times(selected, next, n) == (if next { (selected + n) % 19 } else { (selected - n) % 19 }),
    decreases n,
{
    if n > 0 {
        lemma_moved_times_closed_form(selected, next, (n - 1) as nat);
        let m = n - 1;
        if next {
            assert(((selected + m) % 19 + 1) % 19 == (selected + m + 1) % 19) by (nonlinear_arith);
        } else {
            assert(((selected - m) % 19 + 19 - 1) % 19 == (selected - m - 1) % 19) by (nonlinear_arith);
        }
    }
}

/// Moving the help selection stays on an entry, and as many moves in one
/// direction as there are entries bring it back to the entry it started on.
pub proof fn lemma_help_cycle(selected: int, next: bool, n: nat)
    requires
        0 <= selected < help_entry_total(),
    ensures
        0 <= moved_times(selected, next, n) < help_entry_total(),
        moved_times(selected, next, help_entry_total()) == selected,
{
    lemma_help_entry_total();
    lemma_moved_times_closed_form(selected, next, n);
    lemma_moved_times_closed_form(selected, next, 19);
    assert((selected + 19) % 19 == selected) by (nonlinear_arith)
        requires
            0 <= selected < 19,
    ;
    assert((selected - 19) % 19 == selected) by (nonlinear_arith)
        requires
            0 <= selected < 19,
    ;
}

} // verus!
