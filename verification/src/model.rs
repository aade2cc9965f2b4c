use crate::control::Effect;
use crate::date::{
    days_in_month, format_date, spec_days_in_month, spec_format_date, spec_shift_date,
    shift_stays_in_month, today, Date,
};
use crate::text::{buffer_of, spec_join, spec_split, join_lines, split_lines};
use crate::textbox::{
    apply_of, tb_apply, tb_empty, tb_from_lines, tb_lines, text_lines, KeyInput, TextBox,
};
use vstd::prelude::*;

verus! {

/// Whether the application keeps running or is done.
#[derive(Clone, Copy, Debug, PartialEq, Eq, Structural)]
pub enum RunningState {
    Running,
    Done,
}

/// The window that owns non-navigation keyboard input. Exactly one of the
/// three is ever active, because the focus is this single value.
#[derive(Clone, Copy, Debug, PartialEq, Eq, Structural)]
pub enum ActiveWindow {
    Menu,
    EditBox,
    TextPopup,
}

/// One entry of the menu listing: where its file lives and the name shown.
#[derive(Clone, Debug)]
pub struct MenuListing {
    pub path: String,
    pub filename: String,
}

impl MenuListing {
    pub fn new(path: String, filename: String) -> (r: MenuListing)
        ensures
            r == (MenuListing { path, filename }),
    {
        MenuListing { path, filename }
    }
}

/// The calendar overlay: whether it is shown, and the selected date.
struct CalendarState {
    enabled: bool,
    selected_date: Date,
}

/// The listing of the selected date's entries and the selected index,
/// `-1` when there is nothing to select.
pub struct MenuState {
    selected_file_idx: i64,
    listings: Vec<MenuListing>,
}

/// The whole application state: lifecycle, focus, calendar, listing and
/// the two text buffers. Mutated only through the methods below and read
/// by the renderer through the accessors.
pub struct ModelState<'a> {
    pub running_state: RunningState,
    active_window: ActiveWindow,
    calendar_state: CalendarState,
    menu_state: MenuState,
    pub editbox_textarea: TextBox<'a>,
    pub popup_textarea: TextBox<'a>,
}

/// Where a one-step selection move lands: one up or down from the current
/// selection, staying put at either end of the listing instead of wrapping.
pub open spec fn nav_step(len: int, sel: int, down: bool) -> int {
    let cand = if down {
        sel + 1
    } else {
        sel - 1
    };
    if 0 <= cand < len {
        cand
    } else {
        sel
    }
}

/// Where a whole sequence of one-step selection moves lands.
pub open spec fn nav_steps(len: int, sel: int, moves: Seq<bool>) -> int
    decreases moves.len(),
{
    if moves.len() == 0 {
        sel
    } else {
        nav_steps(len, nav_step(len, sel, moves[0]), moves.drop_first())
    }
}

/// Selection bound law: under every sequence of up and down moves, a
/// selection inside a non-empty listing stays inside it and never wraps,
/// and the empty listing's no-selection mark stays as it is.
pub proof fn lemma_selection_bounds(len: int, sel: int, moves: Seq<bool>)
    requires
        if len > 0 {
            0 <= sel < len
        } else {
            len == 0 && sel == -1
        },
    ensures
        if len > 0 {
            0 <= nav_steps(len, sel, moves) < len
        } else {
            nav_steps(len, sel, moves) == -1
        },
    decreases moves.len(),
{
    if moves.len() > 0 {
        lemma_selection_bounds(len, nav_step(len, sel, moves[0]), moves.drop_first());
    }
}

/// Focus exclusivity law: however the focus is set, exactly one of the
/// three windows is the active one.
pub proof fn lemma_focus_exclusive(w: ActiveWindow)
    ensures
        (if w is Menu {
            1int
        } else {
            0
        }) + (if w is EditBox {
            1int
        } else {
            0
        }) + (if w is TextPopup {
            1int
        } else {
            0
        }) == 1,
{
}

/// Index of the first listing entry with the given filename, `-1` when no
/// entry has it.
pub open spec fn find_by_name(entries: Seq<MenuListing>, name: Seq<char>) -> int
    decreases entries.len(),
{
    if entries.len() == 0 {
        -1
    } else if entries[0].filename@ == name {
        0
    } else {
        let r = find_by_name(entries.drop_first(), name);
        if r == -1 {
            -1
        } else {
            r + 1
        }
    }
}

proof fn lemma_find_at(entries: Seq<MenuListing>, name: Seq<char>, k: int)
    requires
        0 <= k <= entries.len(),
        forall|j: int| 0 <= j < k ==> (#[trigger] entries[j]).filename@ != name,
        k < entries.len() ==> entries[k].filename@ == name,
    ensures
        k < entries.len() ==> find_by_name(entries, name) == k,
        k == entries.len() ==> find_by_name(entries, name) == -1,
    decreases entries.len(),
{
    if entries.len() == 0 {
    } else if k == 0 {
    } else {
        let rest = entries.drop_first();
        assert forall|j: int| 0 <= j < k - 1 implies (#[trigger] rest[j]).filename@ != name by {
            assert(rest[j] == entries[j + 1]);
        }
        if k < entries.len() {
            assert(rest[k - 1] == entries[k]);
        }
        lemma_find_at(rest, name, k - 1);
        assert(entries[0].filename@ != name);
    }
}

/// The index a rebuild selects: the first entry with the asked-for name
/// when one is asked for and present, the first entry otherwise.
pub open spec fn refresh_target(entries: Seq<MenuListing>, select: Option<Seq<char>>) -> int {
    match select {
        Some(name) => if find_by_name(entries, name) >= 0 {
            find_by_name(entries, name)
        } else {
            0
        },
        None => 0,
    }
}

/// The directory that holds the entries of a date.
pub open spec fn spec_entry_dir(d: Date) -> Seq<char> {
    "entries/"@ + spec_format_date(d)
}

/// Write out the directory that holds the entries of a date.
pub fn entry_dir(d: Date) -> (r: String)
    requires
        d.valid(),
    ensures
        r@ == spec_entry_dir(d),
{
    let mut s = String::from_str("entries/");
    s.append(format_date(d).as_str());
    s
}

impl<'a> ModelState<'a> {
    pub closed spec fn lifecycle(self) -> RunningState {
        self.running_state
    }

    pub closed spec fn focus(self) -> ActiveWindow {
        self.active_window
    }

    pub closed spec fn editor_box(self) -> TextBox<'a> {
        self.editbox_textarea
    }

    pub closed spec fn prompt_box(self) -> TextBox<'a> {
        self.popup_textarea
    }

    pub closed spec fn cal_visible(self) -> bool {
        self.calendar_state.enabled
    }

    pub closed spec fn date(self) -> Date {
        self.calendar_state.selected_date
    }

    pub closed spec fn entries(self) -> Seq<MenuListing> {
        self.menu_state.listings@
    }

    pub closed spec fn sel(self) -> int {
        self.menu_state.selected_file_idx as int
    }

    pub open spec fn editor_lines(self) -> Seq<Seq<char>> {
        text_lines(self.editor_box())
    }

    pub open spec fn prompt_lines(self) -> Seq<Seq<char>> {
        text_lines(self.prompt_box())
    }

    /// The state's invariant: a valid selected date, a listing short enough
    /// to index, and a selection that is `-1` exactly when the listing is
    /// empty and inside the listing otherwise.
    pub open spec fn wf(self) -> bool {
        &&& self.date().valid()
        &&& self.entries().len() < 0x8000_0000
        &&& if self.entries().len() == 0 {
            self.sel() == -1
        } else {
            0 <= self.sel() < self.entries().len()
        }
    }

    pub open spec fn same_lifecycle(self, o: ModelState<'a>) -> bool {
        self.lifecycle() == o.lifecycle()
    }

    pub open spec fn same_focus(self, o: ModelState<'a>) -> bool {
        self.focus() == o.focus()
    }

    pub open spec fn same_calendar(self, o: ModelState<'a>) -> bool {
        self.cal_visible() == o.cal_visible() && self.date() == o.date()
    }

    pub open spec fn same_menu(self, o: ModelState<'a>) -> bool {
        self.entries() == o.entries() && self.sel() == o.sel()
    }

    pub open spec fn same_buffers(self, o: ModelState<'a>) -> bool {
        self.editor_box() == o.editor_box() && self.prompt_box() == o.prompt_box()
    }

    /// A fresh state on the given date: running, menu focused, calendar
    /// hidden, nothing listed, both buffers empty.
    pub fn new_on(today: Date) -> (r: ModelState<'a>)
        requires
            today.valid(),
        ensures
            r.wf(),
            r.lifecycle() == RunningState::Running,
            r.focus() == ActiveWindow::Menu,
            !r.cal_visible(),
            r.date() == today,
            r.entries().len() == 0,
            r.sel() == -1,
            r.editor_lines() == seq![Seq::<char>::empty()],
            r.prompt_lines() == seq![Seq::<char>::empty()],
    {
        ModelState {
            running_state: RunningState::Running,
            active_window: ActiveWindow::Menu,
            calendar_state: CalendarState { enabled: false, selected_date: today },
            menu_state: MenuState { selected_file_idx: -1, listings: Vec::new() },
            editbox_textarea: tb_empty(),
            popup_textarea: tb_empty(),
        }
    }

    pub fn done(&mut self) -> (b: bool)
        ensures
            *final(self) == *old(self),
            b == (old(self).lifecycle() == RunningState::Done),
    {
        self.running_state == RunningState::Done
    }

    pub fn terminate(&mut self)
        ensures
            final(self).lifecycle() == RunningState::Done,
            final(self).same_focus(*old(self)),
            final(self).same_calendar(*old(self)),
            final(self).same_menu(*old(self)),
            final(self).same_buffers(*old(self)),
    {
        self.running_state = RunningState::Done;
    }

    pub fn active_window(&self) -> (r: &ActiveWindow)
        ensures
            *r == self.focus(),
    {
        &self.active_window
    }

    pub fn switch_window(&mut self, window: ActiveWindow)
        ensures
            final(self).focus() == window,
            final(self).same_lifecycle(*old(self)),
            final(self).same_calendar(*old(self)),
            final(self).same_menu(*old(self)),
            final(self).same_buffers(*old(self)),
    {
        self.active_window = window;
    }

    pub fn num_menu_listings(&self) -> (n: usize)
        ensures
            n == self.entries().len(),
    {
        self.menu_state.listings.len()
    }

    /// The currently selected listing entry, when the listing is not empty.
    pub fn selected_listing(&self) -> (r: Option<&MenuListing>)
        requires
            self.wf(),
        ensures
            match r {
                Some(l) => self.entries().len() > 0 && *l == self.entries()[self.sel()],
                None => self.entries().len() == 0,
            },
    {
        if self.menu_state.listings.len() != 0 {
            Some(&self.menu_state.listings[self.menu_state.selected_file_idx as usize])
        } else {
            None
        }
    }

    pub fn clear_editbox(&mut self)
        ensures
            final(self).editor_lines() == seq![Seq::<char>::empty()],
            final(self).prompt_box() == old(self).prompt_box(),
            final(self).same_lifecycle(*old(self)),
            final(self).same_focus(*old(self)),
            final(self).same_calendar(*old(self)),
            final(self).same_menu(*old(self)),
    {
        self.editbox_textarea = tb_empty();
    }

    pub fn clear_popup_textarea(&mut self)
        ensures
            final(self).prompt_lines() == seq![Seq::<char>::empty()],
            final(self).editor_box() == old(self).editor_box(),
            final(self).same_lifecycle(*old(self)),
            final(self).same_focus(*old(self)),
            final(self).same_calendar(*old(self)),
            final(self).same_menu(*old(self)),
    {
        self.popup_textarea = tb_empty();
    }

    pub fn listings(&self) -> (r: &Vec<MenuListing>)
        ensures
            r@ == self.entries(),
    {
        &self.menu_state.listings
    }

    /// Ask for a different entry's file to be read, by index: an index
    /// outside the listing asks for nothing. The selection itself moves
    /// only when the content arrives at `load_selected_content`, so that a
    /// failed read leaves both the selection and the buffer untouched.
    pub fn update_selected_by_index(&mut self, new_idx: i64) -> (e: Effect)
        requires
            old(self).wf(),
        ensures
            final(self).wf(),
            *final(self) == *old(self),
            if 0 <= new_idx < old(self).entries().len() {
                e matches Effect::ReadEntry { index, path } && index == new_idx && path@ == old(
                    self,
                ).entries()[new_idx as int].path@
            } else {
                e is Done
            },
    {
        if 0 <= new_idx && new_idx < self.menu_state.listings.len() as i64 {
            let listing = &self.menu_state.listings[new_idx as usize];
            Effect::ReadEntry { index: new_idx as usize, path: listing.path.clone() }
        } else {
            Effect::Done
        }
    }

    /// Move the selection one entry down the listing, staying put at the
    /// last entry instead of wrapping.
    pub fn select_next_listing(&mut self) -> (e: Effect)
        requires
            old(self).wf(),
        ensures
            final(self).wf(),
            nav_post(*old(self), *final(self), e, true),
    {
        let idx = self.menu_state.selected_file_idx;
        self.update_selected_by_index(idx + 1)
    }

    /// Move the selection one entry up the listing, staying put at the
    /// first entry instead of wrapping.
    pub fn select_prev_listing(&mut self) -> (e: Effect)
        requires
            old(self).wf(),
        ensures
            final(self).wf(),
            nav_post(*old(self), *final(self), e, false),
    {
        let idx = self.menu_state.selected_file_idx;
        self.update_selected_by_index(idx - 1)
    }

    /// The index of the first listing entry with the given filename.
    fn find_index(&self, filename: &String) -> (r: Option<usize>)
        ensures
            match r {
                Some(i) => find_by_name(self.entries(), filename@) == i && i
                    < self.entries().len(),
                None => find_by_name(self.entries(), filename@) == -1,
            },
    {
        let ghost entries = self.menu_state.listings@;
        let mut i: usize = 0;
        while i < self.menu_state.listings.len()
            invariant
                entries == self.menu_state.listings@,
                i <= entries.len(),
                forall|j: int| 0 <= j < i ==> (#[trigger] entries[j]).filename@ != filename@,
            decreases entries.len() - i,
        {
            if self.menu_state.listings[i].filename == *filename {
                proof {
                    lemma_find_at(entries, filename@, i as int);
                }
                return Some(i);
            }
            i += 1;
        }
        proof {
            lemma_find_at(entries, filename@, entries.len() as int);
        }
        None
    }

    /// Ask for the file of the first entry with the given filename to be
    /// read, when one is there. As with selection by index, the selection
    /// itself moves only when the content arrives.
    pub fn update_selected_by_name(&mut self, filename: &String) -> (e: Effect)
        requires
            old(self).wf(),
        ensures
            final(self).wf(),
            *final(self) == *old(self),
            ({
                let f = find_by_name(old(self).entries(), filename@);
                if f >= 0 {
                    e matches Effect::ReadEntry { index, path } && index == f && path@ == old(
                        self,
                    ).entries()[f].path@
                } else {
                    e is Done
                }
            }),
    {
        match self.find_index(filename) {
            Some(i) => self.update_selected_by_index(i as i64),
            None => Effect::Done,
        }
    }

    pub fn selected_date(&self) -> (r: Date)
        ensures
            r == self.date(),
    {
        self.calendar_state.selected_date
    }

    /// Replace the listing wholesale with a fresh enumeration of the
    /// selected date's directory. `None` stands for a directory that could
    /// not be read. An empty result empties the listing, drops the
    /// selection and clears the editor; otherwise the asked-for entry (by
    /// name, falling back to the first) is selected and its file asked to
    /// be read.
    pub fn refresh_menu(&mut self, entries: Option<Vec<MenuListing>>, select: Option<&String>) -> (e:
        Effect)
        requires
            old(self).wf(),
            entries matches Some(v) ==> v@.len() < 0x8000_0000,
        ensures
            final(self).wf(),
            final(self).same_lifecycle(*old(self)),
            final(self).same_focus(*old(self)),
            final(self).same_calendar(*old(self)),
            final(self).prompt_box() == old(self).prompt_box(),
            ({
                let new_entries = match entries {
                    Some(v) => v@,
                    None => Seq::<MenuListing>::empty(),
                };
                let name = match select {
                    Some(n) => Some(n@),
                    None => None,
                };
                &&& final(self).entries() == new_entries
                &&& if new_entries.len() == 0 {
                    &&& final(self).sel() == -1
                    &&& final(self).editor_lines() == seq![Seq::<char>::empty()]
                    &&& e is Done
                } else {
                    &&& final(self).editor_box() == old(self).editor_box()
                    &&& final(self).sel() == refresh_target(new_entries, name)
                    &&& (e matches Effect::ReadEntry { index, path } && index == final(self).sel()
                        && path@ == new_entries[final(self).sel()].path@)
                }
            }),
    {
        let new_listings = match entries {
            Some(v) => v,
            None => Vec::new(),
        };
        self.menu_state.listings = new_listings;
        if self.menu_state.listings.len() == 0 {
            self.menu_state.selected_file_idx = -1;
            self.clear_editbox();
            Effect::Done
        } else {
            let target: usize = match select {
                Some(name) => match self.find_index(name) {
                    Some(i) => i,
                    None => 0,
                },
                None => 0,
            };
            self.menu_state.selected_file_idx = target as i64;
            let listing = &self.menu_state.listings[target];
            Effect::ReadEntry { index: target, path: listing.path.clone() }
        }
    }

    /// The first line of the filename prompt.
    pub fn popup_textarea_content(&self) -> (r: String)
        ensures
            r@ == self.prompt_lines()[0],
    {
        let lines = tb_lines(&self.popup_textarea);
        lines[0].clone()
    }

    /// The selected index as the renderer highlights it: `0` when nothing
    /// is selected.
    pub fn selected_file_idx(&self) -> (r: usize)
        requires
            self.wf(),
        ensures
            self.entries().len() > 0 ==> r == self.sel(),
            self.entries().len() == 0 ==> r == 0,
    {
        if self.menu_state.selected_file_idx >= 0 {
            self.menu_state.selected_file_idx as usize
        } else {
            0
        }
    }

    /// Ask for the selected entry's file to be overwritten with the editor
    /// buffer's lines, joined with a newline between each pair and none at
    /// the end.
    pub fn save_selected_file(&self) -> (e: Effect)
        requires
            self.wf(),
            self.entries().len() > 0,
        ensures
            e matches Effect::WriteEntry { path, content } && path@ == self.entries()[self.sel()].path@
                && content@ == spec_join(self.editor_lines()),
    {
        let lines = tb_lines(&self.editbox_textarea);
        let content = join_lines(&lines);
        let listing = &self.menu_state.listings[self.menu_state.selected_file_idx as usize];
        Effect::WriteEntry { path: listing.path.clone(), content }
    }

    /// The selected date written out as the date folder's name.
    pub fn selected_date_formatted(&self) -> (r: String)
        requires
            self.wf(),
        ensures
            r@ == spec_format_date(self.date()),
    {
        format_date(self.calendar_state.selected_date)
    }

    /// Ask for an empty entry file named by the prompt buffer to be
    /// created inside the selected date's directory. The state itself is
    /// untouched until the outcome comes back to `file_created`.
    pub fn save_new_file(&mut self) -> (e: Effect)
        requires
            old(self).wf(),
        ensures
            *final(self) == *old(self),
            e matches Effect::CreateEntry { dir, filename } && dir@ == spec_entry_dir(
                old(self).date(),
            ) && filename@ == old(self).prompt_lines()[0],
    {
        let dir = entry_dir(self.calendar_state.selected_date);
        let filename = self.popup_textarea_content();
        Effect::CreateEntry { dir, filename }
    }

    /// Take the outcome of creating a new entry file: on success the editor
    /// takes the focus and the listing is asked to be rebuilt with the new
    /// entry selected by name; a failure leaves the state exactly as it was.
    pub fn file_created(&mut self, created: bool) -> (e: Effect)
        requires
            old(self).wf(),
        ensures
            final(self).wf(),
            if created {
                &&& final(self).focus() == ActiveWindow::EditBox
                &&& final(self).same_lifecycle(*old(self))
                &&& final(self).same_calendar(*old(self))
                &&& final(self).same_menu(*old(self))
                &&& final(self).same_buffers(*old(self))
                &&& (e matches Effect::ListDir { dir, select } && dir@ == spec_entry_dir(
                    old(self).date(),
                ) && (select matches Some(n) && n@ == old(self).prompt_lines()[0]))
            } else {
                &&& *final(self) == *old(self)
                &&& e is Done
            },
    {
        if created {
            let dir = entry_dir(self.calendar_state.selected_date);
            let filename = self.popup_textarea_content();
            self.switch_window(ActiveWindow::EditBox);
            Effect::ListDir { dir, select: Some(filename) }
        } else {
            Effect::Done
        }
    }

    /// Take the outcome of reading the entry at the given index: its text
    /// moves the selection there and fills the editor buffer with the
    /// lines the text is read back as; a failed read (no text at all)
    /// leaves the selection and the buffer exactly as they were.
    pub fn load_selected_content(&mut self, index: usize, content: Option<String>)
        requires
            old(self).wf(),
        ensures
            final(self).wf(),
            final(self).same_lifecycle(*old(self)),
            final(self).same_focus(*old(self)),
            final(self).same_calendar(*old(self)),
            final(self).entries() == old(self).entries(),
            final(self).prompt_box() == old(self).prompt_box(),
            match content {
                Some(c) => if index < old(self).entries().len() {
                    &&& final(self).sel() == index
                    &&& final(self).editor_lines() == buffer_of(spec_split(c@))
                } else {
                    *final(self) == *old(self)
                },
                None => *final(self) == *old(self),
            },
    {
        match content {
            Some(c) => {
                if index < self.menu_state.listings.len() {
                    self.menu_state.selected_file_idx = index as i64;
                    let lines = split_lines(c.as_str());
                    self.editbox_textarea = tb_from_lines(lines);
                }
            },
            None => {},
        }
    }

    /// Feed one key into the editor buffer: the buffer afterwards holds
    /// exactly what editing the old buffer with this key gives.
    pub fn input_editbox(&mut self, input: KeyInput)
        ensures
            final(self).same_lifecycle(*old(self)),
            final(self).same_focus(*old(self)),
            final(self).same_calendar(*old(self)),
            final(self).same_menu(*old(self)),
            final(self).prompt_box() == old(self).prompt_box(),
            final(self).editor_lines() == apply_of(old(self).editor_box(), input),
            final(self).editor_lines().len() >= 1,
    {
        tb_apply(&mut self.editbox_textarea, input);
    }

    /// Feed one key into the filename prompt buffer: the buffer afterwards
    /// holds exactly what editing the old buffer with this key gives.
    pub fn input_popup(&mut self, input: KeyInput)
        ensures
            final(self).same_lifecycle(*old(self)),
            final(self).same_focus(*old(self)),
            final(self).same_calendar(*old(self)),
            final(self).same_menu(*old(self)),
            final(self).editor_box() == old(self).editor_box(),
            final(self).prompt_lines() == apply_of(old(self).prompt_box(), input),
            final(self).prompt_lines().len() >= 1,
    {
        tb_apply(&mut self.popup_textarea, input);
    }

    pub fn calendar_enabled(&self) -> (b: bool)
        ensures
            b == self.cal_visible(),
    {
        self.calendar_state.enabled
    }

    pub fn select_prev_day(&mut self) -> (e: Effect)
        requires
            old(self).wf(),
        ensures
            final(self).wf(),
            shift_post(*old(self), *final(self), e, -1),
    {
        self.update_date(-1)
    }

    pub fn select_next_day(&mut self) -> (e: Effect)
        requires
            old(self).wf(),
        ensures
            final(self).wf(),
            shift_post(*old(self), *final(self), e, 1),
    {
        self.update_date(1)
    }

    pub fn select_next_week(&mut self) -> (e: Effect)
        requires
            old(self).wf(),
        ensures
            final(self).wf(),
            shift_post(*old(self), *final(self), e, 7),
    {
        self.update_date(7)
    }

    pub fn select_prev_week(&mut self) -> (e: Effect)
        requires
            old(self).wf(),
        ensures
            final(self).wf(),
            shift_post(*old(self), *final(self), e, -7),
    {
        self.update_date(-7)
    }

    /// Shift the selected date by a whole number of days. A shift that
    /// would land in a different month is rejected and changes nothing at
    /// all; an accepted shift keeps the calendar shown and asks for the new
    /// date's listing.
    fn update_date(&mut self, offset_in_days: i64) -> (e: Effect)
        requires
            old(self).wf(),
            -31 <= offset_in_days <= 31,
        ensures
            final(self).wf(),
            shift_post(*old(self), *final(self), e, offset_in_days as int),
    {
        let cur = self.calendar_state.selected_date;
        let candidate: i64 = cur.day as i64 + offset_in_days;
        let len = days_in_month(cur.year, cur.month);
        if 1 <= candidate && candidate <= len as i64 {
            let nd = Date { year: cur.year, month: cur.month, day: candidate as u8 };
            self.calendar_state = CalendarState { enabled: true, selected_date: nd };
            Effect::ListDir { dir: entry_dir(nd), select: None }
        } else {
            Effect::Done
        }
    }

    pub fn toggle_calendar(&mut self)
        ensures
            final(self).cal_visible() == !old(self).cal_visible(),
            final(self).date() == old(self).date(),
            final(self).same_lifecycle(*old(self)),
            final(self).same_focus(*old(self)),
            final(self).same_menu(*old(self)),
            final(self).same_buffers(*old(self)),
    {
        self.calendar_state.enabled = !self.calendar_state.enabled;
    }
}

/// What a one-step selection move does: the state stays as it is, and
/// where the move lands one entry up or down without wrapping, that
/// entry's file is asked to be read — the selection itself moves when the
/// content arrives at `load_selected_content`, never on a failed read.
pub open spec fn nav_post<'a>(
    pre: ModelState<'a>,
    post: ModelState<'a>,
    e: Effect,
    down: bool,
) -> bool {
    let target = nav_step(pre.entries().len() as int, pre.sel(), down);
    &&& post == pre
    &&& if target != pre.sel() {
        e matches Effect::ReadEntry { index, path } && index == target && path@
            == pre.entries()[target].path@
    } else {
        e is Done
    }
}

/// What shifting the selected date by the given offset does: a shift that
/// leaves the month is rejected and changes nothing (the month-clamp law);
/// an accepted shift moves the date, keeps the calendar shown, and asks for
/// the new date's listing with the selection reset.
pub open spec fn shift_post<'a>(
    pre: ModelState<'a>,
    post: ModelState<'a>,
    e: Effect,
    off: int,
) -> bool {
    if shift_stays_in_month(pre.date(), off) {
        &&& post.date() == spec_shift_date(pre.date(), off)
        &&& post.cal_visible()
        &&& post.same_lifecycle(pre)
        &&& post.same_focus(pre)
        &&& post.same_menu(pre)
        &&& post.same_buffers(pre)
        &&& (e matches Effect::ListDir { dir, select } && dir@ == spec_entry_dir(post.date())
            && select is None)
    } else {
        &&& post == pre
        &&& e is Done
    }
}

impl<'a> Default for ModelState<'a> {
    /// A fresh state on today's date: running, menu focused, calendar
    /// hidden, nothing listed, both buffers empty.
    fn default() -> (r: Self)
        ensures
            r.wf(),
            r.lifecycle() == RunningState::Running,
            r.focus() == ActiveWindow::Menu,
            !r.cal_visible(),
            r.entries().len() == 0,
            r.sel() == -1,
            r.editor_lines() == seq![Seq::<char>::empty()],
            r.prompt_lines() == seq![Seq::<char>::empty()],
    {
        ModelState::new_on(today())
    }
}

} // verus!
