//! The dashboard's state and its transitions on keys and mouse events.
//!
//! `StateModel` is the state as mathematical values, and its spec functions
//! say what each event does to it. The methods of `TuiState` carry the
//! transitions out and are proved to end in the state that the model names.

use crate::pane::{PaneModel, PodPane, Scroll, MIN_PANE_HEIGHT};
use crate::shared::{RegistryModel, SharedState};
use crate::term::{KeyCode, KeyModifiers, MouseButton, MouseEvent, MouseEventKind, Rect};
use crate::text::{pop_char, push_char};
use vstd::hash_map::StringHashMap;
use vstd::prelude::*;

verus! {

/// The milliseconds within which a second click counts as a double click.
pub const DOUBLE_CLICK_MS: u64 = 400;

/// The lines that one step of the mouse wheel scrolls.
pub const WHEEL_STEP: usize = 3;

/// What a key press asks the driver to do.
#[derive(Debug)]
pub enum KeyAction {
    /// Leave the dashboard.
    Quit,
    /// Add the pattern and look for its pods.
    AddPattern(String),
    /// Nothing.
    Nothing,
}

/// What a key press asks the driver to do, as mathematical values.
pub enum ActionModel {
    Quit,
    AddPattern(Seq<char>),
    Nothing,
}

impl View for KeyAction {
    type V = ActionModel;

    open spec fn view(&self) -> ActionModel {
        match self {
            KeyAction::Quit => ActionModel::Quit,
            KeyAction::AddPattern(pattern) => ActionModel::AddPattern(pattern@),
            KeyAction::Nothing => ActionModel::Nothing,
        }
    }
}

/// The views of `panes`.
pub open spec fn panes_of(panes: Seq<PodPane>) -> Seq<PaneModel> {
    Seq::new(panes.len(), |i: int| panes[i]@)
}

/// The keys of `panes`.
pub open spec fn keys_of(panes: Seq<PaneModel>) -> Seq<Seq<char>> {
    Seq::new(panes.len(), |i: int| panes[i].key)
}

/// The map from each key to the index of the pane that has it. Where a key
/// stands twice, the later pane has it.
pub open spec fn index_map(keys: Seq<Seq<char>>) -> Map<Seq<char>, usize>
    decreases keys.len(),
{
    if keys.len() == 0 {
        Map::<Seq<char>, usize>::empty()
    } else {
        index_map(keys.drop_last()).insert(keys.last(), (keys.len() - 1) as usize)
    }
}

/// The most panes that one tab shows on `available_height` rows: as many as
/// fit at the minimum pane height, and at least one.
pub open spec fn per_tab(available_height: u16) -> int {
    if available_height / MIN_PANE_HEIGHT >= 1 {
        (available_height / MIN_PANE_HEIGHT) as int
    } else {
        1
    }
}

/// The number of tabs that `pane_count` panes take: at least one.
pub open spec fn tab_count(pane_count: int, available_height: u16) -> int {
    if pane_count <= 0 {
        1
    } else {
        (pane_count + per_tab(available_height) - 1) / per_tab(available_height)
    }
}

/// `x` as a `usize`, or the largest `usize` where `x` is beyond it.
pub open spec fn clip(x: int) -> usize {
    if x > usize::MAX {
        usize::MAX
    } else if x < 0 {
        0
    } else {
        x as usize
    }
}

/// The smaller of `a` and `b`.
pub open spec fn least(a: int, b: int) -> int {
    if a <= b {
        a
    } else {
        b
    }
}

/// The dashboard's state, as mathematical values.
pub struct StateModel {
    pub selected: usize,
    pub current_tab: usize,
    pub expanded: bool,
    pub input_mode: bool,
    pub input_buffer: Seq<char>,
    pub panes: Seq<PaneModel>,
    pub pane_index: Map<Seq<char>, usize>,
    pub pane_rects: Seq<(usize, Rect)>,
    pub tab_rects: Seq<(usize, Rect)>,
    pub last_click: Option<(usize, u64)>,
    pub mouse_captured: bool,
}

impl StateModel {
    /// The index map agrees with the pane list.
    pub open spec fn index_ok(self) -> bool {
        self.pane_index == index_map(keys_of(self.panes))
    }

    /// The index of the first pane of the current tab.
    pub open spec fn tab_start(self, available_height: u16) -> int {
        self.current_tab * per_tab(available_height)
    }

    /// The index behind the last pane of the current tab.
    pub open spec fn tab_end(self, available_height: u16) -> int {
        least(self.tab_start(available_height) + per_tab(available_height), self.panes.len() as int)
    }

    /// The last pane's index, or 0 without panes.
    pub open spec fn last_index(self) -> int {
        if self.panes.len() > 0 {
            self.panes.len() - 1
        } else {
            0
        }
    }

    /// The indices of the panes that are drawn: the selected pane alone when
    /// expanded, else the panes of the current tab.
    pub open spec fn visible(self, available_height: u16) -> Seq<usize> {
        if self.expanded {
            seq![self.selected]
        } else if self.tab_start(available_height) < self.tab_end(available_height) {
            Seq::new(
                (self.tab_end(available_height) - self.tab_start(available_height)) as nat,
                |k: int| (self.tab_start(available_height) + k) as usize,
            )
        } else {
            Seq::<usize>::empty()
        }
    }

    /// The state with the current tab moved to the one that holds the
    /// selected pane.
    pub open spec fn with_selected_visible(self, available_height: u16) -> StateModel {
        if self.panes.len() == 0 {
            StateModel { current_tab: 0, ..self }
        } else {
            StateModel {
                current_tab: least(
                    self.selected as int / per_tab(available_height),
                    tab_count(self.panes.len() as int, available_height) - 1,
                ) as usize,
                ..self
            }
        }
    }

    /// The state with one more pane at the end.
    pub open spec fn with_pane(self, pane: PaneModel) -> StateModel {
        StateModel {
            pane_index: self.pane_index.insert(pane.key, self.panes.len() as usize),
            panes: self.panes.push(pane),
            ..self
        }
    }

    /// The state with the index map built anew from the pane list.
    pub open spec fn reindexed(self) -> StateModel {
        StateModel { pane_index: index_map(keys_of(self.panes)), ..self }
    }

    /// The state with the view of the pane at `index` moved by `motion`, if
    /// there is such a pane.
    pub open spec fn with_pane_moved(self, index: usize, motion: Scroll, page_size: usize) -> StateModel {
        if index < self.panes.len() {
            StateModel {
                panes: self.panes.update(
                    index as int,
                    self.panes[index as int].moved(motion, page_size as int),
                ),
                ..self
            }
        } else {
            self
        }
    }

    /// The state after the selection moved to the next pane, wrapping round.
    pub open spec fn select_next(self, available_height: u16) -> StateModel {
        if self.panes.len() > 0 {
            StateModel {
                selected: ((self.selected + 1) % (self.panes.len() as int)) as usize,
                ..self
            }.with_selected_visible(available_height)
        } else {
            self
        }
    }

    /// The state after the selection moved to the pane before, wrapping
    /// round.
    pub open spec fn select_prev(self, available_height: u16) -> StateModel {
        if self.panes.len() > 0 {
            StateModel {
                selected: if self.selected >= 1 {
                    (self.selected - 1) as usize
                } else {
                    (self.panes.len() - 1) as usize
                },
                ..self
            }.with_selected_visible(available_height)
        } else {
            self
        }
    }

    /// The state after a step to the tab before: its first pane is selected.
    pub open spec fn prev_tab(self, available_height: u16) -> StateModel {
        if self.current_tab > 0 {
            StateModel {
                current_tab: (self.current_tab - 1) as usize,
                selected: clip((self.current_tab - 1) * per_tab(available_height)),
                ..self
            }
        } else {
            self
        }
    }

    /// The state after a step to the next tab: its first pane is selected.
    pub open spec fn next_tab(self, available_height: u16) -> StateModel {
        if self.current_tab + 1 < tab_count(self.panes.len() as int, available_height) {
            StateModel {
                current_tab: (self.current_tab + 1) as usize,
                selected: least(
                    clip((self.current_tab + 1) * per_tab(available_height)) as int,
                    self.last_index(),
                ) as usize,
                ..self
            }
        } else {
            self
        }
    }

    /// The state after the selected pane was closed: the pane is gone, the
    /// index map is rebuilt, and the selection stays on the same position
    /// or moves to the last pane.
    pub open spec fn without_selected(self, available_height: u16) -> StateModel {
        if self.selected < self.panes.len() {
            let panes = self.panes.remove(self.selected as int);
            StateModel {
                panes,
                pane_index: index_map(keys_of(panes)),
                selected: if panes.len() == 0 {
                    0
                } else {
                    least(self.selected as int, panes.len() - 1) as usize
                },
                ..self
            }.with_selected_visible(available_height)
        } else {
            self
        }
    }

    /// The state after every pane of the current tab was closed.
    pub open spec fn without_tab(self, available_height: u16) -> StateModel {
        let start = self.tab_start(available_height);
        let end = self.tab_end(available_height);
        if start < end {
            let panes = self.panes.subrange(0, start) + self.panes.subrange(
                end,
                self.panes.len() as int,
            );
            if panes.len() == 0 {
                StateModel {
                    panes,
                    pane_index: index_map(keys_of(panes)),
                    selected: 0,
                    current_tab: 0,
                    ..self
                }
            } else {
                let tab = least(
                    self.current_tab as int,
                    tab_count(panes.len() as int, available_height) - 1,
                );
                StateModel {
                    panes,
                    pane_index: index_map(keys_of(panes)),
                    current_tab: tab as usize,
                    selected: least(tab * per_tab(available_height), panes.len() - 1) as usize,
                    ..self
                }
            }
        } else {
            self
        }
    }

    /// The state after a key in normal mode.
    pub open spec fn after_key(self, code: KeyCode, page_size: usize, available_height: u16) -> StateModel {
        match code {
            KeyCode::Char(c) => if c == 'f' {
                StateModel { expanded: !self.expanded, ..self }
            } else if c == 'j' {
                self.select_next(available_height)
            } else if c == 'k' {
                self.select_prev(available_height)
            } else if c == 'm' {
                StateModel { mouse_captured: !self.mouse_captured, ..self }
            } else if c == 'a' {
                StateModel { input_mode: true, ..self }
            } else if c == 'd' {
                self.without_selected(available_height)
            } else if c == 'D' {
                self.without_tab(available_height)
            } else {
                self
            },
            KeyCode::Esc => StateModel { expanded: false, ..self },
            KeyCode::Left => self.prev_tab(available_height),
            KeyCode::Right => self.next_tab(available_height),
            KeyCode::Tab => self.select_next(available_height),
            KeyCode::BackTab => self.select_prev(available_height),
            KeyCode::Up => self.with_pane_moved(self.selected, Scroll::Up(1), page_size),
            KeyCode::Down => self.with_pane_moved(self.selected, Scroll::Down(1), page_size),
            KeyCode::PageUp => self.with_pane_moved(
                self.selected,
                Scroll::Up(page_size),
                page_size,
            ),
            KeyCode::PageDown => self.with_pane_moved(
                self.selected,
                Scroll::Down(page_size),
                page_size,
            ),
            KeyCode::Home => self.with_pane_moved(self.selected, Scroll::Home, page_size),
            KeyCode::End => self.with_pane_moved(self.selected, Scroll::End, page_size),
            _ => self,
        }
    }

    /// The state after a key in pattern-input mode.
    pub open spec fn after_input_key(self, code: KeyCode) -> StateModel {
        match code {
            KeyCode::Enter => if self.input_buffer.len() > 0 {
                StateModel { input_buffer: Seq::<char>::empty(), input_mode: false, ..self }
            } else {
                self
            },
            KeyCode::Esc => StateModel {
                input_buffer: Seq::<char>::empty(),
                input_mode: false,
                ..self
            },
            KeyCode::Backspace => if self.input_buffer.len() > 0 {
                StateModel { input_buffer: self.input_buffer.drop_last(), ..self }
            } else {
                self
            },
            KeyCode::Char(c) => StateModel { input_buffer: self.input_buffer.push(c), ..self },
            _ => self,
        }
    }

    /// What a key in pattern-input mode asks for: Enter commits a typed
    /// pattern.
    pub open spec fn input_action(self, code: KeyCode) -> ActionModel {
        if code == KeyCode::Enter && self.input_buffer.len() > 0 {
            ActionModel::AddPattern(self.input_buffer)
        } else {
            ActionModel::Nothing
        }
    }
}

/// Whether a key in normal mode quits: `q`, or `c` with Control.
pub open spec fn key_quits(code: KeyCode, modifiers: KeyModifiers) -> bool {
    code == KeyCode::Char('q') || (code == KeyCode::Char('c') && modifiers.control)
}

/// The shared state after the panes `keys[lo..hi]` were closed, the last
/// first.
pub open spec fn close_range(registry: RegistryModel, keys: Seq<Seq<char>>, lo: int, hi: int) -> RegistryModel
    decreases hi - lo,
{
    if lo < hi {
        close_range(registry.close(keys[hi - 1]), keys, lo, hi - 1)
    } else {
        registry
    }
}

/// The shared state after a key in normal mode: quitting clears the run
/// flag, and closing panes closes their pods.
pub open spec fn registry_after_key(
    registry: RegistryModel,
    state: StateModel,
    code: KeyCode,
    modifiers: KeyModifiers,
    available_height: u16,
) -> RegistryModel {
    if key_quits(code, modifiers) {
        registry.stop()
    } else if code == KeyCode::Char('d') && state.selected < state.panes.len() {
        registry.close(state.panes[state.selected as int].key)
    } else if code == KeyCode::Char('D') {
        close_range(
            registry,
            keys_of(state.panes),
            state.tab_start(available_height),
            state.tab_end(available_height),
        )
    } else {
        registry
    }
}

/// The dashboard's state: the panes, what is selected and shown, the text
/// being typed, and where the panes and tabs were last drawn.
pub struct TuiState {
    pub selected: usize,
    pub current_tab: usize,
    pub expanded: bool,
    pub input_mode: bool,
    pub input_buffer: String,
    pub panes: Vec<PodPane>,
    pub pane_index: StringHashMap<usize>,
    pub pane_rects: Vec<(usize, Rect)>,
    pub tab_rects: Vec<(usize, Rect)>,
    pub last_click: Option<(usize, u64)>,
    pub mouse_captured: bool,
}

impl View for TuiState {
    type V = StateModel;

    open spec fn view(&self) -> StateModel {
        StateModel {
            selected: self.selected,
            current_tab: self.current_tab,
            expanded: self.expanded,
            input_mode: self.input_mode,
            input_buffer: self.input_buffer@,
            panes: panes_of(self.panes@),
            pane_index: self.pane_index@,
            pane_rects: self.pane_rects@,
            tab_rects: self.tab_rects@,
            last_click: self.last_click,
            mouse_captured: self.mouse_captured,
        }
    }
}

/// `a * b`, or the largest `usize` where the product is beyond it.
pub fn clipped_product(a: usize, b: usize) -> (p: usize)
    ensures
        p == clip(a * b),
{
    assert(a * b <= u128::MAX) by (nonlinear_arith)
        requires
            0 <= a <= u64::MAX,
            0 <= b <= u64::MAX,
    ;
    let wide: u128 = (a as u128) * (b as u128);
    if wide > usize::MAX as u128 {
        usize::MAX
    } else {
        wide as usize
    }
}

impl TuiState {
    /// Every pane's buffer is within its bound.
    pub open spec fn wf(&self) -> bool {
        forall|i: int| 0 <= i < self.panes@.len() ==> (#[trigger] self.panes@[i]).wf()
    }

    /// Whether every pane's buffer is within its bound.
    pub fn is_wf(&self) -> (ok: bool)
        ensures
            ok == self.wf(),
    {
        let mut i: usize = 0;
        while i < self.panes.len()
            invariant
                i <= self.panes.len(),
                forall|k: int| 0 <= k < i ==> (#[trigger] self.panes@[k]).wf(),
            decreases self.panes.len() - i,
        {
            if self.panes[i].lines.len() > crate::pane::MAX_LOG_LINES {
                return false;
            }
            i += 1;
        }
        true
    }

    /// The state of a dashboard without panes: nothing expanded, no text
    /// typed, the mouse captured.
    pub open spec fn new_model() -> StateModel {
        StateModel {
            selected: 0,
            current_tab: 0,
            expanded: false,
            input_mode: false,
            input_buffer: Seq::<char>::empty(),
            panes: Seq::<PaneModel>::empty(),
            pane_index: Map::<Seq<char>, usize>::empty(),
            pane_rects: Seq::<(usize, Rect)>::empty(),
            tab_rects: Seq::<(usize, Rect)>::empty(),
            last_click: None,
            mouse_captured: true,
        }
    }

    /// The state of a dashboard without panes: nothing expanded, no text
    /// typed, the mouse captured.
    pub fn new() -> (state: TuiState)
        ensures
            state@ == TuiState::new_model(),
            state@.index_ok(),
            state.wf(),
    {
        let state = TuiState {
            selected: 0,
            current_tab: 0,
            expanded: false,
            input_mode: false,
            input_buffer: String::new(),
            panes: Vec::new(),
            pane_index: StringHashMap::new(),
            pane_rects: Vec::new(),
            tab_rects: Vec::new(),
            last_click: None,
            mouse_captured: true,
        };
        assert(panes_of(state.panes@) =~= Seq::<PaneModel>::empty());
        state
    }

    /// Adds `pane` at the end of the list and records its index under its
    /// key.
    pub fn add_pane(&mut self, pane: PodPane)
        requires
            old(self).panes@.len() < usize::MAX,
        ensures
            final(self)@ == old(self)@.with_pane(pane@),
            final(self).panes@ == old(self).panes@.push(pane),
            old(self)@.index_ok() ==> final(self)@.index_ok(),
            old(self).wf() && pane.wf() ==> final(self).wf(),
    {
        self.pane_index.insert(pane.key.clone(), self.panes.len());
        self.panes.push(pane);
        proof {
            assert(panes_of(self.panes@) =~= panes_of(old(self).panes@).push(pane@));
            let keys = keys_of(panes_of(self.panes@));
            assert(keys.drop_last() =~= keys_of(panes_of(old(self).panes@)));
        }
    }

    /// Builds the index map anew from the pane list.
    pub fn rebuild_index(&mut self)
        ensures
            final(self)@ == old(self)@.reindexed(),
            final(self).panes == old(self).panes,
            final(self)@.index_ok(),
    {
        self.pane_index.clear();
        let ghost keys = keys_of(panes_of(self.panes@));
        let mut i: usize = 0;
        while i < self.panes.len()
            invariant
                i <= self.panes.len(),
                self.panes == old(self).panes,
                self.selected == old(self).selected,
                self.current_tab == old(self).current_tab,
                self.expanded == old(self).expanded,
                self.input_mode == old(self).input_mode,
                self.input_buffer == old(self).input_buffer,
                self.pane_rects == old(self).pane_rects,
                self.tab_rects == old(self).tab_rects,
                self.last_click == old(self).last_click,
                self.mouse_captured == old(self).mouse_captured,
                keys == keys_of(panes_of(self.panes@)),
                self.pane_index@ == index_map(keys.take(i as int)),
            decreases self.panes.len() - i,
        {
            let key = self.panes[i].key.clone();
            self.pane_index.insert(key, i);
            proof {
                assert(keys.take(i + 1).drop_last() =~= keys.take(i as int));
            }
            i += 1;
        }
        assert(keys.take(i as int) =~= keys);
    }

    /// The most panes that one tab shows on `available_height` rows.
    pub fn max_panes_per_tab(&self, available_height: u16) -> (n: usize)
        ensures
            n == per_tab(available_height),
            1 <= n <= u16::MAX,
    {
        let fit: u16 = available_height / MIN_PANE_HEIGHT;
        if fit >= 1 {
            fit as usize
        } else {
            1
        }
    }

    /// The number of tabs that the panes take on `available_height` rows.
    pub fn total_tabs(&self, available_height: u16) -> (n: usize)
        ensures
            n == tab_count(self@.panes.len() as int, available_height),
            n >= 1,
    {
        if self.panes.len() == 0 {
            return 1;
        }
        let per: usize = self.max_panes_per_tab(available_height);
        let len: usize = self.panes.len();
        let full: usize = len / per;
        proof {
            let n = len as int;
            let p = per as int;
            assert(n % p != 0 ==> n / p < n) by (nonlinear_arith)
                requires
                    n >= 1,
                    p >= 1,
            ;
            assert((n + p - 1) / p == (if n % p == 0 {
                n / p
            } else {
                n / p + 1
            }) && (n + p - 1) / p >= 1) by (nonlinear_arith)
                requires
                    n >= 1,
                    p >= 1,
            ;
        }
        if len % per == 0 {
            full
        } else {
            full + 1
        }
    }
}

impl TuiState {
    /// The indices of the panes that are drawn: the selected pane alone when
    /// expanded, else the panes of the current tab.
    pub fn visible_indices(&self, available_height: u16) -> (indices: Vec<usize>)
        ensures
            indices@ == self@.visible(available_height),
    {
        let mut indices: Vec<usize> = Vec::new();
        if self.expanded {
            indices.push(self.selected);
            return indices;
        }
        let per: usize = self.max_panes_per_tab(available_height);
        let len: usize = self.panes.len();
        let start: usize = clipped_product(self.current_tab, per);
        if start >= len {
            return indices;
        }
        let end: usize = if per >= len - start { len } else { start + per };
        let mut i: usize = start;
        while i < end
            invariant
                start <= i <= end <= len,
                indices@.len() == i - start,
                forall|k: int| 0 <= k < i - start ==> indices@[k] == start + k,
            decreases end - i,
        {
            indices.push(i);
            i += 1;
        }
        indices
    }

    /// Moves the current tab to the one that holds the selected pane.
    pub fn ensure_selected_visible(&mut self, available_height: u16)
        ensures
            final(self)@ == old(self)@.with_selected_visible(available_height),
            final(self).panes == old(self).panes,
    {
        if self.panes.len() == 0 {
            self.current_tab = 0;
            return;
        }
        let per: usize = self.max_panes_per_tab(available_height);
        let total: usize = self.total_tabs(available_height);
        let tab: usize = self.selected / per;
        self.current_tab = if tab <= total - 1 { tab } else { total - 1 };
    }

    /// Moves the view of the pane at `index` by `motion`. Without such a
    /// pane nothing changes.
    pub fn scroll_pane(&mut self, index: usize, motion: Scroll, page_size: usize)
        ensures
            final(self)@ == old(self)@.with_pane_moved(index, motion, page_size),
            final(self).wf() == old(self).wf(),
            final(self).panes@.len() == old(self).panes@.len(),
    {
        if index < self.panes.len() {
            let pane = &mut self.panes[index];
            pane.scroll(motion, page_size);
            proof {
                assert(panes_of(self.panes@) =~= panes_of(old(self).panes@).update(
                    index as int,
                    old(self).panes@[index as int]@.moved(motion, page_size as int),
                ));
                if self.wf() {
                    assert forall|i: int| 0 <= i < old(self).panes@.len() implies
                        (#[trigger] old(self).panes@[i]).wf() by {
                        if i != index {
                            assert(self.panes@[i] == old(self).panes@[i]);
                        }
                    }
                }
            }
        }
    }

    /// Selects the next pane, wrapping round, and shows its tab.
    pub fn select_next(&mut self, available_height: u16)
        ensures
            final(self)@ == old(self)@.select_next(available_height),
            final(self).panes == old(self).panes,
    {
        let len: usize = self.panes.len();
        if len > 0 {
            let next: u128 = (self.selected as u128 + 1) % (len as u128);
            self.selected = next as usize;
            self.ensure_selected_visible(available_height);
        }
    }

    /// Selects the pane before, wrapping round, and shows its tab.
    pub fn select_prev(&mut self, available_height: u16)
        ensures
            final(self)@ == old(self)@.select_prev(available_height),
            final(self).panes == old(self).panes,
    {
        let len: usize = self.panes.len();
        if len > 0 {
            self.selected = if self.selected >= 1 { self.selected - 1 } else { len - 1 };
            self.ensure_selected_visible(available_height);
        }
    }

    /// Steps to the tab before and selects its first pane.
    pub fn prev_tab(&mut self, available_height: u16)
        ensures
            final(self)@ == old(self)@.prev_tab(available_height),
            final(self).panes == old(self).panes,
    {
        if self.current_tab > 0 {
            let per: usize = self.max_panes_per_tab(available_height);
            self.current_tab -= 1;
            self.selected = clipped_product(self.current_tab, per);
        }
    }

    /// Steps to the next tab, if there is one, and selects its first pane.
    pub fn next_tab(&mut self, available_height: u16)
        ensures
            final(self)@ == old(self)@.next_tab(available_height),
            final(self).panes == old(self).panes,
    {
        let total: usize = self.total_tabs(available_height);
        if self.current_tab < total - 1 {
            let per: usize = self.max_panes_per_tab(available_height);
            self.current_tab += 1;
            let first: usize = clipped_product(self.current_tab, per);
            let last: usize = if self.panes.len() > 0 { self.panes.len() - 1 } else { 0 };
            self.selected = if first <= last { first } else { last };
        }
    }

    /// Closes the selected pane: the pod is closed in the shared state, the
    /// pane leaves the list, and the selection stays in range.
    pub fn close_selected(&mut self, available_height: u16, shared: &mut SharedState)
        ensures
            final(self)@ == old(self)@.without_selected(available_height),
            old(self).selected < old(self).panes@.len() ==> final(shared)@ == old(shared)@.close(
                old(self)@.panes[old(self).selected as int].key,
            ),
            old(self).selected >= old(self).panes@.len() ==> final(shared)@ == old(shared)@,
            old(self).wf() ==> final(self).wf(),
            final(self)@.index_ok() || old(self).selected >= old(self).panes@.len(),
            final(self).panes@.len() <= old(self).panes@.len(),
    {
        if self.selected < self.panes.len() {
            let removed = self.panes.remove(self.selected);
            shared.close(removed.key.as_str());
            proof {
                assert(panes_of(self.panes@) =~= panes_of(old(self).panes@).remove(
                    old(self).selected as int,
                ));
            }
            self.rebuild_index();
            if self.panes.len() == 0 {
                self.selected = 0;
            } else if self.selected > self.panes.len() - 1 {
                self.selected = self.panes.len() - 1;
            }
            self.ensure_selected_visible(available_height);
        }
    }

    /// Closes every pane of the current tab.
    pub fn close_tab(&mut self, available_height: u16, shared: &mut SharedState)
        ensures
            final(self)@ == old(self)@.without_tab(available_height),
            final(shared)@ == close_range(
                old(shared)@,
                keys_of(old(self)@.panes),
                old(self)@.tab_start(available_height),
                old(self)@.tab_end(available_height),
            ),
            old(self).wf() ==> final(self).wf(),
            final(self).panes@.len() <= old(self).panes@.len(),
    {
        let per: usize = self.max_panes_per_tab(available_height);
        let len: usize = self.panes.len();
        let start: usize = clipped_product(self.current_tab, per);
        if start >= len {
            return;
        }
        let end: usize = if per >= len - start { len } else { start + per };
        let ghost keys = keys_of(old(self)@.panes);
        let ghost before = old(self).panes@;
        let mut k: usize = end;
        while k > start
            invariant
                start <= k <= end <= len,
                len == before.len(),
                before == old(self).panes@,
                keys == keys_of(panes_of(before)),
                self.panes@ == before.subrange(0, k as int) + before.subrange(
                    end as int,
                    len as int,
                ),
                self.selected == old(self).selected,
                self.current_tab == old(self).current_tab,
                self.expanded == old(self).expanded,
                self.input_mode == old(self).input_mode,
                self.input_buffer == old(self).input_buffer,
                self.pane_index == old(self).pane_index,
                self.pane_rects == old(self).pane_rects,
                self.tab_rects == old(self).tab_rects,
                self.last_click == old(self).last_click,
                self.mouse_captured == old(self).mouse_captured,
                close_range(shared@, keys, start as int, k as int) == close_range(
                    old(shared)@,
                    keys,
                    start as int,
                    end as int,
                ),
            decreases k,
        {
            k -= 1;
            let removed = self.panes.remove(k);
            shared.close(removed.key.as_str());
        }
        proof {
            assert(panes_of(self.panes@) =~= panes_of(before).subrange(0, start as int)
                + panes_of(before).subrange(end as int, len as int));
        }
        self.rebuild_index();
        if self.panes.len() == 0 {
            self.selected = 0;
            self.current_tab = 0;
        } else {
            let total: usize = self.total_tabs(available_height);
            if self.current_tab > total - 1 {
                self.current_tab = total - 1;
            }
            let first: usize = clipped_product(self.current_tab, per);
            let last: usize = self.panes.len() - 1;
            self.selected = if first <= last { first } else { last };
        }
    }

    /// Handles a key while a pattern is typed. Enter commits a typed
    /// pattern and leaves the mode; Escape drops the text and leaves the
    /// mode; Backspace and characters edit the text.
    pub fn handle_input_key(&mut self, code: KeyCode) -> (action: KeyAction)
        ensures
            final(self)@ == old(self)@.after_input_key(code),
            action@ == old(self)@.input_action(code),
            final(self).panes == old(self).panes,
    {
        match code {
            KeyCode::Enter => {
                if self.input_buffer.as_str().unicode_len() > 0 {
                    let pattern = self.input_buffer.clone();
                    self.input_buffer = String::new();
                    self.input_mode = false;
                    return KeyAction::AddPattern(pattern);
                }
            },
            KeyCode::Esc => {
                self.input_buffer = String::new();
                self.input_mode = false;
            },
            KeyCode::Backspace => {
                let _ = pop_char(&mut self.input_buffer);
            },
            KeyCode::Char(c) => {
                push_char(&mut self.input_buffer, c);
            },
            _ => {},
        }
        KeyAction::Nothing
    }

    /// Handles a key in normal mode: quit, expand and collapse, tabs,
    /// selection, scrolling, mouse capture, pattern input, and closing the
    /// selected pane or the whole tab.
    pub fn handle_key(
        &mut self,
        code: KeyCode,
        modifiers: KeyModifiers,
        page_size: usize,
        available_height: u16,
        shared: &mut SharedState,
    ) -> (action: KeyAction)
        ensures
            final(self)@ == old(self)@.after_key(code, page_size, available_height),
            final(shared)@ == registry_after_key(
                old(shared)@,
                old(self)@,
                code,
                modifiers,
                available_height,
            ),
            action@ == if key_quits(code, modifiers) {
                ActionModel::Quit
            } else {
                ActionModel::Nothing
            },
            old(self).wf() ==> final(self).wf(),
            final(self).panes@.len() <= old(self).panes@.len(),
    {
        match code {
            KeyCode::Char(c) => {
                if c == 'q' || (c == 'c' && modifiers.control) {
                    shared.stop();
                    return KeyAction::Quit;
                } else if c == 'f' {
                    self.expanded = !self.expanded;
                } else if c == 'j' {
                    self.select_next(available_height);
                } else if c == 'k' {
                    self.select_prev(available_height);
                } else if c == 'm' {
                    self.mouse_captured = !self.mouse_captured;
                } else if c == 'a' {
                    self.input_mode = true;
                } else if c == 'd' {
                    self.close_selected(available_height, shared);
                } else if c == 'D' {
                    self.close_tab(available_height, shared);
                }
            },
            KeyCode::Esc => {
                self.expanded = false;
            },
            KeyCode::Left => self.prev_tab(available_height),
            KeyCode::Right => self.next_tab(available_height),
            KeyCode::Tab => self.select_next(available_height),
            KeyCode::BackTab => self.select_prev(available_height),
            KeyCode::Up => self.scroll_pane(self.selected, Scroll::Up(1), page_size),
            KeyCode::Down => self.scroll_pane(self.selected, Scroll::Down(1), page_size),
            KeyCode::PageUp => self.scroll_pane(self.selected, Scroll::Up(page_size), page_size),
            KeyCode::PageDown => self.scroll_pane(
                self.selected,
                Scroll::Down(page_size),
                page_size,
            ),
            KeyCode::Home => self.scroll_pane(self.selected, Scroll::Home, page_size),
            KeyCode::End => self.scroll_pane(self.selected, Scroll::End, page_size),
            _ => {},
        }
        KeyAction::Nothing
    }
}

/// The first index at or after `i` whose rectangle covers the cell, or the
/// length.
pub open spec fn hit_from(rects: Seq<(usize, Rect)>, col: u16, row: u16, i: int) -> int
    decreases rects.len() - i,
{
    if 0 <= i < rects.len() && !rects[i].1.covers(col, row) {
        hit_from(rects, col, row, i + 1)
    } else {
        i
    }
}

/// The first of `rects` that covers the cell, with the index it was drawn
/// for.
pub open spec fn hit(rects: Seq<(usize, Rect)>, col: u16, row: u16) -> Option<(usize, Rect)> {
    if 0 <= hit_from(rects, col, row, 0) < rects.len() {
        Some(rects[hit_from(rects, col, row, 0)])
    } else {
        None
    }
}

/// The column of the scrollbar: the last column of the pane.
pub open spec fn scrollbar_col(rect: Rect) -> int {
    rect.x + rect.width - 1
}

/// Whether `col` is in the hit zone of the scrollbar: its column and the
/// one before.
pub open spec fn on_scrollbar(rect: Rect, col: u16) -> bool {
    col >= scrollbar_col(rect) - 1
}

/// The rows inside the border of a pane.
pub open spec fn inner_rows(rect: Rect) -> int {
    if rect.height > 2 {
        rect.height - 2
    } else {
        0
    }
}

/// Whether a click on pane `index` at time `now` is the second of a double
/// click.
pub open spec fn is_double(last_click: Option<(usize, u64)>, index: usize, now: u64) -> bool {
    match last_click {
        Some((previous, at)) => previous == index && now - at < DOUBLE_CLICK_MS,
        None => false,
    }
}

impl PaneModel {
    /// The pane after a click or drag on the scrollbar at `col`, `row`: the
    /// offset is set in proportion to the row within the pane. Outside the
    /// hit zone nothing changes.
    pub open spec fn jumped(self, col: u16, row: u16, rect: Rect) -> PaneModel {
        let top = rect.y + 1;
        let rows = inner_rows(rect);
        if on_scrollbar(rect, col) && top <= row < top + rows {
            let limit = self.tail_offset(rows);
            let target = ((row - top) * limit) / rows;
            if target >= limit {
                PaneModel { scroll_up: None, ..self }
            } else {
                PaneModel { scroll_up: Some(target as usize), ..self }
            }
        } else {
            self
        }
    }
}

impl StateModel {
    /// The state with the pane at `index` jumped to the scrollbar position,
    /// if there is such a pane.
    pub open spec fn with_pane_jumped(self, index: usize, col: u16, row: u16, rect: Rect) -> StateModel {
        if index < self.panes.len() {
            StateModel {
                panes: self.panes.update(
                    index as int,
                    self.panes[index as int].jumped(col, row, rect),
                ),
                ..self
            }
        } else {
            self
        }
    }

    /// The state after a click on the label of tab `tab`: the tab is shown
    /// and its first pane selected.
    pub open spec fn on_tab(self, tab: usize, available_height: u16) -> StateModel {
        StateModel {
            current_tab: tab,
            selected: least(
                clip(tab * per_tab(available_height)) as int,
                self.last_index(),
            ) as usize,
            ..self
        }
    }

    /// The state after a mouse event on the pane `index` drawn at `rect`.
    pub open spec fn on_pane(self, index: usize, rect: Rect, mouse: MouseEvent, now: u64) -> StateModel {
        match mouse.kind {
            MouseEventKind::ScrollUp => StateModel { selected: index, ..self }.with_pane_moved(
                index,
                Scroll::Up(WHEEL_STEP),
                inner_rows(rect) as usize,
            ),
            MouseEventKind::ScrollDown => StateModel { selected: index, ..self }.with_pane_moved(
                index,
                Scroll::Down(WHEEL_STEP),
                inner_rows(rect) as usize,
            ),
            MouseEventKind::Down(MouseButton::Left) => if is_double(self.last_click, index, now) {
                StateModel { selected: index, expanded: !self.expanded, last_click: None, ..self }
            } else {
                StateModel {
                    selected: index,
                    last_click: Some((index, now)),
                    ..self
                }.with_pane_jumped(index, mouse.column, mouse.row, rect)
            },
            MouseEventKind::Drag(MouseButton::Left) => self.with_pane_jumped(
                index,
                mouse.column,
                mouse.row,
                rect,
            ),
            _ => self,
        }
    }

    /// The state after a mouse event at time `now`. A left click on a tab
    /// label switches tabs; every other event goes to the pane under the
    /// mouse, if there is one.
    pub open spec fn after_mouse(self, mouse: MouseEvent, now: u64, available_height: u16) -> StateModel {
        match hit(self.tab_rects, mouse.column, mouse.row) {
            Some((tab, _)) if mouse.kind == MouseEventKind::Down(MouseButton::Left) => self.on_tab(
                tab,
                available_height,
            ),
            _ => match hit(self.pane_rects, mouse.column, mouse.row) {
                Some((index, rect)) => self.on_pane(index, rect, mouse, now),
                None => self,
            },
        }
    }
}

/// The first of `rects` that covers the cell at `col`, `row`.
pub fn find_hit(rects: &Vec<(usize, Rect)>, col: u16, row: u16) -> (found: Option<(usize, Rect)>)
    ensures
        found == hit(rects@, col, row),
{
    let mut i: usize = 0;
    while i < rects.len() && !rects[i].1.contains(col, row)
        invariant
            i <= rects.len(),
            hit_from(rects@, col, row, i as int) == hit_from(rects@, col, row, 0),
        decreases rects.len() - i,
    {
        i += 1;
    }
    if i < rects.len() {
        Some(rects[i])
    } else {
        None
    }
}

impl TuiState {
    /// Sets the pane's offset from a click or drag on its scrollbar: in
    /// proportion to the row within the pane drawn at `rect`. The bottom of
    /// the bar resumes following the tail. Outside the scrollbar's hit zone
    /// nothing changes.
    pub fn scroll_to_scrollbar_pos(col: u16, row: u16, rect: &Rect, pane: &mut PodPane)
        ensures
            final(pane)@ == old(pane)@.jumped(col, row, *rect),
            final(pane).key == old(pane).key,
            final(pane).lines == old(pane).lines,
    {
        let bar: u32 = rect.x as u32 + rect.width as u32;
        if (col as u32) + 2 < bar {
            return;
        }
        let top: u32 = rect.y as u32 + 1;
        let rows: u32 = if rect.height > 2 { (rect.height - 2) as u32 } else { 0 };
        if (row as u32) >= top && (row as u32) < top + rows {
            let click: u128 = ((row as u32) - top) as u128;
            let len: usize = pane.lines.len();
            let limit: usize = if len > rows as usize { len - rows as usize } else { 0 };
            assert(click * limit <= u128::MAX && (click * limit) / (rows as int) <= limit)
                by (nonlinear_arith)
                requires
                    0 <= click < rows,
                    rows <= u16::MAX,
                    0 <= limit <= u64::MAX,
            ;
            let target: u128 = (click * (limit as u128)) / (rows as u128);
            if target >= limit as u128 {
                pane.scroll_up = None;
            } else {
                pane.scroll_up = Some(target as usize);
            }
        }
    }

    /// Jumps the pane at `index` to the scrollbar position of a click or
    /// drag. Without such a pane nothing changes.
    pub fn jump_pane(&mut self, index: usize, col: u16, row: u16, rect: &Rect)
        ensures
            final(self)@ == old(self)@.with_pane_jumped(index, col, row, *rect),
            old(self).wf() ==> final(self).wf(),
            final(self).panes@.len() == old(self).panes@.len(),
    {
        if index < self.panes.len() {
            let pane = &mut self.panes[index];
            TuiState::scroll_to_scrollbar_pos(col, row, rect, pane);
            proof {
                assert(panes_of(self.panes@) =~= panes_of(old(self).panes@).update(
                    index as int,
                    old(self).panes@[index as int]@.jumped(col, row, *rect),
                ));
            }
        }
    }

    /// Handles a mouse event that arrived at `now_ms` milliseconds. The
    /// wheel scrolls the pane under the mouse; a click selects it and, on
    /// its scrollbar, jumps to that position; a second click on the same
    /// pane within the double-click time expands or collapses it instead;
    /// dragging on the scrollbar keeps jumping; a click on a tab label
    /// switches to that tab.
    pub fn handle_mouse(&mut self, mouse: MouseEvent, now_ms: u64, available_height: u16)
        ensures
            final(self)@ == old(self)@.after_mouse(mouse, now_ms, available_height),
            old(self).wf() ==> final(self).wf(),
            final(self).panes@.len() == old(self).panes@.len(),
    {
        let col: u16 = mouse.column;
        let row: u16 = mouse.row;
        let is_click: bool = match mouse.kind {
            MouseEventKind::Down(MouseButton::Left) => true,
            _ => false,
        };
        if is_click {
            if let Some((tab, _)) = find_hit(&self.tab_rects, col, row) {
                let per: usize = self.max_panes_per_tab(available_height);
                let first: usize = clipped_product(tab, per);
                let last: usize = if self.panes.len() > 0 { self.panes.len() - 1 } else { 0 };
                self.current_tab = tab;
                self.selected = if first <= last { first } else { last };
                return;
            }
        }
        let (index, rect) = match find_hit(&self.pane_rects, col, row) {
            Some(found) => found,
            None => {
                return;
            },
        };
        let inner: usize = if rect.height > 2 { (rect.height - 2) as usize } else { 0 };
        match mouse.kind {
            MouseEventKind::ScrollUp => {
                self.selected = index;
                self.scroll_pane(index, Scroll::Up(WHEEL_STEP), inner);
            },
            MouseEventKind::ScrollDown => {
                self.selected = index;
                self.scroll_pane(index, Scroll::Down(WHEEL_STEP), inner);
            },
            MouseEventKind::Down(MouseButton::Left) => {
                let double: bool = match self.last_click {
                    Some((previous, at)) => previous == index && (now_ms < at || now_ms - at
                        < DOUBLE_CLICK_MS),
                    None => false,
                };
                self.selected = index;
                if double {
                    self.expanded = !self.expanded;
                    self.last_click = None;
                } else {
                    self.last_click = Some((index, now_ms));
                    self.jump_pane(index, col, row, &rect);
                }
            },
            MouseEventKind::Drag(MouseButton::Left) => {
                self.jump_pane(index, col, row, &rect);
            },
            _ => {},
        }
    }
}

/// Two clicks on the same pane toggle the expanded mode exactly when the
/// second comes within the double-click time of the first: a second click
/// that comes later, or that lands on another pane, leaves the mode as it
/// was.
pub proof fn law_double_click_toggles(
    state: StateModel,
    first: MouseEvent,
    second: MouseEvent,
    at_first: u64,
    at_second: u64,
    available_height: u16,
)
    requires
        state.last_click is None,
        first.kind == MouseEventKind::Down(MouseButton::Left),
        second.kind == MouseEventKind::Down(MouseButton::Left),
        at_first <= at_second,
        hit(state.tab_rects, first.column, first.row) is None,
        hit(state.tab_rects, second.column, second.row) is None,
        hit(state.pane_rects, first.column, first.row) is Some,
        hit(state.pane_rects, second.column, second.row) is Some,
    ensures
        ({
            let one = hit(state.pane_rects, first.column, first.row)->Some_0.0;
            let two = hit(state.pane_rects, second.column, second.row)->Some_0.0;
            let after = state.after_mouse(first, at_first, available_height).after_mouse(
                second,
                at_second,
                available_height,
            );
            &&& one == two && at_second - at_first < DOUBLE_CLICK_MS ==> after.expanded
                == !state.expanded
            &&& one != two || at_second - at_first >= DOUBLE_CLICK_MS ==> after.expanded
                == state.expanded
        }),
{
}

/// The index map of a list of keys holds exactly those keys, and leads
/// from each key to a pane that has it.
pub proof fn lemma_index_map_holds_the_keys(keys: Seq<Seq<char>>)
    requires
        keys.len() <= usize::MAX,
    ensures
        forall|k: Seq<char>| #[trigger] index_map(keys).contains_key(k) <==> keys.contains(k),
        forall|k: Seq<char>| #[trigger]
            index_map(keys).contains_key(k) ==> index_map(keys)[k] < keys.len()
                && keys[index_map(keys)[k] as int] == k,
    decreases keys.len(),
{
    if keys.len() > 0 {
        let front = keys.drop_last();
        lemma_index_map_holds_the_keys(front);
        assert forall|k: Seq<char>| #[trigger] index_map(keys).contains_key(k) <==> keys.contains(
            k,
        ) by {
            assert(index_map(keys).contains_key(k) <==> (k == keys.last() || index_map(
                front,
            ).contains_key(k)));
            if k != keys.last() && keys.contains(k) {
                let i = choose|i: int| 0 <= i < keys.len() && keys[i] == k;
                assert(front[i] == k);
            }
        }
        assert forall|k: Seq<char>| #[trigger] index_map(keys).contains_key(k) implies index_map(
            keys,
        )[k] < keys.len() && keys[index_map(keys)[k] as int] == k by {
            if k != keys.last() {
                assert(front[index_map(front)[k] as int] == k);
            }
        }
    }
}

/// Whether the pane at `index` is among the `per` panes of tab `tab`.
pub open spec fn is_on_tab(index: int, tab: int, per: int) -> bool {
    tab * per <= index < tab * per + per
}

/// Every pane is on exactly one tab: the tab with the number of its index
/// divided by the panes per tab. That tab exists, and the pane is among
/// the panes that the tab shows.
pub proof fn law_every_pane_is_on_one_tab(pane_count: int, available_height: u16, index: int)
    requires
        0 <= index < pane_count,
    ensures
        ({
            let per = per_tab(available_height);
            let tab = index / per;
            &&& 0 <= tab < tab_count(pane_count, available_height)
            &&& is_on_tab(index, tab, per)
            &&& index < least(tab * per + per, pane_count)
            &&& forall|other: int| #[trigger] is_on_tab(index, other, per) ==> other == tab
        }),
{
    let per = per_tab(available_height);
    let tab = index / per;
    assert(0 <= tab && tab * per <= index < tab * per + per) by (nonlinear_arith)
        requires
            per >= 1,
            index >= 0,
            tab == index / per,
    ;
    assert(tab < (pane_count + per - 1) / per) by (nonlinear_arith)
        requires
            per >= 1,
            0 <= index < pane_count,
            tab == index / per,
    ;
    assert forall|other: int| #[trigger] is_on_tab(index, other, per) implies other == tab by {
        assert(other * per <= index < other * per + per ==> other == tab) by (nonlinear_arith)
            requires
                per >= 1,
                tab * per <= index < tab * per + per,
        ;
    }
}

impl StateModel {
    /// The selection and the current tab are in range: with panes, the
    /// selected pane and the current tab exist; without, both are 0.
    pub open spec fn in_range(self, available_height: u16) -> bool {
        if self.panes.len() == 0 {
            self.selected == 0 && self.current_tab == 0
        } else {
            self.selected < self.panes.len() && self.current_tab < tab_count(
                self.panes.len() as int,
                available_height,
            )
        }
    }
}

/// The first pane of every tab that exists is a pane that exists.
pub proof fn lemma_tabs_start_inside(pane_count: int, available_height: u16, tab: int)
    requires
        pane_count >= 1,
        0 <= tab < tab_count(pane_count, available_height),
    ensures
        0 <= tab * per_tab(available_height) < pane_count,
        tab_count(pane_count, available_height) >= 1,
{
    let per = per_tab(available_height);
    let tabs = tab_count(pane_count, available_height);
    assert(tabs >= 1 && (tabs - 1) * per < pane_count) by (nonlinear_arith)
        requires
            per >= 1,
            pane_count >= 1,
            tabs == (pane_count + per - 1) / per,
    ;
    assert(0 <= tab * per <= (tabs - 1) * per) by (nonlinear_arith)
        requires
            0 <= tab <= tabs - 1,
            per >= 1,
    ;
}

/// Stepping between tabs keeps the selection and the current tab in
/// range.
pub proof fn lemma_tab_steps_stay_in_range(state: StateModel, available_height: u16)
    requires
        state.in_range(available_height),
        state.panes.len() <= usize::MAX,
    ensures
        state.prev_tab(available_height).in_range(available_height),
        state.next_tab(available_height).in_range(available_height),
{
    let len = state.panes.len() as int;
    if len > 0 {
        if state.current_tab > 0 {
            lemma_tabs_start_inside(len, available_height, state.current_tab - 1);
        }
        if state.current_tab + 1 < tab_count(len, available_height) {
            lemma_tabs_start_inside(len, available_height, state.current_tab + 1);
        }
    }
}

/// Moving the selection keeps the selection and the current tab in range.
pub proof fn lemma_selection_steps_stay_in_range(state: StateModel, available_height: u16)
    requires
        state.in_range(available_height),
        state.panes.len() <= usize::MAX,
    ensures
        state.select_next(available_height).in_range(available_height),
        state.select_prev(available_height).in_range(available_height),
{
    let len = state.panes.len() as int;
    if len > 0 {
        let next = StateModel { selected: ((state.selected + 1) % len) as usize, ..state };
        lemma_visible_tab_in_range(next, available_height);
        let prev = StateModel {
            selected: if state.selected >= 1 {
                (state.selected - 1) as usize
            } else {
                (len - 1) as usize
            },
            ..state
        };
        lemma_visible_tab_in_range(prev, available_height);
    }
}

/// Closing the selected pane keeps the selection and the current tab in
/// range.
pub proof fn lemma_closing_a_pane_stays_in_range(state: StateModel, available_height: u16)
    requires
        state.in_range(available_height),
        state.panes.len() <= usize::MAX,
    ensures
        state.without_selected(available_height).in_range(available_height),
{
    if state.selected < state.panes.len() {
        let panes = state.panes.remove(state.selected as int);
        lemma_visible_tab_in_range(
            StateModel {
                panes,
                pane_index: index_map(keys_of(panes)),
                selected: if panes.len() == 0 {
                    0
                } else {
                    least(state.selected as int, panes.len() - 1) as usize
                },
                ..state
            },
            available_height,
        );
    }
}

/// Closing the current tab keeps the selection and the current tab in
/// range.
pub proof fn lemma_closing_a_tab_stays_in_range(state: StateModel, available_height: u16)
    requires
        state.in_range(available_height),
        state.panes.len() <= usize::MAX,
    ensures
        state.without_tab(available_height).in_range(available_height),
{
    let len = state.panes.len() as int;
    let start = state.tab_start(available_height);
    let end = state.tab_end(available_height);
    if start < end {
        let panes = state.panes.subrange(0, start) + state.panes.subrange(end, len);
        if panes.len() > 0 {
            let tabs = tab_count(panes.len() as int, available_height);
            let per = per_tab(available_height);
            assert(tabs >= 1) by (nonlinear_arith)
                requires
                    per >= 1,
                    panes.len() >= 1,
                    tabs == (panes.len() + per - 1) / per,
            ;
            let tab = least(state.current_tab as int, tabs - 1);
            lemma_tabs_start_inside(panes.len() as int, available_height, tab);
        }
    }
}

/// No key moves the selection or the current tab out of range: after any
/// key in normal mode, with panes the selected pane and the current tab
/// exist, and without panes both are 0.
pub proof fn law_keys_keep_the_selection_in_range(
    state: StateModel,
    code: KeyCode,
    page_size: usize,
    available_height: u16,
)
    requires
        state.in_range(available_height),
        state.panes.len() <= usize::MAX,
    ensures
        state.after_key(code, page_size, available_height).in_range(available_height),
{
    lemma_tab_steps_stay_in_range(state, available_height);
    lemma_selection_steps_stay_in_range(state, available_height);
    lemma_closing_a_pane_stays_in_range(state, available_height);
    lemma_closing_a_tab_stays_in_range(state, available_height);
}

/// Showing the tab of the selected pane leaves the selection as it is and
/// puts the current tab in range.
pub proof fn lemma_visible_tab_in_range(state: StateModel, available_height: u16)
    requires
        state.panes.len() == 0 || state.selected < state.panes.len(),
        state.panes.len() == 0 ==> state.selected == 0,
    ensures
        state.with_selected_visible(available_height).in_range(available_height),
{
    let per = per_tab(available_height);
    let len = state.panes.len() as int;
    if len > 0 {
        assert((len + per - 1) / per >= 1 && state.selected as int / per >= 0) by (nonlinear_arith)
            requires
                per >= 1,
                len >= 1,
                state.selected >= 0,
        ;
    }
}

/// The panes have keys of their own, and the index map agrees with the
/// pane list.
pub open spec fn well_keyed(state: StateModel) -> bool {
    &&& state.index_ok()
    &&& keys_of(state.panes).no_duplicates()
}

/// No key gives two panes the same key or breaks the index map: closing
/// panes keeps the keys of the panes that stay, and every other key leaves
/// the pane list as it is.
pub proof fn law_keys_keep_pane_keys_unique(
    state: StateModel,
    code: KeyCode,
    page_size: usize,
    available_height: u16,
)
    requires
        well_keyed(state),
    ensures
        well_keyed(state.after_key(code, page_size, available_height)),
{
    let keys = keys_of(state.panes);
    let after = state.after_key(code, page_size, available_height);
    let left = keys_of(after.panes);
    if code == KeyCode::Char('d') && state.selected < state.panes.len() {
        let gone = state.selected as int;
        assert(left =~= keys.remove(gone));
        assert forall|i: int, j: int| 0 <= i < left.len() && 0 <= j < left.len() && i != j implies left[i]
            != left[j] by {
            let from_i = if i < gone { i } else { i + 1 };
            let from_j = if j < gone { j } else { j + 1 };
            assert(left[i] == keys[from_i] && left[j] == keys[from_j]);
        }
    } else if code == KeyCode::Char('D') {
        let start = state.tab_start(available_height);
        let end = state.tab_end(available_height);
        if start < end {
            assert(left =~= keys.subrange(0, start) + keys.subrange(end, keys.len() as int));
            assert forall|i: int, j: int| 0 <= i < left.len() && 0 <= j < left.len() && i != j implies left[i]
                != left[j] by {
                let from_i = if i < start { i } else { i - start + end };
                let from_j = if j < start { j } else { j - start + end };
                assert(left[i] == keys[from_i] && left[j] == keys[from_j]);
            }
        }
    } else {
        assert(left =~= keys);
    }
}

impl StateModel {
    /// The areas that were drawn last name panes and tabs that exist.
    pub open spec fn rects_in_range(self, available_height: u16) -> bool {
        &&& forall|i: int|
            0 <= i < self.pane_rects.len() ==> (#[trigger] self.pane_rects[i]).0
                < self.panes.len()
        &&& forall|i: int|
            0 <= i < self.tab_rects.len() ==> (#[trigger] self.tab_rects[i]).0 < tab_count(
                self.panes.len() as int,
                available_height,
            )
    }
}

/// The area that a search finds is one of the areas searched.
pub proof fn lemma_hit_is_one_of(rects: Seq<(usize, Rect)>, col: u16, row: u16, i: int)
    requires
        0 <= i <= rects.len(),
    ensures
        i <= hit_from(rects, col, row, i) <= rects.len(),
    decreases rects.len() - i,
{
    if i < rects.len() && !rects[i].1.covers(col, row) {
        lemma_hit_is_one_of(rects, col, row, i + 1);
    }
}

/// No mouse event moves the selection or the current tab out of range, as
/// long as the areas that were drawn last name panes and tabs that exist.
pub proof fn law_mouse_keeps_the_selection_in_range(
    state: StateModel,
    mouse: MouseEvent,
    now: u64,
    available_height: u16,
)
    requires
        state.in_range(available_height),
        state.rects_in_range(available_height),
        state.panes.len() <= usize::MAX,
    ensures
        state.after_mouse(mouse, now, available_height).in_range(available_height),
{
    lemma_hit_is_one_of(state.tab_rects, mouse.column, mouse.row, 0);
    lemma_hit_is_one_of(state.pane_rects, mouse.column, mouse.row, 0);
    match hit(state.tab_rects, mouse.column, mouse.row) {
        Some((tab, _)) => {
            if state.panes.len() > 0 {
                lemma_tabs_start_inside(state.panes.len() as int, available_height, tab as int);
            }
        },
        None => {},
    }
}

} // verus!
