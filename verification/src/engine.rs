//! The dashboard engine: it drains the events of workers and discoveries
//! into the panes, lays the panes out, and dispatches input.

use crate::event::{EventModel, TrackEvent};
use crate::layout::{is_split, ratio_chunks, ratio_columns, split, Constraint};
use crate::pane::{PaneModel, PodPane, MAX_LOG_LINES};
use crate::pattern::{pod_pattern_regex, regex_valid, source_for, Matcher};
use crate::pod::{pods_of, PodInfo, PodModel};
use crate::shared::{RegistryModel, SharedState};
use crate::state::{
    clipped_product, key_quits, keys_of, lemma_index_map_holds_the_keys, panes_of, per_tab,
    registry_after_key, tab_count, well_keyed, ActionModel, KeyAction, StateModel, TuiState,
};
use crate::term::{Color, Event, KeyEventKind, Rect};
use crate::theme::{palette_color, Theme};
use vstd::prelude::*;

verus! {

/// The rows of the status line at the bottom of the screen.
pub const STATUS_ROWS: u16 = 1;

/// The rows of the tab bar: the labels and a separator.
pub const TAB_BAR_HEIGHT: u16 = 2;

/// The columns in front of the tab labels.
pub const TAB_LABEL_WIDTH: u16 = 10;

/// The rows that the panes get out of `available_height`: all of them, or,
/// where the panes take more than one tab, what the tab bar leaves.
pub open spec fn pane_rows(pane_count: int, available_height: u16) -> u16 {
    if tab_count(pane_count, available_height) > 1 {
        if available_height > TAB_BAR_HEIGHT {
            (available_height - TAB_BAR_HEIGHT) as u16
        } else {
            0
        }
    } else {
        available_height
    }
}

/// The lines that one page of a pane holds when the panes of the current
/// tab share `rows` rows: a pane's height without its border.
pub open spec fn page_lines(state: StateModel, rows: u16) -> int {
    let shown = state.tab_end(rows) - state.tab_start(rows);
    let share = if shown >= 1 {
        (rows as int) / shown
    } else {
        rows as int
    };
    if share > 2 {
        share - 2
    } else {
        0
    }
}

/// Whether `rects` pairs each of `indices` with an area, in order.
pub open spec fn pairs_up(rects: Seq<(usize, Rect)>, indices: Seq<usize>) -> bool {
    &&& rects.len() == indices.len()
    &&& forall|i: int| 0 <= i < rects.len() ==> (#[trigger] rects[i]).0 == indices[i]
}

/// Whether `rects` pairs the numbers from 0 up to `count` with an area
/// each, in order.
pub open spec fn counts_up(rects: Seq<(usize, Rect)>, count: int) -> bool {
    &&& rects.len() == count
    &&& forall|i: int| 0 <= i < rects.len() ==> (#[trigger] rects[i]).0 == i
}

/// The counter after one more color was handed out. It starts over after
/// the largest value.
pub open spec fn next_counter(counter: usize) -> usize {
    if counter == usize::MAX {
        0
    } else {
        (counter + 1) as usize
    }
}

/// What the engine holds, as mathematical values.
pub struct EngineModel {
    pub state: StateModel,
    /// The number of the next pane, by discovery order.
    pub color_counter: usize,
    pub pane_colors: Seq<Color>,
    pub title_colors: Seq<Color>,
    pub layout_available_height: u16,
    pub layout_page_size: usize,
}

impl EngineModel {
    /// The engine after a line arrived for `pod_key`: the owning pane gets
    /// the line; a line for a pod without pane is dropped.
    pub open spec fn with_line(self, pod_key: Seq<char>, text: Seq<char>) -> EngineModel {
        if self.state.pane_index.contains_key(pod_key) && self.state.pane_index[pod_key]
            < self.state.panes.len() {
            let index = self.state.pane_index[pod_key] as int;
            EngineModel {
                state: StateModel {
                    panes: self.state.panes.update(index, self.state.panes[index].pushed(text)),
                    ..self.state
                },
                ..self
            }
        } else {
            self
        }
    }

    /// The engine after a pod was announced: a pod without pane gets one,
    /// in the next color of the palette; a pod that has a pane changes
    /// nothing.
    pub open spec fn with_pod(self, pod: PodModel, alive: bool) -> EngineModel {
        if self.state.pane_index.contains_key(pod.key()) {
            self
        } else {
            EngineModel {
                state: self.state.with_pane(
                    PaneModel {
                        key: pod.key(),
                        color: palette_color(self.pane_colors, self.color_counter as int),
                        lines: Seq::<Seq<char>>::empty(),
                        alive,
                        scroll_up: None,
                    },
                ),
                color_counter: next_counter(self.color_counter),
                ..self
            }
        }
    }

    /// The engine after `event`.
    pub open spec fn after_event(self, event: EventModel) -> EngineModel {
        match event {
            EventModel::LogLine { pod_key, text } => self.with_line(pod_key, text),
            EventModel::NewPod { pod, alive } => self.with_pod(pod, alive),
        }
    }

    /// The engine after the events `events[i..]`, in their order.
    pub open spec fn after_events(self, events: Seq<TrackEvent>, i: int) -> EngineModel
        decreases events.len() - i,
    {
        if 0 <= i < events.len() {
            self.after_event(events[i]@).after_events(events, i + 1)
        } else {
            self
        }
    }
}

/// The pods of `pods[i..]` that get a worker, in their order: those that
/// have none and were not closed.
pub open spec fn spawned_from(registry: RegistryModel, pods: Seq<PodModel>, i: int) -> Seq<PodModel>
    decreases pods.len() - i,
{
    if 0 <= i < pods.len() {
        let rest = spawned_from(registry.activate(pods[i].key()), pods, i + 1);
        if registry.may_activate(pods[i].key()) {
            seq![pods[i]] + rest
        } else {
            rest
        }
    } else {
        Seq::<PodModel>::empty()
    }
}

/// The shared state after workers were asked for `pods[i..]`.
pub open spec fn activated_from(registry: RegistryModel, pods: Seq<PodModel>, i: int) -> RegistryModel
    decreases pods.len() - i,
{
    if 0 <= i < pods.len() {
        activated_from(registry.activate(pods[i].key()), pods, i + 1)
    } else {
        registry
    }
}

/// Registers a worker for each of `pods` that has none and was not closed,
/// and returns those pods, in their order: the caller starts their workers
/// and announces them to the dashboard.
pub fn try_spawn_pods(shared: &mut SharedState, pods: Vec<PodInfo>) -> (started: Vec<PodInfo>)
    ensures
        pods_of(started@) == spawned_from(old(shared)@, pods_of(pods@), 0),
        final(shared)@ == activated_from(old(shared)@, pods_of(pods@), 0),
        started@.len() <= pods@.len(),
{
    let ghost all = pods_of(pods@);
    let mut started: Vec<PodInfo> = Vec::new();
    let mut i: usize = 0;
    while i < pods.len()
        invariant
            i <= pods.len(),
            started@.len() <= i,
            all == pods_of(pods@),
            spawned_from(old(shared)@, all, 0) == pods_of(started@) + spawned_from(
                shared@,
                all,
                i as int,
            ),
            activated_from(old(shared)@, all, 0) == activated_from(shared@, all, i as int),
        decreases pods.len() - i,
    {
        let key = pods[i].key();
        if shared.try_activate(key.as_str()) {
            let copy = PodInfo {
                namespace: pods[i].namespace.clone(),
                name: pods[i].name.clone(),
                pattern_idx: pods[i].pattern_idx,
            };
            started.push(copy);
        }
        i += 1;
    }
    started
}

/// The dashboard engine.
pub struct TrackTui {
    pub state: TuiState,
    pub color_counter: usize,
    pub theme: Theme,
    pub layout_available_height: u16,
    pub layout_page_size: usize,
}

impl View for TrackTui {
    type V = EngineModel;

    open spec fn view(&self) -> EngineModel {
        EngineModel {
            state: self.state@,
            color_counter: self.color_counter,
            pane_colors: self.theme.pane_colors@,
            title_colors: self.theme.title_colors@,
            layout_available_height: self.layout_available_height,
            layout_page_size: self.layout_page_size,
        }
    }
}

/// What an input event asks the driver to do.
pub struct EventOutcome {
    /// Leave the dashboard.
    pub quit: bool,
    /// The pattern that was added: look once for its pods alone.
    pub added: Option<Matcher>,
}

impl TrackTui {
    /// The engine is fit for use: the theme has colors, the panes are
    /// within their bounds and their number leaves room for one more.
    pub open spec fn wf(&self) -> bool {
        &&& self.theme.wf()
        &&& self.state.wf()
        &&& self.state.panes@.len() < usize::MAX
    }

    /// Whether the engine is fit for use.
    pub fn is_wf(&self) -> (ok: bool)
        ensures
            ok == self.wf(),
    {
        self.theme.pane_colors.len() > 0 && self.theme.title_colors.len() > 0
            && self.state.panes.len() < usize::MAX && self.state.is_wf()
    }

    /// An engine without panes.
    pub fn new(theme: Theme) -> (engine: TrackTui)
        requires
            theme.wf(),
        ensures
            engine.wf(),
            engine@.state == TuiState::new_model(),
            engine@.color_counter == 0,
            engine.theme == theme,
            engine@.layout_available_height == 0,
            engine@.layout_page_size == 0,
    {
        TrackTui {
            state: TuiState::new(),
            color_counter: 0,
            theme,
            layout_available_height: 0,
            layout_page_size: 0,
        }
    }

    /// Takes one event in: a log line goes to the pane of its pod, and a
    /// line for a pod without pane is dropped; a new pod gets a pane in the
    /// next color of the palette, unless it has one.
    pub fn process_event(&mut self, event: &TrackEvent)
        requires
            old(self).wf(),
        ensures
            final(self)@ == old(self)@.after_event(event@),
            final(self).theme == old(self).theme,
            final(self).state.wf(),
            final(self).theme.wf(),
    {
        match event {
            TrackEvent::LogLine { pod_key, text } => {
                let found: Option<usize> = match self.state.pane_index.get(pod_key.as_str()) {
                    Some(index) => Some(*index),
                    None => None,
                };
                if let Some(index) = found {
                    if index < self.state.panes.len() {
                        let pane = &mut self.state.panes[index];
                        pane.push_line(text.clone());
                        proof {
                            assert(panes_of(self.state.panes@) =~= panes_of(
                                old(self).state.panes@,
                            ).update(
                                index as int,
                                old(self).state.panes@[index as int]@.pushed(text@),
                            ));
                        }
                    }
                }
            },
            TrackEvent::NewPod { pod, alive } => {
                let key = pod.key();
                if !self.state.pane_index.contains_key(key.as_str()) {
                    let color = self.theme.pane_color(self.color_counter);
                    self.color_counter = if self.color_counter == usize::MAX {
                        0
                    } else {
                        self.color_counter + 1
                    };
                    self.state.add_pane(PodPane::new(key, color, *alive));
                }
            },
        }
    }

    /// Drains `events` into the panes, in their order.
    pub fn process_track_events(&mut self, events: &Vec<TrackEvent>)
        requires
            old(self).wf(),
            old(self).state.panes@.len() + events@.len() < usize::MAX,
        ensures
            final(self)@ == old(self)@.after_events(events@, 0),
            final(self).theme == old(self).theme,
            final(self).wf(),
    {
        let mut i: usize = 0;
        while i < events.len()
            invariant
                i <= events.len(),
                self.wf(),
                self.theme == old(self).theme,
                self.state.panes@.len() + (events@.len() - i) < usize::MAX,
                old(self)@.after_events(events@, 0) == self@.after_events(events@, i as int),
            decreases events.len() - i,
        {
            self.process_event(&events[i]);
            i += 1;
        }
    }

    /// Appends the pattern that the user typed to the pattern list and
    /// returns its matcher, for one discovery of that pattern alone.
    pub fn add_pattern(pattern: &str, shared: &mut SharedState) -> (matcher: Matcher)
        ensures
            matcher@.source == source_for(pattern@, regex_valid(pattern@)),
            matcher@.literal == !regex_valid(pattern@),
            final(shared)@ == old(shared)@.add_pattern(matcher@),
    {
        let matcher = pod_pattern_regex(pattern);
        let _ = shared.add_regex(matcher.duplicate());
        matcher
    }

    /// Lays the visible panes out on a terminal of size `term_size`, of
    /// which `available_height` rows are free for panes and tab bar. It
    /// records where each visible pane and each tab label is drawn, the rows
    /// that the panes get, and the page size for scrolling.
    pub fn update_layout(&mut self, term_size: Rect, available_height: u16)
        ensures
            final(self).state.panes == old(self).state.panes,
            final(self)@.state == (StateModel {
                pane_rects: final(self)@.state.pane_rects,
                tab_rects: final(self)@.state.tab_rects,
                ..old(self)@.state
            }),
            final(self).theme == old(self).theme,
            final(self).color_counter == old(self).color_counter,
            old(self).wf() ==> final(self).wf(),
            final(self).layout_available_height == pane_rows(
                old(self)@.state.panes.len() as int,
                available_height,
            ),
            final(self).layout_page_size == page_lines(
                old(self)@.state,
                final(self).layout_available_height,
            ),
            pairs_up(
                final(self)@.state.pane_rects,
                old(self)@.state.visible(final(self).layout_available_height),
            ),
            forall|i: int|
                0 <= i < final(self)@.state.pane_rects.len()
                    ==> (#[trigger] final(self)@.state.pane_rects[i]).1.x == term_size.x
                    && final(self)@.state.pane_rects[i].1.width == term_size.width,
            tab_count(old(self)@.state.panes.len() as int, available_height) > 1
                ==> counts_up(
                final(self)@.state.tab_rects,
                tab_count(
                    old(self)@.state.panes.len() as int,
                    final(self).layout_available_height,
                ),
            ),
            tab_count(old(self)@.state.panes.len() as int, available_height) <= 1
                ==> final(self)@.state.tab_rects.len() == 0,
            forall|i: int|
                0 <= i < final(self)@.state.tab_rects.len()
                    ==> (#[trigger] final(self)@.state.tab_rects[i]).1.height == 1,
    {
        let has_tab_bar: bool = self.state.total_tabs(available_height) > 1;
        let rows: u16 = if has_tab_bar {
            if available_height > TAB_BAR_HEIGHT {
                available_height - TAB_BAR_HEIGHT
            } else {
                0
            }
        } else {
            available_height
        };
        let mut frame: Vec<Constraint> = Vec::new();
        frame.push(Constraint::Min(0));
        frame.push(Constraint::Length(STATUS_ROWS));
        let main_layout = split(&term_size, true, &frame);
        let main: Rect = main_layout[0];
        let bar: u16 = if has_tab_bar { TAB_BAR_HEIGHT } else { 0 };
        let content_area = Rect {
            x: main.x,
            y: if main.y > u16::MAX - bar { u16::MAX } else { main.y + bar },
            width: main.width,
            height: if main.height > bar { main.height - bar } else { 0 },
        };
        let visible = self.state.visible_indices(rows);
        let chunks = ratio_chunks(&content_area, visible.len());
        let mut pane_rects: Vec<(usize, Rect)> = Vec::new();
        let mut i: usize = 0;
        while i < visible.len()
            invariant
                i <= visible.len(),
                is_split(chunks@, content_area, true, visible@.len()),
                pane_rects@.len() == i,
                forall|k: int|
                    0 <= k < i ==> (#[trigger] pane_rects@[k]).0 == visible@[k] && pane_rects@[k].1
                        == chunks@[k],
            decreases visible.len() - i,
        {
            pane_rects.push((visible[i], chunks[i]));
            i += 1;
        }
        self.state.pane_rects = pane_rects;
        let mut tab_rects: Vec<(usize, Rect)> = Vec::new();
        if has_tab_bar {
            let total: usize = self.state.total_tabs(rows);
            let tab_area = Rect {
                x: if main.x > u16::MAX - TAB_LABEL_WIDTH {
                    u16::MAX
                } else {
                    main.x + TAB_LABEL_WIDTH
                },
                y: main.y,
                width: if main.width > TAB_LABEL_WIDTH { main.width - TAB_LABEL_WIDTH } else { 0 },
                height: 1,
            };
            let labels = ratio_columns(&tab_area, total);
            let mut t: usize = 0;
            while t < total
                invariant
                    t <= total,
                    is_split(labels@, tab_area, false, total as nat),
                    tab_area.height == 1,
                    tab_rects@.len() == t,
                    forall|k: int|
                        0 <= k < t ==> (#[trigger] tab_rects@[k]).0 == k && tab_rects@[k].1.height
                            == 1,
                decreases total - t,
            {
                tab_rects.push((t, labels[t]));
                t += 1;
            }
        }
        self.state.tab_rects = tab_rects;
        self.layout_available_height = rows;
        let per: usize = self.state.max_panes_per_tab(rows);
        let len: usize = self.state.panes.len();
        let start: usize = clipped_product(self.state.current_tab, per);
        let shown: usize = if start >= len {
            0
        } else if per >= len - start {
            len - start
        } else {
            per
        };
        let share: usize = if shown >= 1 { (rows as usize) / shown } else { rows as usize };
        self.layout_page_size = if share > 2 { share - 2 } else { 0 };
    }

    /// Dispatches an input event that arrived at `now_ms` milliseconds. A
    /// key press goes to the pattern input while a pattern is typed, else to
    /// the normal keys; a mouse event counts while the mouse is captured and
    /// no pattern is typed; everything else is dropped.
    pub fn handle_event(&mut self, event: Event, now_ms: u64, shared: &mut SharedState) -> (outcome:
        EventOutcome)
        requires
            old(self).wf(),
        ensures
            final(self)@ == (EngineModel {
                state: event_state(
                    old(self)@.state,
                    event,
                    now_ms,
                    old(self).layout_page_size,
                    old(self).layout_available_height,
                ),
                ..old(self)@
            }),
            final(self).theme == old(self).theme,
            final(self).wf(),
            outcome.quit == event_quits(old(self)@.state, event),
            match event_pattern(old(self)@.state, event) {
                Some(pattern) => outcome.added matches Some(matcher) && matcher@.source
                    == source_for(pattern, regex_valid(pattern)) && matcher@.literal
                    == !regex_valid(pattern) && final(shared)@ == old(shared)@.add_pattern(
                    matcher@,
                ),
                None => outcome.added is None && final(shared)@ == event_registry(
                    old(shared)@,
                    old(self)@.state,
                    event,
                    old(self).layout_available_height,
                ),
            },
    {
        match event {
            Event::Key(key) => {
                if key.kind == KeyEventKind::Press {
                    if self.state.input_mode {
                        let action = self.state.handle_input_key(key.code);
                        if let KeyAction::AddPattern(pattern) = action {
                            let matcher = TrackTui::add_pattern(pattern.as_str(), shared);
                            return EventOutcome { quit: false, added: Some(matcher) };
                        }
                    } else {
                        let action = self.state.handle_key(
                            key.code,
                            key.modifiers,
                            self.layout_page_size,
                            self.layout_available_height,
                            shared,
                        );
                        if let KeyAction::Quit = action {
                            return EventOutcome { quit: true, added: None };
                        }
                    }
                }
            },
            Event::Mouse(mouse) => {
                if !self.state.input_mode && self.state.mouse_captured {
                    self.state.handle_mouse(mouse, now_ms, self.layout_available_height);
                }
            },
            Event::Other => {},
        }
        EventOutcome { quit: false, added: None }
    }

    /// The engine for the pods of the first discovery. Each pod that gets a
    /// worker gets a pane, in the palette's colors by the pods' order. The
    /// pods returned are those whose workers the caller starts.
    pub fn with_deps(pods: Vec<PodInfo>, shared: &mut SharedState, theme: Theme) -> (made: (
        TrackTui,
        Vec<PodInfo>,
    ))
        requires
            theme.wf(),
            pods@.len() < usize::MAX,
        ensures
            pods_of(made.1@) == spawned_from(old(shared)@, pods_of(pods@), 0),
            final(shared)@ == activated_from(old(shared)@, pods_of(pods@), 0),
            made.0@ == (EngineModel {
                state: TuiState::new_model(),
                color_counter: 0,
                pane_colors: theme.pane_colors@,
                title_colors: theme.title_colors@,
                layout_available_height: 0,
                layout_page_size: 0,
            }).with_pods(pods_of(made.1@), 0),
            made.0.wf(),
    {
        let mut engine = TrackTui::new(theme);
        let started = try_spawn_pods(shared, pods);
        let ghost first = engine@;
        let mut i: usize = 0;
        while i < started.len()
            invariant
                i <= started.len(),
                engine.wf(),
                engine.state.panes@.len() <= i,
                started@.len() < usize::MAX,
                first.with_pods(pods_of(started@), 0) == engine@.with_pods(
                    pods_of(started@),
                    i as int,
                ),
            decreases started.len() - i,
        {
            let pod = PodInfo {
                namespace: started[i].namespace.clone(),
                name: started[i].name.clone(),
                pattern_idx: started[i].pattern_idx,
            };
            engine.process_event(&TrackEvent::NewPod { pod, alive: true });
            i += 1;
        }
        (engine, started)
    }
}

impl EngineModel {
    /// The engine after the pods `pods[i..]` were announced, in their
    /// order.
    pub open spec fn with_pods(self, pods: Seq<PodModel>, i: int) -> EngineModel
        decreases pods.len() - i,
    {
        if 0 <= i < pods.len() {
            self.with_pod(pods[i], true).with_pods(pods, i + 1)
        } else {
            self
        }
    }
}

/// The dashboard's state after an input event.
pub open spec fn event_state(
    state: StateModel,
    event: Event,
    now: u64,
    page_size: usize,
    available_height: u16,
) -> StateModel {
    match event {
        Event::Key(key) => if key.kind != KeyEventKind::Press {
            state
        } else if state.input_mode {
            state.after_input_key(key.code)
        } else {
            state.after_key(key.code, page_size, available_height)
        },
        Event::Mouse(mouse) => if !state.input_mode && state.mouse_captured {
            state.after_mouse(mouse, now, available_height)
        } else {
            state
        },
        Event::Other => state,
    }
}

/// Whether an input event quits the dashboard.
pub open spec fn event_quits(state: StateModel, event: Event) -> bool {
    match event {
        Event::Key(key) => key.kind == KeyEventKind::Press && !state.input_mode && key_quits(
            key.code,
            key.modifiers,
        ),
        _ => false,
    }
}

/// The pattern that an input event commits, if it commits one.
pub open spec fn event_pattern(state: StateModel, event: Event) -> Option<Seq<char>> {
    match event {
        Event::Key(key) => if key.kind == KeyEventKind::Press && state.input_mode {
            match state.input_action(key.code) {
                ActionModel::AddPattern(pattern) => Some(pattern),
                _ => None,
            }
        } else {
            None
        },
        _ => None,
    }
}

/// The shared state after an input event that commits no pattern.
pub open spec fn event_registry(
    registry: RegistryModel,
    state: StateModel,
    event: Event,
    available_height: u16,
) -> RegistryModel {
    match event {
        Event::Key(key) => if key.kind == KeyEventKind::Press && !state.input_mode {
            registry_after_key(registry, state, key.code, key.modifiers, available_height)
        } else {
            registry
        },
        _ => registry,
    }
}

/// No event gives two panes the same key or breaks the index map: where
/// every pane has a key of its own and the index map agrees with the pane
/// list, the same holds after any event of a worker or a discovery.
pub proof fn law_events_keep_pane_keys_unique(engine: EngineModel, event: EventModel)
    requires
        well_keyed(engine.state),
        engine.state.panes.len() < usize::MAX,
    ensures
        well_keyed(engine.after_event(event).state),
{
    let state = engine.state;
    let keys = keys_of(state.panes);
    lemma_index_map_holds_the_keys(keys);
    match event {
        EventModel::LogLine { pod_key, text } => {
            let after = engine.with_line(pod_key, text).state;
            assert(keys_of(after.panes) =~= keys);
        },
        EventModel::NewPod { pod, alive } => {
            if !state.pane_index.contains_key(pod.key()) {
                let after = engine.with_pod(pod, alive).state;
                let grown = keys_of(after.panes);
                assert(grown =~= keys.push(pod.key()));
                assert(grown.drop_last() =~= keys);
            }
        },
    }
}

/// No event moves the selection or the current tab out of range: a new
/// pane leaves both where they are, and a log line changes neither.
pub proof fn law_events_keep_the_selection_in_range(
    engine: EngineModel,
    event: EventModel,
    available_height: u16,
)
    requires
        engine.state.in_range(available_height),
    ensures
        engine.after_event(event).state.in_range(available_height),
{
    let len = engine.state.panes.len() as int;
    let per = per_tab(available_height);
    assert(tab_count(len, available_height) <= tab_count(len + 1, available_height)
        && tab_count(len + 1, available_height) >= 1) by (nonlinear_arith)
        requires
            per >= 1,
            len >= 0,
            tab_count(len, available_height) == if len <= 0 {
                1
            } else {
                (len + per - 1) / per
            },
            tab_count(len + 1, available_height) == (len + 1 + per - 1) / per,
    ;
}

/// What a layout records names panes and tabs that exist: where the
/// areas of the panes pair up with the visible panes, and the areas of the
/// tabs count the tabs, every area stands for a pane or a tab that is
/// there. The one exception is an expanded dashboard whose selection names
/// no pane.
pub proof fn law_layout_names_existing_panes(state: StateModel, rows: u16)
    requires
        pairs_up(state.pane_rects, state.visible(rows)),
        state.tab_rects.len() == 0 || counts_up(
            state.tab_rects,
            tab_count(state.panes.len() as int, rows),
        ),
        state.expanded ==> state.selected < state.panes.len(),
    ensures
        state.rects_in_range(rows),
{
    let shown = state.visible(rows);
    assert forall|i: int| 0 <= i < state.pane_rects.len() implies (#[trigger] state.pane_rects[i]).0
        < state.panes.len() by {
        assert(state.pane_rects[i].0 == shown[i]);
    }
}

/// The texts of the log lines for the pod `key` among `events[i..]`, in
/// their order.
pub open spec fn lines_for(events: Seq<TrackEvent>, key: Seq<char>, i: int) -> Seq<Seq<char>>
    decreases events.len() - i,
{
    if 0 <= i < events.len() {
        match events[i]@ {
            EventModel::LogLine { pod_key, text } => if pod_key == key {
                seq![text] + lines_for(events, key, i + 1)
            } else {
                lines_for(events, key, i + 1)
            },
            _ => lines_for(events, key, i + 1),
        }
    } else {
        Seq::<Seq<char>>::empty()
    }
}

/// The newest `cap` of `lines`.
pub open spec fn newest(lines: Seq<Seq<char>>, cap: int) -> Seq<Seq<char>> {
    if lines.len() > cap {
        lines.subrange(lines.len() - cap, lines.len() as int)
    } else {
        lines
    }
}

/// A pane shows the newest lines of its pod in the order in which they
/// arrived: after any events, whatever other pods wrote in between, the
/// buffer of a pane holds what it held before and then the lines that
/// arrived for its pod, cut to the newest that the buffer has room for.
pub proof fn law_pane_keeps_the_newest_lines(
    engine: EngineModel,
    events: Seq<TrackEvent>,
    key: Seq<char>,
    i: int,
)
    requires
        0 <= i <= events.len(),
        well_keyed(engine.state),
        engine.state.panes.len() + (events.len() - i) < usize::MAX,
        engine.state.pane_index.contains_key(key),
        engine.state.panes[engine.state.pane_index[key] as int].lines.len() <= MAX_LOG_LINES,
    ensures
        ({
            let index = engine.state.pane_index[key] as int;
            let after = engine.after_events(events, i).state;
            &&& after.pane_index.contains_key(key)
            &&& after.pane_index[key] == index
            &&& index < after.panes.len()
            &&& after.panes[index].key == key
            &&& after.panes[index].lines == newest(
                engine.state.panes[index].lines + lines_for(events, key, i),
                MAX_LOG_LINES as int,
            )
        }),
    decreases events.len() - i,
{
    let state = engine.state;
    let keys = keys_of(state.panes);
    lemma_index_map_holds_the_keys(keys);
    let index = state.pane_index[key] as int;
    let held = state.panes[index].lines;
    assert(keys[index] == key);
    if i < events.len() {
        let next = engine.after_event(events[i]@);
        law_events_keep_pane_keys_unique(engine, events[i]@);
        let rest = lines_for(events, key, i + 1);
        match events[i]@ {
            EventModel::LogLine { pod_key, text } => {
                if state.pane_index.contains_key(pod_key) {
                    let at = state.pane_index[pod_key] as int;
                    assert(keys[at] == pod_key);
                    if pod_key == key {
                        let grown = next.state.panes[index].lines;
                        assert(grown == newest(held.push(text), MAX_LOG_LINES as int));
                        law_pane_keeps_the_newest_lines(next, events, key, i + 1);
                        assert(newest(grown + rest, MAX_LOG_LINES as int) =~= newest(
                            held + (seq![text] + rest),
                            MAX_LOG_LINES as int,
                        ));
                    } else {
                        assert(at != index);
                        law_pane_keeps_the_newest_lines(next, events, key, i + 1);
                    }
                } else {
                    law_pane_keeps_the_newest_lines(next, events, key, i + 1);
                }
            },
            EventModel::NewPod { pod, alive } => {
                law_pane_keeps_the_newest_lines(next, events, key, i + 1);
            },
        }
    } else {
        assert(held + Seq::<Seq<char>>::empty() =~= held);
    }
}

} // verus!
