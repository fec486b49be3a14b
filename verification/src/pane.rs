//! The view state of one pod: its buffered log lines and scroll position.

use crate::term::Color;
use std::collections::VecDeque;
use vstd::prelude::*;

verus! {

/// The most lines that a pane keeps.
pub const MAX_LOG_LINES: usize = 5000;

/// The fewest rows that a pane is drawn with.
pub const MIN_PANE_HEIGHT: u16 = 12;

/// What a pane holds, as mathematical values.
pub struct PaneModel {
    pub key: Seq<char>,
    pub color: Color,
    pub lines: Seq<Seq<char>>,
    pub alive: bool,
    /// `None` follows the tail; `Some(n)` is a fixed offset from the top.
    pub scroll_up: Option<usize>,
}

/// The texts of `lines`.
pub open spec fn texts_of(lines: Seq<String>) -> Seq<Seq<char>> {
    Seq::new(lines.len(), |i: int| lines[i]@)
}

/// A movement of a pane's view.
#[derive(Clone, Copy, Debug, PartialEq, Eq, Structural)]
pub enum Scroll {
    /// Towards the top by so many lines.
    Up(usize),
    /// Towards the tail by so many lines.
    Down(usize),
    /// To the first line.
    Home,
    /// Back to following the tail.
    End,
}

/// `a - b`, or 0 where `b` is the larger.
pub open spec fn minus(a: int, b: int) -> int {
    if a > b {
        a - b
    } else {
        0
    }
}

impl PaneModel {
    /// The offset of the first visible line when the view follows the tail.
    pub open spec fn tail_offset(self, height: int) -> int {
        minus(self.lines.len() as int, height)
    }

    /// The offset of the first visible line.
    pub open spec fn offset(self, height: int) -> int {
        match self.scroll_up {
            None => self.tail_offset(height),
            Some(pos) => if pos <= self.tail_offset(height) {
                pos as int
            } else {
                self.tail_offset(height)
            },
        }
    }

    /// The pane after one more line arrived.
    pub open spec fn pushed(self, line: Seq<char>) -> PaneModel {
        if self.lines.len() >= MAX_LOG_LINES {
            PaneModel {
                lines: self.lines.drop_first().push(line),
                scroll_up: match self.scroll_up {
                    Some(pos) => Some(minus(pos as int, 1) as usize),
                    None => None,
                },
                ..self
            }
        } else {
            PaneModel { lines: self.lines.push(line), ..self }
        }
    }

    /// The pane after scrolling `delta` lines towards the top.
    pub open spec fn scrolled_up(self, page_size: int, delta: int) -> PaneModel {
        let current = match self.scroll_up {
            Some(pos) => pos as int,
            None => self.tail_offset(page_size),
        };
        PaneModel { scroll_up: Some(minus(current, delta) as usize), ..self }
    }

    /// The pane after scrolling `delta` lines towards the tail.
    pub open spec fn scrolled_down(self, page_size: int, delta: int) -> PaneModel {
        match self.scroll_up {
            Some(pos) => if pos + delta >= self.tail_offset(page_size) {
                PaneModel { scroll_up: None, ..self }
            } else {
                PaneModel { scroll_up: Some((pos + delta) as usize), ..self }
            },
            None => self,
        }
    }

    /// The pane after a jump to its first line.
    pub open spec fn at_home(self) -> PaneModel {
        if self.lines.len() > 0 {
            PaneModel { scroll_up: Some(0usize), ..self }
        } else {
            self
        }
    }

    /// The pane following its tail again.
    pub open spec fn at_end(self) -> PaneModel {
        PaneModel { scroll_up: None, ..self }
    }

    /// The pane after `motion`, on a page of `page_size` lines.
    pub open spec fn moved(self, motion: Scroll, page_size: int) -> PaneModel {
        match motion {
            Scroll::Up(delta) => self.scrolled_up(page_size, delta as int),
            Scroll::Down(delta) => self.scrolled_down(page_size, delta as int),
            Scroll::Home => self.at_home(),
            Scroll::End => self.at_end(),
        }
    }
}

/// The buffered log of one pod and where its view stands.
#[derive(Clone)]
pub struct PodPane {
    /// The pod's identity, `"namespace/name"`.
    pub key: String,
    pub color: Color,
    /// The buffered lines, oldest first.
    pub lines: VecDeque<String>,
    /// Whether the pod's worker is to go on.
    pub alive: bool,
    /// `None` follows the tail; `Some(n)` is a fixed offset from the top.
    pub scroll_up: Option<usize>,
}

impl View for PodPane {
    type V = PaneModel;

    open spec fn view(&self) -> PaneModel {
        PaneModel {
            key: self.key@,
            color: self.color,
            lines: texts_of(self.lines@),
            alive: self.alive,
            scroll_up: self.scroll_up,
        }
    }
}

impl PodPane {
    /// The buffer holds no more than `MAX_LOG_LINES` lines.
    pub open spec fn wf(&self) -> bool {
        self.lines@.len() <= MAX_LOG_LINES
    }

    /// An empty pane that follows its tail.
    pub fn new(key: String, color: Color, alive: bool) -> (pane: PodPane)
        ensures
            pane.key == key,
            pane@ == (PaneModel {
                key: key@,
                color,
                lines: Seq::<Seq<char>>::empty(),
                alive,
                scroll_up: None,
            }),
            pane.wf(),
    {
        let pane = PodPane {
            key,
            color,
            lines: VecDeque::with_capacity(MAX_LOG_LINES),
            alive,
            scroll_up: None,
        };
        assert(texts_of(pane.lines@) =~= Seq::<Seq<char>>::empty());
        pane
    }

    /// Appends `line`. A full buffer first drops its oldest line, and a fixed
    /// scroll position then moves up by one so that the view stays on the
    /// same lines.
    pub fn push_line(&mut self, line: String)
        ensures
            final(self)@ == old(self)@.pushed(line@),
            final(self).key == old(self).key,
            old(self).wf() ==> final(self).wf(),
            old(self).lines@.len() >= MAX_LOG_LINES ==> final(self).lines@ == old(
                self,
            ).lines@.drop_first().push(line),
            old(self).lines@.len() < MAX_LOG_LINES ==> final(self).lines@ == old(self).lines@.push(
                line,
            ),
    {
        let was_at_max = self.lines.len() >= MAX_LOG_LINES;
        if was_at_max {
            let _ = self.lines.pop_front();
            if let Some(pos) = self.scroll_up {
                self.scroll_up = Some(if pos > 0 { pos - 1 } else { 0 });
            }
        }
        self.lines.push_back(line);
        proof {
            if was_at_max {
                assert(texts_of(self.lines@) =~= texts_of(old(self).lines@).drop_first().push(
                    line@,
                ));
            } else {
                assert(texts_of(self.lines@) =~= texts_of(old(self).lines@).push(line@));
            }
        }
    }

    /// The offset of the first visible line in a viewport of `inner_height`
    /// rows: the tail offset when following, else the fixed position, never
    /// past the tail offset.
    pub fn scroll_offset(&self, inner_height: usize) -> (offset: u16)
        requires
            self.wf(),
        ensures
            offset == self@.offset(inner_height as int),
    {
        let len = self.lines.len();
        let auto: usize = if len > inner_height { len - inner_height } else { 0 };
        match self.scroll_up {
            None => auto as u16,
            Some(pos) => if pos <= auto { pos as u16 } else { auto as u16 },
        }
    }

    /// Whether the view follows the tail.
    pub fn is_following(&self) -> (b: bool)
        ensures
            b == (self@.scroll_up is None),
    {
        self.scroll_up.is_none()
    }

    /// Scrolls `delta` lines towards the top, stopping at the first line.
    pub fn scroll_up_by(&mut self, page_size: usize, delta: usize)
        ensures
            final(self)@ == old(self)@.scrolled_up(page_size as int, delta as int),
            final(self).key == old(self).key,
            final(self).lines == old(self).lines,
    {
        let len = self.lines.len();
        let auto: usize = if len > page_size { len - page_size } else { 0 };
        let current: usize = match self.scroll_up {
            Some(pos) => pos,
            None => auto,
        };
        self.scroll_up = Some(if current > delta { current - delta } else { 0 });
    }

    /// Scrolls `delta` lines towards the tail. Reaching the tail resumes
    /// following it.
    pub fn scroll_down_by(&mut self, page_size: usize, delta: usize)
        ensures
            final(self)@ == old(self)@.scrolled_down(page_size as int, delta as int),
            final(self).key == old(self).key,
            final(self).lines == old(self).lines,
    {
        if let Some(pos) = self.scroll_up {
            let len = self.lines.len();
            let auto: usize = if len > page_size { len - page_size } else { 0 };
            if delta >= auto || pos >= auto - delta {
                self.scroll_up = None;
            } else {
                self.scroll_up = Some(pos + delta);
            }
        }
    }

    /// Jumps to the first line, unless the buffer is empty.
    pub fn scroll_home(&mut self)
        ensures
            final(self)@ == old(self)@.at_home(),
            final(self).key == old(self).key,
            final(self).lines == old(self).lines,
    {
        if self.lines.len() > 0 {
            self.scroll_up = Some(0);
        }
    }

    /// Resumes following the tail.
    pub fn scroll_end(&mut self)
        ensures
            final(self)@ == old(self)@.at_end(),
            final(self).key == old(self).key,
            final(self).lines == old(self).lines,
    {
        self.scroll_up = None;
    }

    /// Moves the view by `motion`, on a page of `page_size` lines.
    pub fn scroll(&mut self, motion: Scroll, page_size: usize)
        ensures
            final(self)@ == old(self)@.moved(motion, page_size as int),
            final(self).key == old(self).key,
            final(self).lines == old(self).lines,
    {
        match motion {
            Scroll::Up(delta) => self.scroll_up_by(page_size, delta),
            Scroll::Down(delta) => self.scroll_down_by(page_size, delta),
            Scroll::Home => self.scroll_home(),
            Scroll::End => self.scroll_end(),
        }
    }
}

/// Pushing a line into a full buffer drops the oldest line, keeps the
/// length, and moves a fixed scroll position up by one line; a position
/// that is already at the top stays there.
pub proof fn law_full_buffer_evicts_oldest(pane: PaneModel, line: Seq<char>)
    requires
        pane.lines.len() == MAX_LOG_LINES,
    ensures
        pane.pushed(line).lines.len() == MAX_LOG_LINES,
        pane.pushed(line).lines == pane.lines.subrange(1, MAX_LOG_LINES as int).push(line),
        pane.pushed(line).lines.last() == line,
        pane.scroll_up is None ==> pane.pushed(line).scroll_up is None,
        pane.scroll_up matches Some(pos) ==> (pos >= 1 ==> pane.pushed(line).scroll_up == Some(
            (pos - 1) as usize,
        )) && (pos == 0 ==> pane.pushed(line).scroll_up == Some(0usize)),
{
}

/// A pane that follows its tail starts at the line that leaves exactly one
/// viewport of lines below it, and at the first line where the buffer fits
/// the viewport.
pub proof fn law_tail_offset(pane: PaneModel, viewport_height: nat)
    requires
        pane.scroll_up is None,
    ensures
        pane.lines.len() > viewport_height ==> pane.offset(viewport_height as int)
            == pane.lines.len() - viewport_height,
        pane.lines.len() <= viewport_height ==> pane.offset(viewport_height as int) == 0,
{
}

/// A fixed scroll position is shown clamped: the offset is never below 0
/// and never beyond the tail offset.
pub proof fn law_offset_is_clamped(pane: PaneModel, viewport_height: nat)
    ensures
        0 <= pane.offset(viewport_height as int) <= minus(
            pane.lines.len() as int,
            viewport_height as int,
        ),
{
}

} // verus!
