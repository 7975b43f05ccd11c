use vstd::prelude::*;
use crate::feeds::{content_len, decimal, digit_char, to_decimal, FeedMessage};
use crate::layout::{grid_cell, grid_dimensions, max_col, max_row, plan_grid, CellRect, Placement};
use crate::panel::{max_scroll, same_but_offset, same_but_selection, FeedSource, FeedWidget, Panel};

verus! {

/// How one panel is configured: its title, its feed and its grid cell.
#[derive(Debug)]
pub struct WidgetConfig {
    pub title: String,
    pub source: FeedSource,
    pub position: (usize, usize),
}

/// The dashboard's configuration: the refresh interval shared by all
/// panels, and the panels in order.
#[derive(Debug)]
pub struct Config {
    pub refresh_interval_secs: u64,
    pub widgets: Vec<WidgetConfig>,
}

/// A key press: the key and whether Control was held.
#[derive(Debug, Clone, Copy, PartialEq, Eq, Structural)]
pub struct KeyPress {
    pub code: KeyCode,
    pub ctrl: bool,
}

#[derive(Debug, Clone, Copy, PartialEq, Eq, Structural)]
pub enum KeyCode {
    Char(char),
    Tab,
    BackTab,
    Up,
    Down,
    Other,
}

/// An input event of the terminal.
#[derive(Debug, Clone, Copy, PartialEq, Eq, Structural)]
pub enum Event {
    Key(KeyPress),
    Tick,
    Resize(u16, u16),
    Mouse,
}

/// What an input event asks the dashboard to do.
#[derive(Debug, Clone, Copy, PartialEq, Eq, Structural)]
pub enum Command {
    Quit,
    Refresh,
    Next,
    Prev,
    ScrollDown,
    ScrollUp,
    Nothing,
}

/// `q` and Control-C quit, `r` asks for a refresh, Tab and Shift-Tab move
/// the selection, Down or `j` and Up or `k` scroll; anything else does nothing.
pub open spec fn command_of(e: Event) -> Command {
    match e {
        Event::Key(k) => match k.code {
            KeyCode::Char(c) => if c == 'q' {
                Command::Quit
            } else if c == 'c' && k.ctrl {
                Command::Quit
            } else if c == 'r' {
                Command::Refresh
            } else if c == 'j' {
                Command::ScrollDown
            } else if c == 'k' {
                Command::ScrollUp
            } else {
                Command::Nothing
            },
            KeyCode::Tab => Command::Next,
            KeyCode::BackTab => Command::Prev,
            KeyCode::Down => Command::ScrollDown,
            KeyCode::Up => Command::ScrollUp,
            KeyCode::Other => Command::Nothing,
        },
        _ => Command::Nothing,
    }
}

/// Reads the command that an event asks for.
pub fn command_for(e: Event) -> (r: Command)
    ensures
        r == command_of(e),
{
    match e {
        Event::Key(k) => match k.code {
            KeyCode::Char(c) => if c == 'q' {
                Command::Quit
            } else if c == 'c' && k.ctrl {
                Command::Quit
            } else if c == 'r' {
                Command::Refresh
            } else if c == 'j' {
                Command::ScrollDown
            } else if c == 'k' {
                Command::ScrollUp
            } else {
                Command::Nothing
            },
            KeyCode::Tab => Command::Next,
            KeyCode::BackTab => Command::Prev,
            KeyCode::Down => Command::ScrollDown,
            KeyCode::Up => Command::ScrollUp,
            KeyCode::Other => Command::Nothing,
        },
        _ => Command::Nothing,
    }
}

/// The id given to the panel at `index`.
pub open spec fn panel_id_of(index: nat) -> Seq<char> {
    "panel-"@ + decimal(index)
}

/// A number with two or more digits has no one-digit decimal form.
proof fn lemma_decimal_len(n: nat)
    ensures
        decimal(n).len() >= 1,
        n >= 10 ==> decimal(n).len() >= 2,
    decreases n,
{
    if n >= 10 {
        lemma_decimal_len(n / 10);
    }
}

proof fn lemma_digit_char_injective(a: nat, b: nat)
    requires
        a < 10,
        b < 10,
        digit_char(a) == digit_char(b),
    ensures
        a == b,
{
    assert((digit_char(a) as nat) == 48 + a);
    assert((digit_char(b) as nat) == 48 + b);
}

/// Distinct numbers have distinct decimal forms.
pub proof fn lemma_decimal_injective(a: nat, b: nat)
    requires
        decimal(a) == decimal(b),
    ensures
        a == b,
    decreases a,
{
    lemma_decimal_len(a);
    lemma_decimal_len(b);
    if a < 10 && b < 10 {
        assert(decimal(a)[0] == digit_char(a));
        assert(decimal(b)[0] == digit_char(b));
        lemma_digit_char_injective(a, b);
    } else if a >= 10 && b >= 10 {
        let da = decimal(a);
        let db = decimal(b);
        assert(da.last() == digit_char(a % 10));
        assert(db.last() == digit_char(b % 10));
        lemma_digit_char_injective(a % 10, b % 10);
        assert(da.drop_last() =~= decimal(a / 10));
        assert(db.drop_last() =~= decimal(b / 10));
        lemma_decimal_injective(a / 10, b / 10);
        assert(a == 10 * (a / 10) + a % 10);
        assert(b == 10 * (b / 10) + b % 10);
    } else {
        assert(decimal(a).len() != decimal(b).len());
    }
}

/// Panels at different indices get different ids.
pub proof fn lemma_panel_ids_distinct(i: nat, j: nat)
    requires
        i != j,
    ensures
        panel_id_of(i) != panel_id_of(j),
{
    if panel_id_of(i) == panel_id_of(j) {
        let p = "panel-"@;
        assert(panel_id_of(i).skip(p.len() as int) =~= decimal(i));
        assert(panel_id_of(j).skip(p.len() as int) =~= decimal(j));
        lemma_decimal_injective(i, j);
    }
}

fn panel_id(index: usize) -> (r: String)
    ensures
        r@ == panel_id_of(index as nat),
{
    let digits = to_decimal(index as u64);
    let r = String::from_str("panel-");
    r.concat(digits.as_str())
}

/// The selection after Tab: the next panel, wrapping around.
pub open spec fn next_index(sel: nat, len: nat) -> nat {
    if len == 0 { 0 } else { (sel + 1) % len }
}

/// The selection after Shift-Tab: the previous panel, wrapping around.
pub open spec fn prev_index(sel: nat, len: nat) -> nat {
    if len == 0 { 0 } else if sel == 0 { (len - 1) as nat } else { (sel - 1) as nat }
}

/// The selection after `k` presses of Tab.
pub open spec fn after_tabs(sel: nat, len: nat, k: nat) -> nat
    decreases k,
{
    if k == 0 { sel } else { next_index(after_tabs(sel, len, (k - 1) as nat), len) }
}

/// The selection after `k` presses of Shift-Tab.
pub open spec fn after_back_tabs(sel: nat, len: nat, k: nat) -> nat
    decreases k,
{
    if k == 0 { sel } else { prev_index(after_back_tabs(sel, len, (k - 1) as nat), len) }
}

/// The orchestrator's state: the panels, which one is selected, and
/// whether the user asked to quit.
#[derive(Debug)]
pub struct App {
    pub widgets: Vec<Panel>,
    pub selected_widget: usize,
    pub should_quit: bool,
    pub refresh_interval_secs: u64,
}

impl App {
    /// Exactly the selected panel carries the selection flag, ids are
    /// unique, offsets are in bounds and positions fit the layout engine.
    pub open spec fn wf(&self) -> bool {
        &&& (self.widgets@.len() == 0 ==> self.selected_widget == 0)
        &&& (self.widgets@.len() > 0 ==> self.selected_widget < self.widgets@.len())
        &&& forall|i: int| 0 <= i < self.widgets@.len() ==>
            (#[trigger] self.widgets@[i]).selected == (i == self.selected_widget)
        &&& forall|i: int| 0 <= i < self.widgets@.len() ==> (#[trigger] self.widgets@[i]).scroll_ok()
        &&& forall|i: int, j: int| 0 <= i < self.widgets@.len() && 0 <= j < self.widgets@.len() && i != j
            ==> #[trigger] self.widgets@[i].id@ != #[trigger] self.widgets@[j].id@
        &&& forall|i: int| 0 <= i < self.widgets@.len() ==>
            (#[trigger] self.widgets@[i]).position.0 < u32::MAX && self.widgets@[i].position.1 < u32::MAX
    }

    pub open spec fn positions(&self) -> Seq<(usize, usize)> {
        self.widgets@.map_values(|p: Panel| p.position)
    }

    /// Builds one loading panel per configured widget, in order, with ids
    /// `panel-0`, `panel-1`, ...; the first panel is selected.
    pub fn new(config: Config) -> (r: Self)
        requires
            forall|i: int| 0 <= i < config.widgets@.len() ==>
                (#[trigger] config.widgets@[i]).position.0 < u32::MAX && config.widgets@[i].position.1 < u32::MAX,
        ensures
            r.wf(),
            r.selected_widget == 0,
            !r.should_quit,
            r.refresh_interval_secs == config.refresh_interval_secs,
            r.widgets@.len() == config.widgets@.len(),
            forall|i: int| 0 <= i < r.widgets@.len() ==> {
                let w = #[trigger] r.widgets@[i];
                let c = config.widgets@[i];
                &&& w.id@ == panel_id_of(i as nat)
                &&& w.title == c.title
                &&& w.source == c.source
                &&& w.position == c.position
                &&& w.data is Loading
                &&& w.scroll_offset == 0
            },
    {
        let ghost cfg = config.widgets@;
        let mut configs = config.widgets;
        let mut widgets: Vec<Panel> = Vec::new();
        let mut i: usize = 0;
        let total: usize = configs.len();
        while configs.len() > 0
            invariant
                configs@.len() + i == cfg.len(),
                cfg.len() == total,
                configs@ == cfg.subrange(i as int, cfg.len() as int),
                widgets@.len() == i,
                forall|k: int| 0 <= k < cfg.len() ==>
                    (#[trigger] cfg[k]).position.0 < u32::MAX && cfg[k].position.1 < u32::MAX,
                forall|k: int| 0 <= k < i ==> {
                    let w = #[trigger] widgets@[k];
                    let c = cfg[k];
                    &&& w.id@ == panel_id_of(k as nat)
                    &&& w.title == c.title
                    &&& w.source == c.source
                    &&& w.position == c.position
                    &&& w.data is Loading
                    &&& w.scroll_offset == 0
                    &&& w.visible_height == 1
                    &&& w.selected == (k == 0)
                },
            decreases configs@.len(),
        {
            let c = configs.remove(0);
            let id = panel_id(i);
            let mut p = Panel::new(id, c.title, c.source, c.position);
            if i == 0 {
                p.mark_selected(true);
            }
            widgets.push(p);
            i = i + 1;
            assert(configs@ =~= cfg.subrange(i as int, cfg.len() as int));
        }
        let r = App {
            widgets,
            selected_widget: 0,
            should_quit: false,
            refresh_interval_secs: config.refresh_interval_secs,
        };
        assert forall|a: int, b: int| 0 <= a < r.widgets@.len() && 0 <= b < r.widgets@.len() && a != b
            implies #[trigger] r.widgets@[a].id@ != #[trigger] r.widgets@[b].id@ by {
            lemma_panel_ids_distinct(a as nat, b as nat);
        }
        r
    }

    /// Tab: deselects the current panel and selects the next, wrapping
    /// around; nothing happens without panels.
    pub fn next_widget(&mut self)
        requires
            old(self).wf(),
        ensures
            final(self).wf(),
            final(self).selected_widget == next_index(old(self).selected_widget as nat, old(self).widgets@.len()),
            final(self).should_quit == old(self).should_quit,
            final(self).refresh_interval_secs == old(self).refresh_interval_secs,
            final(self).widgets@.len() == old(self).widgets@.len(),
            forall|i: int| 0 <= i < old(self).widgets@.len() ==>
                same_but_selection(#[trigger] final(self).widgets@[i], old(self).widgets@[i]),
    {
        let len = self.widgets.len();
        if len > 0 {
            let next = (self.selected_widget + 1) % len;
            self.select(next);
        }
    }

    /// Shift-Tab: deselects the current panel and selects the previous,
    /// wrapping around; nothing happens without panels.
    pub fn prev_widget(&mut self)
        requires
            old(self).wf(),
        ensures
            final(self).wf(),
            final(self).selected_widget == prev_index(old(self).selected_widget as nat, old(self).widgets@.len()),
            final(self).should_quit == old(self).should_quit,
            final(self).refresh_interval_secs == old(self).refresh_interval_secs,
            final(self).widgets@.len() == old(self).widgets@.len(),
            forall|i: int| 0 <= i < old(self).widgets@.len() ==>
                same_but_selection(#[trigger] final(self).widgets@[i], old(self).widgets@[i]),
    {
        let len = self.widgets.len();
        if len > 0 {
            let prev = if self.selected_widget == 0 { len - 1 } else { self.selected_widget - 1 };
            self.select(prev);
        }
    }

    fn select(&mut self, next: usize)
        requires
            old(self).wf(),
            next < old(self).widgets@.len(),
        ensures
            final(self).wf(),
            final(self).selected_widget == next,
            final(self).should_quit == old(self).should_quit,
            final(self).refresh_interval_secs == old(self).refresh_interval_secs,
            final(self).widgets@.len() == old(self).widgets@.len(),
            forall|i: int| 0 <= i < old(self).widgets@.len() ==>
                same_but_selection(#[trigger] final(self).widgets@[i], old(self).widgets@[i]),
    {
        let cur = self.selected_widget;
        let ghost w0 = self.widgets@;
        let mut p = self.widgets.remove(cur);
        p.mark_selected(false);
        self.widgets.insert(cur, p);
        let ghost w1 = self.widgets@;
        assert(w1 =~= w0.update(cur as int, w1[cur as int]));
        let mut q = self.widgets.remove(next);
        q.mark_selected(true);
        self.widgets.insert(next, q);
        let ghost w2 = self.widgets@;
        assert(w2 =~= w1.update(next as int, w2[next as int]));
        self.selected_widget = next;
        assert forall|a: int, b: int| 0 <= a < w2.len() && 0 <= b < w2.len() && a != b
            implies #[trigger] w2[a].id@ != #[trigger] w2[b].id@ by {
            assert(w2[a].id == w0[a].id);
            assert(w2[b].id == w0[b].id);
        }
        assert forall|i: int| 0 <= i < w2.len() implies (#[trigger] w2[i]).position.0 < u32::MAX
            && w2[i].position.1 < u32::MAX by {
            assert(w2[i].position == w0[i].position);
        }
    }

    /// Scrolls the selected panel one line down; nothing happens without panels.
    pub fn scroll_down(&mut self)
        requires
            old(self).wf(),
        ensures
            final(self).wf(),
            final(self).selected_widget == old(self).selected_widget,
            final(self).should_quit == old(self).should_quit,
            final(self).refresh_interval_secs == old(self).refresh_interval_secs,
            final(self).widgets@.len() == old(self).widgets@.len(),
            forall|i: int| 0 <= i < old(self).widgets@.len() && i != old(self).selected_widget ==>
                #[trigger] final(self).widgets@[i] == old(self).widgets@[i],
            old(self).widgets@.len() > 0 ==> {
                let p = old(self).widgets@[old(self).selected_widget as int];
                let q = final(self).widgets@[old(self).selected_widget as int];
                &&& same_but_offset(q, p)
                &&& q.scroll_offset == if p.offset() < p.max_offset() { p.scroll_offset + 1 } else { p.scroll_offset as int }
            },
    {
        if self.widgets.len() > 0 {
            let cur = self.selected_widget;
            let ghost w0 = self.widgets@;
            let mut p = self.widgets.remove(cur);
            p.step_down();
            self.widgets.insert(cur, p);
            let ghost w1 = self.widgets@;
            assert(w1 =~= w0.update(cur as int, w1[cur as int]));
            assert forall|a: int, b: int| 0 <= a < w1.len() && 0 <= b < w1.len() && a != b
                implies #[trigger] w1[a].id@ != #[trigger] w1[b].id@ by {
                assert(w1[a].id == w0[a].id);
                assert(w1[b].id == w0[b].id);
            }
        }
    }

    /// Scrolls the selected panel one line up; nothing happens without panels.
    pub fn scroll_up(&mut self)
        requires
            old(self).wf(),
        ensures
            final(self).wf(),
            final(self).selected_widget == old(self).selected_widget,
            final(self).should_quit == old(self).should_quit,
            final(self).refresh_interval_secs == old(self).refresh_interval_secs,
            final(self).widgets@.len() == old(self).widgets@.len(),
            forall|i: int| 0 <= i < old(self).widgets@.len() && i != old(self).selected_widget ==>
                #[trigger] final(self).widgets@[i] == old(self).widgets@[i],
            old(self).widgets@.len() > 0 ==> {
                let p = old(self).widgets@[old(self).selected_widget as int];
                let q = final(self).widgets@[old(self).selected_widget as int];
                &&& same_but_offset(q, p)
                &&& q.scroll_offset == if p.scroll_offset > 0 { p.scroll_offset - 1 } else { 0 }
            },
    {
        if self.widgets.len() > 0 {
            let cur = self.selected_widget;
            let ghost w0 = self.widgets@;
            let mut p = self.widgets.remove(cur);
            p.step_up();
            self.widgets.insert(cur, p);
            let ghost w1 = self.widgets@;
            assert(w1 =~= w0.update(cur as int, w1[cur as int]));
            assert forall|a: int, b: int| 0 <= a < w1.len() && 0 <= b < w1.len() && a != b
                implies #[trigger] w1[a].id@ != #[trigger] w1[b].id@ by {
                assert(w1[a].id == w0[a].id);
                assert(w1[b].id == w0[b].id);
            }
        }
    }
    /// Hands a snapshot to the panel whose id the message names. That panel
    /// gets the snapshot (its offset shrinks to fit); every other panel, and
    /// everything else, stays as it was. A message for no panel changes nothing.
    pub fn handle_feed_message(&mut self, msg: FeedMessage)
        requires
            old(self).wf(),
        ensures
            final(self).wf(),
            final(self).selected_widget == old(self).selected_widget,
            final(self).should_quit == old(self).should_quit,
            final(self).refresh_interval_secs == old(self).refresh_interval_secs,
            final(self).widgets@.len() == old(self).widgets@.len(),
            forall|j: int| 0 <= j < old(self).widgets@.len() && old(self).widgets@[j].id@ != msg.widget_id@ ==>
                #[trigger] final(self).widgets@[j] == old(self).widgets@[j],
            forall|j: int| 0 <= j < old(self).widgets@.len() && old(self).widgets@[j].id@ == msg.widget_id@ ==> {
                let p = old(self).widgets@[j];
                let q = #[trigger] final(self).widgets@[j];
                &&& q.data == msg.data
                &&& q.scroll_offset == if p.offset() <= q.max_offset() { p.scroll_offset as nat } else { q.max_offset() }
                &&& q.id == p.id
                &&& q.title == p.title
                &&& q.source == p.source
                &&& q.position == p.position
                &&& q.selected == p.selected
                &&& q.visible_height == p.visible_height
            },
    {
        let ghost w0 = self.widgets@;
        let mut i: usize = 0;
        let len = self.widgets.len();
        while i < len
            invariant
                len == w0.len(),
                i <= len,
                self.widgets@ == w0,
                self.selected_widget == old(self).selected_widget,
                self.should_quit == old(self).should_quit,
                self.refresh_interval_secs == old(self).refresh_interval_secs,
                w0 == old(self).widgets@,
                old(self).wf(),
                forall|k: int| 0 <= k < i ==> (#[trigger] w0[k]).id@ != msg.widget_id@,
            decreases len - i,
        {
            if self.widgets[i].id == msg.widget_id {
                let mut p = self.widgets.remove(i);
                p.replace_data(msg.data);
                self.widgets.insert(i, p);
                let ghost w1 = self.widgets@;
                assert(w1 =~= w0.update(i as int, w1[i as int]));
                assert forall|a: int, b: int| 0 <= a < w1.len() && 0 <= b < w1.len() && a != b
                    implies #[trigger] w1[a].id@ != #[trigger] w1[b].id@ by {
                    assert(w1[a].id == w0[a].id);
                    assert(w1[b].id == w0[b].id);
                }
                assert forall|j: int| 0 <= j < w0.len() && w0[j].id@ == msg.widget_id@ implies j == i by {
                    if j != i {
                        assert(w0[j].id@ != w0[i as int].id@);
                    }
                }
                return;
            }
            i = i + 1;
        }
    }

    /// The manual refresh key. Fetch loops poll continuously, so it leaves
    /// the state as it is.
    pub fn refresh_all(&self) {
    }

    /// Reacts to one input event: see `command_of`. Quitting sets the flag
    /// and nothing else; refresh, ticks, resizes and mouse events change nothing.
    pub fn handle_event(&mut self, event: Event)
        requires
            old(self).wf(),
        ensures
            final(self).wf(),
            final(self).refresh_interval_secs == old(self).refresh_interval_secs,
            final(self).widgets@.len() == old(self).widgets@.len(),
            final(self).should_quit == (old(self).should_quit || command_of(event) == Command::Quit),
            command_of(event) == Command::Next ==>
                final(self).selected_widget == next_index(old(self).selected_widget as nat, old(self).widgets@.len()),
            command_of(event) == Command::Prev ==>
                final(self).selected_widget == prev_index(old(self).selected_widget as nat, old(self).widgets@.len()),
            (command_of(event) == Command::Next || command_of(event) == Command::Prev) ==>
                forall|i: int| 0 <= i < old(self).widgets@.len() ==>
                    same_but_selection(#[trigger] final(self).widgets@[i], old(self).widgets@[i]),
            (command_of(event) == Command::ScrollDown || command_of(event) == Command::ScrollUp) ==> {
                &&& final(self).selected_widget == old(self).selected_widget
                &&& forall|i: int| 0 <= i < old(self).widgets@.len() && i != old(self).selected_widget ==>
                    #[trigger] final(self).widgets@[i] == old(self).widgets@[i]
                &&& old(self).widgets@.len() > 0 ==> same_but_offset(
                    final(self).widgets@[old(self).selected_widget as int],
                    old(self).widgets@[old(self).selected_widget as int],
                )
            },
            command_of(event) == Command::ScrollDown && old(self).widgets@.len() > 0 ==> {
                let p = old(self).widgets@[old(self).selected_widget as int];
                final(self).widgets@[old(self).selected_widget as int].scroll_offset
                    == if p.offset() < p.max_offset() { p.scroll_offset + 1 } else { p.scroll_offset as int }
            },
            command_of(event) == Command::ScrollUp && old(self).widgets@.len() > 0 ==> {
                let p = old(self).widgets@[old(self).selected_widget as int];
                final(self).widgets@[old(self).selected_widget as int].scroll_offset
                    == if p.scroll_offset > 0 { p.scroll_offset - 1 } else { 0 }
            },
            (command_of(event) == Command::Quit || command_of(event) == Command::Refresh
                || command_of(event) == Command::Nothing) ==> {
                &&& final(self).selected_widget == old(self).selected_widget
                &&& final(self).widgets@ == old(self).widgets@
            },
    {
        match command_for(event) {
            Command::Quit => self.should_quit = true,
            Command::Refresh => self.refresh_all(),
            Command::Next => self.next_widget(),
            Command::Prev => self.prev_widget(),
            Command::ScrollDown => self.scroll_down(),
            Command::ScrollUp => self.scroll_up(),
            Command::Nothing => {},
        }
    }

    /// The grid's bounds over all panels: the largest row and column,
    /// `(0, 0)` without panels.
    pub fn calculate_grid_dimensions(&self) -> (r: (usize, usize))
        ensures
            r.0 == max_row(self.positions()),
            r.1 == max_col(self.positions()),
    {
        let positions = self.collect_positions();
        grid_dimensions(&positions)
    }

    fn collect_positions(&self) -> (r: Vec<(usize, usize)>)
        ensures
            r@ == self.positions(),
    {
        let mut out: Vec<(usize, usize)> = Vec::new();
        let mut i: usize = 0;
        while i < self.widgets.len()
            invariant
                i <= self.widgets@.len(),
                out@ =~= self.positions().subrange(0, i as int),
            decreases self.widgets@.len() - i,
        {
            out.push(self.widgets[i].position);
            i = i + 1;
        }
        out
    }

    /// Where each panel is drawn on `area`, in panel order: every panel in
    /// its grid cell, the selected one flagged. Nothing without panels.
    pub fn render_plan(&self, area: CellRect) -> (r: Vec<Placement>)
        requires
            self.wf(),
        ensures
            r@.len() == self.widgets@.len(),
            forall|i: int| 0 <= i < r@.len() ==> {
                &&& (#[trigger] r@[i]).panel == i
                &&& r@[i].selected == (i == self.selected_widget)
                &&& r@[i].area@ == grid_cell(
                    area@,
                    max_row(self.positions()) + 1,
                    max_col(self.positions()) + 1,
                    self.widgets@[i].position,
                )
            },
    {
        let positions = self.collect_positions();
        plan_grid(area, &positions, self.selected_widget)
    }

    /// Sets how many lines panel `index` shows; its offset shrinks to fit.
    pub fn set_panel_height(&mut self, index: usize, height: usize)
        requires
            old(self).wf(),
            index < old(self).widgets@.len(),
        ensures
            final(self).wf(),
            final(self).selected_widget == old(self).selected_widget,
            final(self).should_quit == old(self).should_quit,
            final(self).refresh_interval_secs == old(self).refresh_interval_secs,
            final(self).widgets@.len() == old(self).widgets@.len(),
            forall|i: int| 0 <= i < old(self).widgets@.len() && i != index ==>
                #[trigger] final(self).widgets@[i] == old(self).widgets@[i],
            final(self).widgets@[index as int].visible_height == height,
    {
        let ghost w0 = self.widgets@;
        let mut p = self.widgets.remove(index);
        p.set_visible_height(height);
        self.widgets.insert(index, p);
        let ghost w1 = self.widgets@;
        assert(w1 =~= w0.update(index as int, w1[index as int]));
        assert forall|a: int, b: int| 0 <= a < w1.len() && 0 <= b < w1.len() && a != b
            implies #[trigger] w1[a].id@ != #[trigger] w1[b].id@ by {
            assert(w1[a].id == w0[a].id);
            assert(w1[b].id == w0[b].id);
        }
    }
}

/// Whenever there are panels, exactly one of them is selected: the one
/// at `selected_widget`.
pub proof fn lemma_exactly_one_selected(app: App)
    requires
        app.wf(),
        app.widgets@.len() > 0,
    ensures
        exists|i: int| 0 <= i < app.widgets@.len() && (#[trigger] app.widgets@[i]).selected,
        forall|i: int, j: int| 0 <= i < app.widgets@.len() && 0 <= j < app.widgets@.len()
            && (#[trigger] app.widgets@[i]).selected && (#[trigger] app.widgets@[j]).selected ==> i == j,
{
    assert(app.widgets@[app.selected_widget as int].selected);
}

/// Every panel's scroll offset lies between zero and its content length
/// less its visible height (zero when the content fits).
pub proof fn lemma_offsets_in_bounds(app: App)
    requires
        app.wf(),
    ensures
        forall|i: int| 0 <= i < app.widgets@.len() ==>
            (#[trigger] app.widgets@[i]).scroll_offset <= max_scroll(
                content_len(app.widgets@[i].data),
                app.widgets@[i].visible_height as nat,
            ),
{
    assert forall|i: int| 0 <= i < app.widgets@.len() implies (#[trigger] app.widgets@[i]).scroll_offset
        <= max_scroll(content_len(app.widgets@[i].data), app.widgets@[i].visible_height as nat) by {
        assert(app.widgets@[i].scroll_ok());
    }
}

proof fn lemma_after_tabs_mod(sel: nat, len: nat, k: nat)
    requires
        sel < len,
    ensures
        after_tabs(sel, len, k) as int == ((sel + k) as int) % (len as int),
    decreases k,
{
    if k > 0 {
        lemma_after_tabs_mod(sel, len, (k - 1) as nat);
        let a = sel + k - 1;
        vstd::arithmetic::div_mod::lemma_add_mod_noop(a, 1, len as int);
        vstd::arithmetic::div_mod::lemma_mod_bound(a, len as int);
        if len > 1 {
            vstd::arithmetic::div_mod::lemma_small_mod(1, len);
            assert(((a % (len as int)) + 1) % (len as int) == (a + 1) % (len as int));
        } else {
            vstd::arithmetic::div_mod::lemma_mod_self_0(1);
            assert((a + 1) % 1 == 0);
        }
    } else {
        vstd::arithmetic::div_mod::lemma_small_mod(sel, len);
    }
}

proof fn lemma_after_back_tabs_mod(sel: nat, len: nat, k: nat)
    requires
        sel < len,
    ensures
        after_back_tabs(sel, len, k) as int == (sel as int - k as int) % (len as int),
    decreases k,
{
    if k > 0 {
        lemma_after_back_tabs_mod(sel, len, (k - 1) as nat);
        let a = sel - (k - 1);
        let x = a % (len as int);
        vstd::arithmetic::div_mod::lemma_mod_bound(a, len as int);
        vstd::arithmetic::div_mod::lemma_sub_mod_noop(a, 1, len as int);
        if len > 1 {
            vstd::arithmetic::div_mod::lemma_small_mod(1, len);
        } else {
            vstd::arithmetic::div_mod::lemma_mod_self_0(1);
        }
        if x == 0 {
            vstd::arithmetic::div_mod::lemma_mod_add_multiples_vanish(-1, len as int);
            vstd::arithmetic::div_mod::lemma_small_mod((len - 1) as nat, len);
        } else {
            vstd::arithmetic::div_mod::lemma_small_mod((x - 1) as nat, len);
        }
    } else {
        vstd::arithmetic::div_mod::lemma_small_mod(sel, len);
    }
}

/// Pressing Tab as many times as there are panels, or Shift-Tab as many
/// times, brings the selection back to where it started.
pub proof fn lemma_full_cycle_returns(sel: nat, len: nat)
    requires
        sel < len,
    ensures
        after_tabs(sel, len, len) == sel,
        after_back_tabs(sel, len, len) == sel,
{
    lemma_after_tabs_mod(sel, len, len);
    lemma_after_back_tabs_mod(sel, len, len);
    vstd::arithmetic::div_mod::lemma_mod_add_multiples_vanish(sel as int, len as int);
    vstd::arithmetic::div_mod::lemma_mod_sub_multiples_vanish(sel as int, len as int);
    vstd::arithmetic::div_mod::lemma_small_mod(sel, len);
}

} // verus!
