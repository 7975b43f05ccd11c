use vstd::prelude::*;
use crate::feeds::{content_len, FeedData, HnFetcher, StocksFetcher};

verus! {

/// The fetcher a panel hands to its fetch loop.
#[derive(Debug, Clone)]
pub enum FeedSource {
    Hackernews(HnFetcher),
    Stocks(StocksFetcher),
}

/// Two fetchers fetch the same thing.
pub open spec fn same_source(a: FeedSource, b: FeedSource) -> bool {
    match (a, b) {
        (FeedSource::Hackernews(x), FeedSource::Hackernews(y)) => x.story_type@ == y.story_type@
            && x.story_count == y.story_count,
        (FeedSource::Stocks(x), FeedSource::Stocks(y)) => x.symbols@ == y.symbols@,
        _ => false,
    }
}

/// The largest scroll offset for `len` items shown `height` at a time.
pub open spec fn max_scroll(len: nat, height: nat) -> nat {
    if len > height {
        (len - height) as nat
    } else {
        0
    }
}

/// Two panels agree on everything but their selection flag.
pub open spec fn same_but_selection(p: Panel, q: Panel) -> bool {
    &&& p.id == q.id
    &&& p.title == q.title
    &&& p.source == q.source
    &&& p.position == q.position
    &&& p.data == q.data
    &&& p.scroll_offset == q.scroll_offset
    &&& p.visible_height == q.visible_height
}

/// Two panels agree on everything but their scroll offset.
pub open spec fn same_but_offset(p: Panel, q: Panel) -> bool {
    &&& p.id == q.id
    &&& p.title == q.title
    &&& p.source == q.source
    &&& p.position == q.position
    &&& p.data == q.data
    &&& p.selected == q.selected
    &&& p.visible_height == q.visible_height
}

/// What every panel offers the orchestrator: identity, fixed placement,
/// snapshot replacement, scrolling and selection.
pub trait FeedWidget {
    spec fn widget_id(&self) -> Seq<char>;

    spec fn widget_position(&self) -> (usize, usize);

    spec fn is_selected(&self) -> bool;

    spec fn offset(&self) -> nat;

    spec fn max_offset(&self) -> nat;

    spec fn snapshot(&self) -> FeedData;

    /// The scroll offset lies within its bounds.
    spec fn scroll_ok(&self) -> bool;

    fn id(&self) -> (r: String)
        ensures
            r@ == self.widget_id(),
    ;

    fn title(&self) -> &str;

    fn position(&self) -> (r: (usize, usize))
        ensures
            r == self.widget_position(),
    ;

    /// Replaces the snapshot; the offset shrinks to fit the new content.
    fn update_data(&mut self, data: FeedData)
        requires
            old(self).scroll_ok(),
        ensures
            final(self).scroll_ok(),
            final(self).snapshot() == data,
            final(self).widget_id() == old(self).widget_id(),
            final(self).widget_position() == old(self).widget_position(),
            final(self).is_selected() == old(self).is_selected(),
            final(self).offset() == if old(self).offset() <= final(self).max_offset() {
                old(self).offset()
            } else {
                final(self).max_offset()
            },
    ;

    /// The fetcher this panel was configured with.
    spec fn fetcher(&self) -> FeedSource;

    /// A fresh fetcher bound to this panel's configuration.
    fn create_fetcher(&self) -> (r: FeedSource)
        ensures
            same_source(r, self.fetcher()),
    ;

    /// Moves one line up; nothing happens at the top.
    fn scroll_up(&mut self)
        requires
            old(self).scroll_ok(),
        ensures
            final(self).scroll_ok(),
            final(self).offset() == if old(self).offset() > 0 {
                (old(self).offset() - 1) as nat
            } else {
                0
            },
            final(self).max_offset() == old(self).max_offset(),
            final(self).snapshot() == old(self).snapshot(),
            final(self).widget_id() == old(self).widget_id(),
            final(self).widget_position() == old(self).widget_position(),
            final(self).is_selected() == old(self).is_selected(),
    ;

    /// Moves one line down; nothing happens at the largest offset.
    fn scroll_down(&mut self)
        requires
            old(self).scroll_ok(),
        ensures
            final(self).scroll_ok(),
            final(self).offset() == if old(self).offset() < old(self).max_offset() {
                old(self).offset() + 1
            } else {
                old(self).offset()
            },
            final(self).max_offset() == old(self).max_offset(),
            final(self).snapshot() == old(self).snapshot(),
            final(self).widget_id() == old(self).widget_id(),
            final(self).widget_position() == old(self).widget_position(),
            final(self).is_selected() == old(self).is_selected(),
    ;

    fn set_selected(&mut self, selected: bool)
        requires
            old(self).scroll_ok(),
        ensures
            final(self).scroll_ok(),
            final(self).is_selected() == selected,
            final(self).offset() == old(self).offset(),
            final(self).max_offset() == old(self).max_offset(),
            final(self).snapshot() == old(self).snapshot(),
            final(self).widget_id() == old(self).widget_id(),
            final(self).widget_position() == old(self).widget_position(),
    ;
}

/// One panel of the dashboard and its display state.
#[derive(Debug)]
pub struct Panel {
    pub id: String,
    pub title: String,
    pub source: FeedSource,
    pub position: (usize, usize),
    pub data: FeedData,
    pub scroll_offset: usize,
    pub visible_height: usize,
    pub selected: bool,
}

impl Panel {
    /// A panel that is loading, unselected, scrolled to the top, one line high.
    pub fn new(id: String, title: String, source: FeedSource, position: (usize, usize)) -> (r: Self)
        ensures
            r.id == id,
            r.title == title,
            r.source == source,
            r.position == position,
            r.data is Loading,
            r.scroll_offset == 0,
            r.visible_height == 1,
            !r.selected,
            r.scroll_ok(),
    {
        Panel {
            id,
            title,
            source,
            position,
            data: FeedData::Loading,
            scroll_offset: 0,
            visible_height: 1,
            selected: false,
        }
    }

    fn max_offset_exec(&self) -> (r: usize)
        ensures
            r == self.max_offset(),
    {
        let len = self.data.len();
        if len > self.visible_height {
            len - self.visible_height
        } else {
            0
        }
    }

    /// Sets how many lines the panel shows; the offset shrinks to fit.
    pub fn set_visible_height(&mut self, height: usize)
        requires
            old(self).scroll_ok(),
        ensures
            final(self).scroll_ok(),
            final(self).visible_height == height,
            final(self).offset() == if old(self).offset() <= final(self).max_offset() {
                old(self).offset()
            } else {
                final(self).max_offset()
            },
            final(self).data == old(self).data,
            final(self).id == old(self).id,
            final(self).position == old(self).position,
            final(self).selected == old(self).selected,
    {
        self.visible_height = height;
        let m = self.max_offset_exec();
        if self.scroll_offset > m {
            self.scroll_offset = m;
        }
    }

    /// Sets the selection flag, nothing else.
    pub fn mark_selected(&mut self, selected: bool)
        ensures
            final(self).selected == selected,
            same_but_selection(*final(self), *old(self)),
    {
        self.selected = selected;
    }

    /// One line up, nothing else; nothing happens at the top.
    pub fn step_up(&mut self)
        requires
            old(self).scroll_ok(),
        ensures
            final(self).scroll_ok(),
            final(self).scroll_offset == if old(self).scroll_offset > 0 { old(self).scroll_offset - 1 } else { 0 },
            same_but_offset(*final(self), *old(self)),
    {
        if self.scroll_offset > 0 {
            self.scroll_offset = self.scroll_offset - 1;
        }
    }

    /// One line down, nothing else; nothing happens at the largest offset.
    pub fn step_down(&mut self)
        requires
            old(self).scroll_ok(),
        ensures
            final(self).scroll_ok(),
            final(self).scroll_offset == if old(self).offset() < old(self).max_offset() {
                old(self).scroll_offset + 1
            } else {
                old(self).scroll_offset as int
            },
            same_but_offset(*final(self), *old(self)),
    {
        let m = self.max_offset_exec();
        if self.scroll_offset < m {
            self.scroll_offset = self.scroll_offset + 1;
        }
    }

    /// Replaces the snapshot; the offset shrinks to fit the new content and
    /// nothing else changes.
    pub fn replace_data(&mut self, data: FeedData)
        requires
            old(self).scroll_ok(),
        ensures
            final(self).scroll_ok(),
            final(self).data == data,
            final(self).scroll_offset == if old(self).offset() <= final(self).max_offset() {
                old(self).scroll_offset as nat
            } else {
                final(self).max_offset()
            },
            final(self).id == old(self).id,
            final(self).title == old(self).title,
            final(self).source == old(self).source,
            final(self).position == old(self).position,
            final(self).selected == old(self).selected,
            final(self).visible_height == old(self).visible_height,
    {
        self.data = data;
        let m = self.max_offset_exec();
        if self.scroll_offset > m {
            self.scroll_offset = m;
        }
    }
}

impl FeedWidget for Panel {
    open spec fn widget_id(&self) -> Seq<char> {
        self.id@
    }

    open spec fn widget_position(&self) -> (usize, usize) {
        self.position
    }

    open spec fn is_selected(&self) -> bool {
        self.selected
    }

    open spec fn offset(&self) -> nat {
        self.scroll_offset as nat
    }

    open spec fn max_offset(&self) -> nat {
        max_scroll(content_len(self.data), self.visible_height as nat)
    }

    open spec fn snapshot(&self) -> FeedData {
        self.data
    }

    open spec fn fetcher(&self) -> FeedSource {
        self.source
    }

    open spec fn scroll_ok(&self) -> bool {
        self.offset() <= self.max_offset()
    }

    fn id(&self) -> (r: String) {
        self.id.clone()
    }

    fn title(&self) -> &str {
        self.title.as_str()
    }

    fn position(&self) -> (r: (usize, usize)) {
        self.position
    }

    fn update_data(&mut self, data: FeedData) {
        self.replace_data(data);
    }

    fn create_fetcher(&self) -> (r: FeedSource) {
        match &self.source {
            FeedSource::Hackernews(f) => FeedSource::Hackernews(
                HnFetcher::new(f.story_type.clone(), f.story_count),
            ),
            FeedSource::Stocks(f) => {
                let symbols = f.symbols.clone();
                assert(symbols@ =~= f.symbols@);
                FeedSource::Stocks(StocksFetcher::new(symbols))
            },
        }
    }

    fn scroll_up(&mut self) {
        self.step_up();
    }

    fn scroll_down(&mut self) {
        self.step_down();
    }

    fn set_selected(&mut self, selected: bool) {
        self.mark_selected(selected);
    }
}

} // verus!
