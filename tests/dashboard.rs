use feedtui::{
    App, CellRect, Command, Config, Event, FeedData, FeedMessage, FeedSource, FeedWidget, HnFetcher, HnStory,
    KeyCode, KeyPress, StocksFetcher, WidgetConfig,
};
use feedtui::dashboard::command_for;

fn hn_source() -> FeedSource {
    FeedSource::Hackernews(HnFetcher::new("top".to_string(), 10))
}

fn config_at(positions: &[(usize, usize)]) -> Config {
    let widgets = positions
        .iter()
        .enumerate()
        .map(|(i, p)| WidgetConfig { title: format!("panel {}", i), source: hn_source(), position: *p })
        .collect();
    Config { refresh_interval_secs: 60, widgets }
}

fn story(id: u64) -> HnStory {
    HnStory { id, title: format!("story {}", id), url: None, score: 1, by: "someone".to_string(), descendants: 0 }
}

fn stories(n: u64) -> FeedData {
    FeedData::HackerNews((0..n).map(story).collect())
}

fn key(c: char) -> Event {
    Event::Key(KeyPress { code: KeyCode::Char(c), ctrl: false })
}

fn tab() -> Event {
    Event::Key(KeyPress { code: KeyCode::Tab, ctrl: false })
}

fn back_tab() -> Event {
    Event::Key(KeyPress { code: KeyCode::BackTab, ctrl: false })
}

fn selected_count(app: &App) -> usize {
    app.widgets.iter().filter(|w| w.selected).count()
}

#[test]
fn new_assigns_ids_and_selects_first() {
    let app = App::new(config_at(&[(0, 0), (0, 1), (1, 0)]));
    let ids: Vec<String> = app.widgets.iter().map(|w| w.id()).collect();
    assert_eq!(ids, vec!["panel-0", "panel-1", "panel-2"]);
    assert_eq!(app.selected_widget, 0);
    assert!(app.widgets[0].selected);
    assert_eq!(selected_count(&app), 1);
    assert!(!app.should_quit);
    assert_eq!(app.refresh_interval_secs, 60);
    assert!(matches!(app.widgets[1].data, FeedData::Loading));
    assert_eq!(app.widgets[2].position(), (1, 0));
}

#[test]
fn ids_stay_distinct_past_ten_panels() {
    let positions: Vec<(usize, usize)> = (0..12).map(|i| (i / 4, i % 4)).collect();
    let app = App::new(config_at(&positions));
    assert_eq!(app.widgets[10].id(), "panel-10");
    assert_eq!(app.widgets[1].id(), "panel-1");
}

#[test]
fn tab_cycles_and_keeps_one_selected() {
    let mut app = App::new(config_at(&[(0, 0), (0, 1), (1, 0)]));
    for expected in [1usize, 2, 0] {
        app.handle_event(tab());
        assert_eq!(app.selected_widget, expected);
        assert!(app.widgets[expected].selected);
        assert_eq!(selected_count(&app), 1);
    }
}

#[test]
fn shift_tab_wraps_backwards() {
    let mut app = App::new(config_at(&[(0, 0), (0, 1), (1, 0)]));
    app.handle_event(back_tab());
    assert_eq!(app.selected_widget, 2);
    assert_eq!(selected_count(&app), 1);
    app.handle_event(back_tab());
    app.handle_event(back_tab());
    assert_eq!(app.selected_widget, 0);
}

#[test]
fn mixed_tabs_keep_exactly_one_selected() {
    let mut app = App::new(config_at(&[(0, 0), (0, 1), (1, 0), (1, 1)]));
    let events = [tab(), tab(), back_tab(), tab(), tab(), tab(), back_tab()];
    for e in events {
        app.handle_event(e);
        assert_eq!(selected_count(&app), 1);
        assert!(app.widgets[app.selected_widget].selected);
    }
    assert_eq!(app.selected_widget, 3);
}

#[test]
fn tabs_on_no_panels_do_nothing() {
    let mut app = App::new(config_at(&[]));
    app.handle_event(tab());
    app.handle_event(back_tab());
    app.handle_event(key('j'));
    app.handle_event(key('k'));
    assert_eq!(app.selected_widget, 0);
    assert!(app.widgets.is_empty());
}

#[test]
fn scroll_is_clamped_to_content() {
    let mut app = App::new(config_at(&[(0, 0)]));
    app.handle_feed_message(FeedMessage { widget_id: "panel-0".to_string(), data: stories(5) });
    app.set_panel_height(0, 2);
    // at the top, up is a no-op
    app.handle_event(key('k'));
    assert_eq!(app.widgets[0].scroll_offset, 0);
    for _ in 0..10 {
        app.handle_event(key('j'));
    }
    // 5 items shown 2 at a time: largest offset is 3
    assert_eq!(app.widgets[0].scroll_offset, 3);
    app.handle_event(Event::Key(KeyPress { code: KeyCode::Up, ctrl: false }));
    assert_eq!(app.widgets[0].scroll_offset, 2);
    app.handle_event(Event::Key(KeyPress { code: KeyCode::Down, ctrl: false }));
    app.handle_event(Event::Key(KeyPress { code: KeyCode::Down, ctrl: false }));
    assert_eq!(app.widgets[0].scroll_offset, 3);
}

#[test]
fn scroll_shrinks_when_content_shrinks() {
    let mut app = App::new(config_at(&[(0, 0)]));
    app.handle_feed_message(FeedMessage { widget_id: "panel-0".to_string(), data: stories(10) });
    app.set_panel_height(0, 3);
    for _ in 0..7 {
        app.handle_event(key('j'));
    }
    assert_eq!(app.widgets[0].scroll_offset, 7);
    app.handle_feed_message(FeedMessage { widget_id: "panel-0".to_string(), data: stories(4) });
    assert_eq!(app.widgets[0].scroll_offset, 1);
    app.handle_feed_message(FeedMessage { widget_id: "panel-0".to_string(), data: FeedData::Error("x".to_string()) });
    assert_eq!(app.widgets[0].scroll_offset, 0);
}

#[test]
fn scroll_moves_only_the_selected_panel() {
    let mut app = App::new(config_at(&[(0, 0), (0, 1)]));
    for id in ["panel-0", "panel-1"] {
        app.handle_feed_message(FeedMessage { widget_id: id.to_string(), data: stories(6) });
    }
    app.handle_event(tab());
    app.handle_event(key('j'));
    assert_eq!(app.widgets[0].scroll_offset, 0);
    assert_eq!(app.widgets[1].scroll_offset, 1);
}

#[test]
fn message_touches_only_its_panel() {
    let mut app = App::new(config_at(&[(0, 0), (0, 1), (1, 0)]));
    app.handle_feed_message(FeedMessage { widget_id: "panel-1".to_string(), data: stories(3) });
    assert!(matches!(&app.widgets[1].data, FeedData::HackerNews(v) if v.len() == 3));
    assert!(matches!(app.widgets[0].data, FeedData::Loading));
    assert!(matches!(app.widgets[2].data, FeedData::Loading));
    assert_eq!(app.widgets[0].id, "panel-0");
    assert_eq!(app.widgets[2].title, "panel 2");
    assert!(app.widgets[0].selected);
    assert!(!app.widgets[1].selected);
    assert_eq!(app.selected_widget, 0);
}

#[test]
fn message_for_unknown_panel_changes_nothing() {
    let mut app = App::new(config_at(&[(0, 0), (0, 1)]));
    app.handle_feed_message(FeedMessage { widget_id: "nobody".to_string(), data: stories(3) });
    assert!(app.widgets.iter().all(|w| matches!(w.data, FeedData::Loading)));
}

#[test]
fn error_snapshot_is_shown_and_dispatch_goes_on() {
    let mut app = App::new(config_at(&[(0, 0)]));
    app.handle_feed_message(FeedMessage { widget_id: "panel-0".to_string(), data: FeedData::Error("boom".to_string()) });
    assert!(matches!(&app.widgets[0].data, FeedData::Error(m) if m == "boom"));
    app.handle_feed_message(FeedMessage { widget_id: "panel-0".to_string(), data: stories(2) });
    assert!(matches!(&app.widgets[0].data, FeedData::HackerNews(v) if v.len() == 2));
}

#[test]
fn quit_keys() {
    let mut app = App::new(config_at(&[(0, 0)]));
    app.handle_event(key('c'));
    assert!(!app.should_quit);
    app.handle_event(Event::Key(KeyPress { code: KeyCode::Char('c'), ctrl: true }));
    assert!(app.should_quit);
    let mut other = App::new(config_at(&[(0, 0)]));
    other.handle_event(key('q'));
    assert!(other.should_quit);
}

#[test]
fn refresh_and_other_events_change_nothing() {
    let mut app = App::new(config_at(&[(0, 0), (0, 1)]));
    for e in [key('r'), key('x'), Event::Tick, Event::Resize(80, 24), Event::Mouse] {
        app.handle_event(e);
    }
    assert_eq!(app.selected_widget, 0);
    assert!(!app.should_quit);
}

#[test]
fn commands_of_keys() {
    assert_eq!(command_for(key('q')), Command::Quit);
    assert_eq!(command_for(key('r')), Command::Refresh);
    assert_eq!(command_for(key('j')), Command::ScrollDown);
    assert_eq!(command_for(key('k')), Command::ScrollUp);
    assert_eq!(command_for(tab()), Command::Next);
    assert_eq!(command_for(back_tab()), Command::Prev);
    assert_eq!(command_for(Event::Key(KeyPress { code: KeyCode::Other, ctrl: true })), Command::Nothing);
}

#[test]
fn grid_of_three_panels_is_two_by_two() {
    let app = App::new(config_at(&[(0, 0), (0, 1), (1, 0)]));
    assert_eq!(app.calculate_grid_dimensions(), (1, 1));
    let plan = app.render_plan(CellRect::new(0, 0, 100, 50));
    assert_eq!(plan.len(), 3);
    assert_eq!(plan[0].area, CellRect::new(0, 0, 50, 25));
    assert_eq!(plan[1].area, CellRect::new(50, 0, 50, 25));
    assert_eq!(plan[2].area, CellRect::new(0, 25, 50, 25));
    assert!(plan[0].selected && !plan[1].selected && !plan[2].selected);
    // nothing lands in the empty cell at (1, 1)
    assert!(plan.iter().all(|p| p.area != CellRect::new(50, 25, 50, 25)));
}

#[test]
fn grid_with_no_panels_draws_nothing() {
    let app = App::new(config_at(&[]));
    assert_eq!(app.calculate_grid_dimensions(), (0, 0));
    assert!(app.render_plan(CellRect::new(0, 0, 80, 24)).is_empty());
}

#[test]
fn colliding_panels_share_a_cell() {
    let app = App::new(config_at(&[(0, 0), (0, 0)]));
    assert_eq!(app.calculate_grid_dimensions(), (0, 0));
    let plan = app.render_plan(CellRect::new(0, 0, 80, 24));
    assert_eq!(plan.len(), 2);
    assert_eq!(plan[0].area, CellRect::new(0, 0, 80, 24));
    assert_eq!(plan[1].area, plan[0].area);
    assert_eq!((plan[0].panel, plan[1].panel), (0, 1));
}

#[test]
fn grid_with_gaps_splits_by_largest_coordinates() {
    let app = App::new(config_at(&[(0, 0), (2, 3)]));
    assert_eq!(app.calculate_grid_dimensions(), (2, 3));
    let plan = app.render_plan(CellRect::new(0, 0, 80, 30));
    assert_eq!(plan[0].area, CellRect::new(0, 0, 20, 10));
    assert_eq!(plan[1].area, CellRect::new(60, 20, 20, 10));
}

#[test]
fn create_fetcher_copies_configuration() {
    let cfg = Config {
        refresh_interval_secs: 30,
        widgets: vec![WidgetConfig {
            title: "Stocks".to_string(),
            source: FeedSource::Stocks(StocksFetcher::new(vec!["AAPL".to_string(), "MSFT".to_string()])),
            position: (0, 0),
        }],
    };
    let app = App::new(cfg);
    match app.widgets[0].create_fetcher() {
        FeedSource::Stocks(f) => assert_eq!(f.symbols, vec!["AAPL".to_string(), "MSFT".to_string()]),
        _ => panic!("wrong fetcher"),
    }
    assert_eq!(app.widgets[0].title(), "Stocks");
}
