use wifi_tui::app::{App, AppState, BodyView, Command, GeneralState};
use wifi_tui::layout::{layout_regions, Rect};
use wifi_tui::list::Network;
use wifi_tui::tab::SelectedTab;

fn record(ssid: &str, signal: u8) -> Network {
    Network {
        ssid: ssid.to_string(),
        signal_strength: signal,
        is_known: false,
        ip_address: None,
        is_connected: false,
        security: "WPA2".to_string(),
    }
}

fn records(n: usize) -> Vec<Network> {
    (0..n).map(|i| record(&format!("Net {}", i), 50)).collect()
}

#[test]
fn new_app_holds_the_demo_sequences() {
    let app = App::new();
    assert_eq!(app.state, AppState::Running);
    assert_eq!(app.selected_tab, SelectedTab::Known);
    assert_eq!(app.known_networks.len(), 10);
    assert_eq!(app.unknown_networks.len(), 40);
    assert_eq!(app.known_networks[0].ssid, "Known WiFi 1");
    assert_eq!(app.known_networks[0].signal_strength, 98);
    assert_eq!(app.known_networks[9].ssid, "Known WiFi 10");
    assert_eq!(app.known_networks[9].signal_strength, 80);
    assert_eq!(app.unknown_networks[39].ssid, "Unknown WiFi 40");
    assert_eq!(app.unknown_networks[39].signal_strength, 20);
    assert_eq!(app.known_networks[3].security, "WPA2");
    assert!(!app.known_networks[3].is_connected);
}

#[test]
fn tab_navigation_saturates_at_both_ends() {
    let mut state = GeneralState::new();
    let t = SelectedTab::Known.previous(&mut state);
    assert_eq!(t, SelectedTab::Known);
    let t = SelectedTab::Known.next(&mut state);
    assert_eq!(t, SelectedTab::Unknown);
    let t = t.next(&mut state);
    assert_eq!(t, SelectedTab::Radio);
    let t = t.next(&mut state);
    assert_eq!(t, SelectedTab::Radio);
    let t = t.previous(&mut state);
    assert_eq!(t, SelectedTab::Unknown);
}

#[test]
fn tab_titles_are_the_fixed_labels() {
    assert_eq!(SelectedTab::Known.title(), "known");
    assert_eq!(SelectedTab::Unknown.title(), "unknown");
    assert_eq!(SelectedTab::Radio.title(), "radio");
    assert_eq!(SelectedTab::default(), SelectedTab::Known);
}

#[test]
fn tab_change_resets_selection_to_first() {
    let mut app = App::new();
    let mut state = GeneralState::new();
    state.list_state.reset_to_first(app.known_networks.len());
    // Walk down, then switch category: the selection snaps back to the
    // first element of the new category's sequence.
    app.handle_command(&mut state, Command::ItemDown);
    app.handle_command(&mut state, Command::ItemDown);
    assert_eq!(state.list_state.selected_index, Some(2));
    app.handle_command(&mut state, Command::TabNext);
    assert_eq!(app.current_category(), SelectedTab::Unknown);
    assert_eq!(state.list_state.selected_index, Some(0));
    assert_eq!(state.list_state.scroll_offset, 0);
}

#[test]
fn tab_change_to_empty_category_selects_nothing() {
    let mut app = App::new();
    let mut state = GeneralState::new();
    app.handle_command(&mut state, Command::TabNext);
    app.handle_command(&mut state, Command::TabNext);
    // The radio category has no backing sequence.
    assert_eq!(app.selected_tab, SelectedTab::Radio);
    assert_eq!(state.list_state.selected_index, None);
    assert_eq!(state.list_state.scroll_offset, 0);
}

#[test]
fn tab_command_at_boundary_does_not_reset() {
    let mut app = App::new();
    let mut state = GeneralState::new();
    state.list_state.reset_to_first(app.known_networks.len());
    app.handle_command(&mut state, Command::ItemDown);
    // Already at the first category: previous is a no-op and the list
    // selection keeps its place.
    app.handle_command(&mut state, Command::TabPrevious);
    assert_eq!(app.selected_tab, SelectedTab::Known);
    assert_eq!(state.list_state.selected_index, Some(1));
}

#[test]
fn navigation_on_radio_is_a_no_op() {
    let mut app = App::new();
    let mut state = GeneralState::new();
    app.handle_command(&mut state, Command::TabNext);
    app.handle_command(&mut state, Command::TabNext);
    app.handle_command(&mut state, Command::ItemDown);
    assert_eq!(state.list_state.selected_index, None);
    app.handle_command(&mut state, Command::ItemUp);
    assert_eq!(state.list_state.selected_index, None);
}

#[test]
fn quit_command_stops_the_app() {
    let mut app = App::new();
    let mut state = GeneralState::new();
    app.handle_command(&mut state, Command::Quit);
    assert_eq!(app.state, AppState::Quitting);
}

#[test]
fn replacement_shrinkage_clamps_the_selection() {
    // Ten records on display with the selection at seven; the backend
    // replaces the sequence by three records: the selection clamps to
    // the last valid index, without an error.
    let mut app = App::new();
    let mut state = GeneralState::new();
    state.list_state.reset_to_first(app.known_networks.len());
    for _ in 0..7 {
        app.handle_command(&mut state, Command::ItemDown);
    }
    assert_eq!(state.list_state.selected_index, Some(7));
    app.set_known_networks(records(3), &mut state);
    assert_eq!(state.list_state.selected_index, Some(2));
    assert_eq!(app.known_networks.len(), 3);
}

#[test]
fn replacement_of_inactive_category_keeps_the_viewport() {
    let mut app = App::new();
    let mut state = GeneralState::new();
    state.list_state.reset_to_first(app.known_networks.len());
    app.handle_command(&mut state, Command::ItemDown);
    app.set_unknown_networks(records(2), &mut state);
    assert_eq!(state.list_state.selected_index, Some(1));
    assert_eq!(app.unknown_networks.len(), 2);
}

#[test]
fn refresh_reclamps_the_viewport() {
    let mut app = App::new();
    let mut state = GeneralState::new();
    state.list_state.selected_index = Some(25);
    state.list_state.scroll_offset = 20;
    app.handle_command(&mut state, Command::Refresh);
    assert_eq!(state.list_state.selected_index, Some(9));
    assert_eq!(state.list_state.scroll_offset, 9);
}

#[test]
fn layout_partitions_header_body_footer() {
    let area = Rect { x: 0, y: 0, width: 80, height: 30 };
    let r = layout_regions(area);
    assert_eq!(r.header.height, 2);
    assert_eq!(r.body.height, 27);
    assert_eq!(r.footer.height, 1);
    assert_eq!(r.header.y, 0);
    assert_eq!(r.body.y, 2);
    assert_eq!(r.footer.y, 29);
    // Centered column of at most 70 cells.
    assert_eq!(r.body.width, 70);
    assert_eq!(r.body.x, 5);
}

#[test]
fn layout_degrades_on_tiny_areas() {
    let r = layout_regions(Rect { x: 0, y: 0, width: 1, height: 2 });
    assert_eq!(r.header.height, 2);
    assert_eq!(r.body.height, 0);
    assert_eq!(r.footer.height, 0);
    assert_eq!(r.header.width, 0);
    let r = layout_regions(Rect { x: 3, y: 4, width: 10, height: 1 });
    assert_eq!(r.header.height, 1);
    assert_eq!(r.footer.height, 0);
    assert_eq!(r.header.width, 8);
}

#[test]
fn frame_shows_the_active_list_window() {
    let app = App::new();
    let mut state = GeneralState::new();
    state.list_state.reset_to_first(app.known_networks.len());
    let area = Rect { x: 0, y: 0, width: 80, height: 12 };
    let f = app.render(area, &mut state);
    assert_eq!(f.tabs.titles, vec!["known", "unknown", "radio"]);
    assert_eq!(f.tabs.selected, 0);
    assert_eq!(f.footer, "Use \u{2190} \u{2192} | \u{25b2} \u{25bc} | q to quit");
    // body height 9 rows -> three items visible
    match f.body {
        BodyView::List(m) => {
            assert_eq!((m.start, m.end), (0, 3));
            assert_eq!(m.blocks.len(), 3);
            assert!(m.blocks[0].selected);
            assert!(!m.blocks[1].selected);
            assert_eq!(m.blocks[0].identity_left, "Known WiFi 1");
            assert_eq!(m.blocks[1].identity_left, "Known WiFi 2");
            assert_eq!(m.blocks[0].metadata_left, "WPA2");
            assert_eq!(m.blocks[0].metadata_right, "(98%)");
        }
        BodyView::Placeholder(_) => panic!("expected a list body"),
    }
}

#[test]
fn frame_shows_the_placeholder_for_radio() {
    let mut app = App::new();
    let mut state = GeneralState::new();
    app.handle_command(&mut state, Command::TabNext);
    app.handle_command(&mut state, Command::TabNext);
    let area = Rect { x: 0, y: 0, width: 80, height: 12 };
    let f = app.render(area, &mut state);
    assert_eq!(f.tabs.selected, 2);
    match f.body {
        BodyView::Placeholder(t) => assert_eq!(t, "Radio"),
        BodyView::List(_) => panic!("expected the placeholder pane"),
    }
}

#[test]
fn titles_and_footer_helpers() {
    let app = App::new();
    assert_eq!(app.render_title(), "wifi-tui");
    assert_eq!(SelectedTab::Radio.render_radio(), "Radio");
}
