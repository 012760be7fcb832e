//! The dashboard itself: the owned state, the command handler, and the
//! per-frame composition of header, body and footer.

use crate::layout::{layout_regions, spec_layout, Rect, Regions};
use crate::list::{
    in_window, is_rendered_block, is_rendered_window, spec_clamp_index, spec_clamp_offset,
    spec_step_down, spec_step_up, spec_visible_count, spec_visible_window, ItemBlock, ListState,
    ListViewModel, Network,
};
use crate::tab::{spec_title, SelectedTab, TAB_COUNT};
use crate::text::dec_rep;
use vstd::prelude::*;
use vstd::string::StringExecFns;

verus! {

/// Whether the dashboard keeps running or is about to quit.
#[derive(Debug, Clone, Copy, PartialEq, Eq, Structural)]
pub enum AppState {
    Running,
    Quitting,
}

impl Default for AppState {
    fn default() -> (r: Self)
        ensures
            r == AppState::Running,
    {
        AppState::Running
    }
}

/// View state that lives beside the domain data: the list viewport.
pub struct GeneralState {
    pub list_state: ListState,
}

impl GeneralState {
    /// A fresh viewport state.
    pub fn new() -> (r: GeneralState)
        ensures
            r.list_state.selected_index is None,
            r.list_state.scroll_offset == 0,
            r.list_state.scroll_padding == crate::list::SCROLL_PADDING,
    {
        GeneralState { list_state: ListState::new() }
    }
}

/// The logical input commands the surrounding event loop maps keys to.
#[derive(Debug, Clone, Copy, PartialEq, Eq, Structural)]
pub enum Command {
    TabNext,
    TabPrevious,
    ItemDown,
    ItemUp,
    Refresh,
    Quit,
}

/// The tab strip of one frame: the ordered category labels and which one
/// is highlighted.
pub struct TabStrip {
    pub titles: Vec<String>,
    pub selected: usize,
}

/// What the body of one frame shows: a window of rendered list items, or
/// a placeholder pane for a category without a backing sequence.
pub enum BodyView {
    List(ListViewModel),
    Placeholder(String),
}

/// One fully composed frame, ready to be painted.
pub struct FrameModel {
    pub regions: Regions,
    pub tabs: TabStrip,
    pub body: BodyView,
    pub footer: String,
}

/// The dashboard: run state, current category, and the two backing
/// sequences (the radio category has none).
pub struct App {
    pub state: AppState,
    pub selected_tab: SelectedTab,
    pub known_networks: Vec<Network>,
    pub unknown_networks: Vec<Network>,
}

/// One demo record: name `prefix` + k, signal stepping down from 100 by
/// twos, secured with a fixed label, not connected.
pub open spec fn is_demo_network(n: Network, prefix: Seq<char>, k: int) -> bool {
    &&& n.ssid@ == prefix + dec_rep(k)
    &&& n.signal_strength == 100 - 2 * k
    &&& !n.is_known
    &&& n.ip_address is None
    &&& !n.is_connected
    &&& n.security@ == "WPA2"@
}

/// Whether a tab strip shows the fixed category labels with `current`
/// highlighted.
pub open spec fn is_tab_strip(t: TabStrip, current: SelectedTab) -> bool {
    &&& t.selected == current.ordinal()
    &&& t.titles@.len() == TAB_COUNT
    &&& t.titles@[0]@ == spec_title(SelectedTab::Known)
    &&& t.titles@[1]@ == spec_title(SelectedTab::Unknown)
    &&& t.titles@[2]@ == spec_title(SelectedTab::Radio)
}

/// Whether `body` is the rendered window of `networks` for a viewport of
/// `height` rows, given the viewport state before (`old_list`) and after
/// (`new_list`) the frame.
pub open spec fn body_is_window_of(
    body: BodyView,
    networks: Seq<Network>,
    old_list: ListState,
    new_list: ListState,
    height: u16,
) -> bool {
    match body {
        BodyView::List(m) => {
            &&& (m.start as int, m.end as int) == spec_visible_window(
                old_list,
                networks.len() as usize,
                height,
            )
            &&& new_list.selected_index == spec_clamp_index(
                old_list.selected_index,
                networks.len() as usize,
            )
            &&& is_rendered_window(m, networks, new_list.selected_index)
            &&& spec_visible_count(height) > 0 ==> new_list.scroll_offset == m.start
            &&& spec_visible_count(height) == 0 ==> new_list.scroll_offset
                == old_list.scroll_offset
            &&& spec_visible_count(height) > 0 && networks.len() > 0 ==> in_window(
                new_list.selected_index,
                m.start,
                m.end,
            )
        },
        BodyView::Placeholder(_) => false,
    }
}

/// Builds one demo record.
fn demo_network(prefix: &str, k: u8) -> (n: Network)
    requires
        1 <= k <= 40,
    ensures
        is_demo_network(n, prefix@, k as int),
{
    let mut ssid = prefix.to_owned();
    let digits = crate::text::u8_to_dec(k);
    ssid.append(digits.as_str());
    Network {
        ssid,
        signal_strength: 100 - 2 * k,
        is_known: false,
        ip_address: None,
        is_connected: false,
        security: String::from_str("WPA2"),
    }
}

impl App {
    /// The length of the sequence backing the current category; the
    /// radio category has none.
    pub open spec fn spec_active_len(self) -> nat {
        match self.selected_tab {
            SelectedTab::Known => self.known_networks@.len(),
            SelectedTab::Unknown => self.unknown_networks@.len(),
            SelectedTab::Radio => 0nat,
        }
    }

    /// A fresh dashboard on the first category, populated with the demo
    /// sequences: ten known and forty unknown networks.
    pub fn new() -> (r: App)
        ensures
            r.state == AppState::Running,
            r.selected_tab == SelectedTab::Known,
            r.known_networks@.len() == 10,
            forall|i: int|
                0 <= i < 10 ==> is_demo_network(
                    #[trigger] r.known_networks@[i],
                    "Known WiFi "@,
                    i + 1,
                ),
            r.unknown_networks@.len() == 40,
            forall|i: int|
                0 <= i < 40 ==> is_demo_network(
                    #[trigger] r.unknown_networks@[i],
                    "Unknown WiFi "@,
                    i + 1,
                ),
    {
        let mut known_networks: Vec<Network> = Vec::new();
        let mut i: u8 = 1;
        while i <= 10
            invariant
                1 <= i <= 11,
                known_networks@.len() == i - 1,
                forall|j: int|
                    0 <= j < known_networks@.len() ==> is_demo_network(
                        #[trigger] known_networks@[j],
                        "Known WiFi "@,
                        j + 1,
                    ),
            decreases 11 - i,
        {
            known_networks.push(demo_network("Known WiFi ", i));
            i = i + 1;
        }
        let mut unknown_networks: Vec<Network> = Vec::new();
        let mut k: u8 = 1;
        while k <= 40
            invariant
                1 <= k <= 41,
                unknown_networks@.len() == k - 1,
                forall|j: int|
                    0 <= j < unknown_networks@.len() ==> is_demo_network(
                        #[trigger] unknown_networks@[j],
                        "Unknown WiFi "@,
                        j + 1,
                    ),
            decreases 41 - k,
        {
            unknown_networks.push(demo_network("Unknown WiFi ", k));
            k = k + 1;
        }
        App {
            state: AppState::Running,
            selected_tab: SelectedTab::Known,
            known_networks,
            unknown_networks,
        }
    }

    /// The category currently on display; no side effect.
    pub fn current_category(&self) -> (t: SelectedTab)
        ensures
            t == self.selected_tab,
    {
        self.selected_tab
    }

    /// The length of the current category's sequence.
    pub fn active_len(&self) -> (n: usize)
        ensures
            n == self.spec_active_len(),
    {
        match self.selected_tab {
            SelectedTab::Known => self.known_networks.len(),
            SelectedTab::Unknown => self.unknown_networks.len(),
            SelectedTab::Radio => 0,
        }
    }

    /// Applies one input command: exactly one state mutation per turn.
    /// A tab change that actually moves resets the list selection to the
    /// first element of the new category (or to nothing when it has
    /// none) and rewinds the scroll; navigation on an empty sequence is
    /// a no-op; out-of-range state is corrected by clamping, never an
    /// error.
    pub fn handle_command(&mut self, state: &mut GeneralState, cmd: Command)
        ensures
            final(self).known_networks == old(self).known_networks,
            final(self).unknown_networks == old(self).unknown_networks,
            final(state).list_state.scroll_padding == old(state).list_state.scroll_padding,
            cmd is Quit ==> final(self).state is Quitting,
            !(cmd is Quit) ==> final(self).state == old(self).state,
            !(cmd is TabNext) && !(cmd is TabPrevious)
                ==> final(self).selected_tab == old(self).selected_tab,
            cmd is TabNext ==> final(self).selected_tab == old(self).selected_tab.spec_next(),
            cmd is TabPrevious
                ==> final(self).selected_tab == old(self).selected_tab.spec_previous(),
            (cmd is TabNext && old(self).selected_tab.ordinal() < TAB_COUNT - 1) || (cmd
                is TabPrevious && old(self).selected_tab.ordinal() > 0) ==> {
                &&& final(state).list_state.selected_index == (if final(self).spec_active_len()
                    > 0 {
                    Some(0usize)
                } else {
                    None::<usize>
                })
                &&& final(state).list_state.scroll_offset == 0
            },
            (cmd is TabNext && old(self).selected_tab.ordinal() == TAB_COUNT - 1) || (cmd
                is TabPrevious && old(self).selected_tab.ordinal() == 0)
                ==> final(state).list_state == old(state).list_state,
            cmd is ItemDown ==> final(state).list_state.selected_index == spec_step_down(
                old(state).list_state.selected_index,
                old(self).spec_active_len() as usize,
            ) && final(state).list_state.scroll_offset == old(state).list_state.scroll_offset,
            cmd is ItemUp ==> final(state).list_state.selected_index == spec_step_up(
                old(state).list_state.selected_index,
                old(self).spec_active_len() as usize,
            ) && final(state).list_state.scroll_offset == old(state).list_state.scroll_offset,
            cmd is Refresh ==> final(state).list_state.selected_index == spec_clamp_index(
                old(state).list_state.selected_index,
                old(self).spec_active_len() as usize,
            ) && final(state).list_state.scroll_offset == spec_clamp_offset(
                old(state).list_state.scroll_offset,
                old(self).spec_active_len() as usize,
            ),
            cmd is Quit ==> *final(state) == *old(state),
    {
        match cmd {
            Command::TabNext => {
                let before = self.selected_tab;
                self.selected_tab = before.next(state);
                if self.selected_tab.index() != before.index() {
                    let n = self.active_len();
                    state.list_state.clamp_to_len(n);
                }
            },
            Command::TabPrevious => {
                let before = self.selected_tab;
                self.selected_tab = before.previous(state);
                if self.selected_tab.index() != before.index() {
                    let n = self.active_len();
                    state.list_state.clamp_to_len(n);
                }
            },
            Command::ItemDown => {
                let n = self.active_len();
                state.list_state.select_next(n);
            },
            Command::ItemUp => {
                let n = self.active_len();
                state.list_state.select_previous(n);
            },
            Command::Refresh => {
                let n = self.active_len();
                state.list_state.clamp_to_len(n);
            },
            Command::Quit => {
                self.state = AppState::Quitting;
            },
        }
    }

    /// Replaces the known-network sequence wholesale; when that category
    /// is the one on display, the viewport is re-clamped against the new
    /// length, so shrinkage never leaves a stale selection.
    pub fn set_known_networks(&mut self, networks: Vec<Network>, state: &mut GeneralState)
        ensures
            final(self).known_networks == networks,
            final(self).unknown_networks == old(self).unknown_networks,
            final(self).selected_tab == old(self).selected_tab,
            final(self).state == old(self).state,
            old(self).selected_tab is Known ==> final(state).list_state.selected_index
                == spec_clamp_index(
                old(state).list_state.selected_index,
                networks@.len() as usize,
            ) && final(state).list_state.scroll_offset == spec_clamp_offset(
                old(state).list_state.scroll_offset,
                networks@.len() as usize,
            ) && final(state).list_state.scroll_padding == old(state).list_state.scroll_padding,
            !(old(self).selected_tab is Known) ==> *final(state) == *old(state),
    {
        self.known_networks = networks;
        match self.selected_tab {
            SelectedTab::Known => {
                let n = self.known_networks.len();
                state.list_state.clamp_to_len(n);
            },
            _ => {},
        }
    }

    /// Replaces the unknown-network sequence wholesale, re-clamping the
    /// viewport when that category is on display.
    pub fn set_unknown_networks(&mut self, networks: Vec<Network>, state: &mut GeneralState)
        ensures
            final(self).unknown_networks == networks,
            final(self).known_networks == old(self).known_networks,
            final(self).selected_tab == old(self).selected_tab,
            final(self).state == old(self).state,
            old(self).selected_tab is Unknown ==> final(state).list_state.selected_index
                == spec_clamp_index(
                old(state).list_state.selected_index,
                networks@.len() as usize,
            ) && final(state).list_state.scroll_offset == spec_clamp_offset(
                old(state).list_state.scroll_offset,
                networks@.len() as usize,
            ) && final(state).list_state.scroll_padding == old(state).list_state.scroll_padding,
            !(old(self).selected_tab is Unknown) ==> *final(state) == *old(state),
    {
        self.unknown_networks = networks;
        match self.selected_tab {
            SelectedTab::Unknown => {
                let n = self.unknown_networks.len();
                state.list_state.clamp_to_len(n);
            },
            _ => {},
        }
    }

    /// The dashboard's title text.
    pub fn render_title(&self) -> (r: String)
        ensures
            r@ == "wifi-tui"@,
    {
        "wifi-tui".to_owned()
    }

    /// The static help text of the footer row.
    pub fn render_footer(&self) -> (r: String)
        ensures
            r@ == "Use \u{2190} \u{2192} | \u{25b2} \u{25bc} | q to quit"@,
    {
        "Use \u{2190} \u{2192} | \u{25b2} \u{25bc} | q to quit".to_owned()
    }

    /// The tab strip: all category labels in order, with the current one
    /// highlighted.
    pub fn render_tabs(&self) -> (t: TabStrip)
        ensures
            is_tab_strip(t, self.selected_tab),
    {
        let mut titles: Vec<String> = Vec::new();
        titles.push(SelectedTab::Known.title());
        titles.push(SelectedTab::Unknown.title());
        titles.push(SelectedTab::Radio.title());
        TabStrip { titles, selected: self.selected_tab.index() }
    }

    /// Renders the window of `networks` that fits into `height` rows,
    /// one block per visible item, the selected one flagged.
    pub fn render_list(
        &self,
        networks: &Vec<Network>,
        list_state: &mut ListState,
        height: u16,
    ) -> (m: ListViewModel)
        ensures
            (m.start as int, m.end as int) == spec_visible_window(
                *old(list_state),
                networks@.len() as usize,
                height,
            ),
            final(list_state).selected_index == spec_clamp_index(
                old(list_state).selected_index,
                networks@.len() as usize,
            ),
            final(list_state).scroll_padding == old(list_state).scroll_padding,
            spec_visible_count(height) > 0 ==> final(list_state).scroll_offset == m.start,
            spec_visible_count(height) == 0
                ==> final(list_state).scroll_offset == old(list_state).scroll_offset,
            is_rendered_window(m, networks@, final(list_state).selected_index),
            spec_visible_count(height) > 0 && networks@.len() > 0 ==> in_window(
                final(list_state).selected_index,
                m.start,
                m.end,
            ),
    {
        let n = networks.len();
        let range = list_state.visible_range(n, height);
        let start = range.0;
        let end = range.1;
        let sel = list_state.selected_index;
        let mut blocks: Vec<ItemBlock> = Vec::new();
        let mut idx = start;
        while idx < end
            invariant
                start <= idx <= end <= n,
                n == networks@.len(),
                sel == list_state.selected_index,
                blocks@.len() == idx - start,
                forall|j: int|
                    0 <= j < blocks@.len() ==> is_rendered_block(
                        #[trigger] blocks@[j],
                        networks@[start + j],
                        sel == Some((start + j) as usize),
                    ),
            decreases end - idx,
        {
            let selected = match sel {
                Some(s) => s == idx,
                None => false,
            };
            let b = networks[idx].render(selected);
            blocks.push(b);
            idx = idx + 1;
        }
        ListViewModel { start, end, blocks }
    }

    /// Composes one full frame for the drawing area: the partitioned
    /// regions, the tab strip, the body for the current category (a list
    /// window, or the placeholder pane for the radio category), and the
    /// footer help text.  Every frame redraws the whole region.
    pub fn render(&self, area: Rect, state: &mut GeneralState) -> (f: FrameModel)
        requires
            crate::layout::rect_well_formed(area),
        ensures
            f.regions == spec_layout(area),
            is_tab_strip(f.tabs, self.selected_tab),
            f.footer@ == "Use \u{2190} \u{2192} | \u{25b2} \u{25bc} | q to quit"@,
            final(state).list_state.scroll_padding == old(state).list_state.scroll_padding,
            self.selected_tab is Known ==> body_is_window_of(
                f.body,
                self.known_networks@,
                old(state).list_state,
                final(state).list_state,
                spec_layout(area).body.height,
            ),
            self.selected_tab is Unknown ==> body_is_window_of(
                f.body,
                self.unknown_networks@,
                old(state).list_state,
                final(state).list_state,
                spec_layout(area).body.height,
            ),
            self.selected_tab is Radio ==> (match f.body {
                BodyView::Placeholder(t) => t@ == "Radio"@,
                BodyView::List(_) => false,
            }) && *final(state) == *old(state),
    {
        let regions = layout_regions(area);
        let tabs = self.render_tabs();
        let footer = self.render_footer();
        let body = match self.selected_tab {
            SelectedTab::Known => BodyView::List(
                self.render_list(&self.known_networks, &mut state.list_state, regions.body.height),
            ),
            SelectedTab::Unknown => BodyView::List(
                self.render_list(
                    &self.unknown_networks,
                    &mut state.list_state,
                    regions.body.height,
                ),
            ),
            SelectedTab::Radio => BodyView::Placeholder(self.selected_tab.render_radio()),
        };
        FrameModel { regions, tabs, body, footer }
    }
}

} // verus!
