//! The tab state machine: a fixed ordered set of categories navigated by
//! saturating next/previous steps.

use crate::app::GeneralState;
use vstd::prelude::*;

verus! {

/// The ordered categories the dashboard can display.
#[derive(Debug, Clone, Copy, PartialEq, Eq, Structural)]
pub enum SelectedTab {
    Known,
    Unknown,
    Radio,
}

/// How many categories there are.
pub const TAB_COUNT: usize = 3;

impl SelectedTab {
    /// The position of this category in the fixed ordering.
    pub open spec fn ordinal(self) -> int {
        match self {
            SelectedTab::Known => 0int,
            SelectedTab::Unknown => 1int,
            SelectedTab::Radio => 2int,
        }
    }

    /// The category at a position; out-of-range positions collapse to
    /// the nearest end.
    pub open spec fn spec_from_ordinal(i: int) -> SelectedTab {
        if i <= 0 {
            SelectedTab::Known
        } else if i == 1 {
            SelectedTab::Unknown
        } else {
            SelectedTab::Radio
        }
    }

    /// The following category, unchanged at the last one.
    pub open spec fn spec_next(self) -> SelectedTab {
        Self::spec_from_ordinal(self.ordinal() + 1)
    }

    /// The preceding category, unchanged at the first one.
    pub open spec fn spec_previous(self) -> SelectedTab {
        Self::spec_from_ordinal(self.ordinal() - 1)
    }

    /// The position of this category, as a value.
    pub fn index(self) -> (i: usize)
        ensures
            i == self.ordinal(),
    {
        match self {
            SelectedTab::Known => 0,
            SelectedTab::Unknown => 1,
            SelectedTab::Radio => 2,
        }
    }

    /// The category's label as shown in the tab strip.
    pub fn title(self) -> (r: String)
        ensures
            r@ == spec_title(self),
    {
        match self {
            SelectedTab::Known => "known".to_owned(),
            SelectedTab::Unknown => "unknown".to_owned(),
            SelectedTab::Radio => "radio".to_owned(),
        }
    }

    /// Moves to the next category, saturating at the last one; on an
    /// actual move the list selection is pointed back at the first item
    /// (the length of the new category's sequence is reconciled by the
    /// caller, which knows it).
    pub fn next(self, state: &mut GeneralState) -> (t: SelectedTab)
        ensures
            t == self.spec_next(),
            self.ordinal() < TAB_COUNT - 1 ==> final(state).list_state.selected_index == Some(
                0usize,
            ) && final(state).list_state.scroll_offset == 0 && final(state).list_state.scroll_padding
                == old(state).list_state.scroll_padding,
            self.ordinal() == TAB_COUNT - 1 ==> *final(state) == *old(state),
    {
        match self {
            SelectedTab::Known => {
                state.list_state.select_first();
                SelectedTab::Unknown
            },
            SelectedTab::Unknown => {
                state.list_state.select_first();
                SelectedTab::Radio
            },
            SelectedTab::Radio => SelectedTab::Radio,
        }
    }

    /// Moves to the previous category, saturating at the first one; on
    /// an actual move the list selection is pointed back at the first
    /// item.
    pub fn previous(self, state: &mut GeneralState) -> (t: SelectedTab)
        ensures
            t == self.spec_previous(),
            self.ordinal() > 0 ==> final(state).list_state.selected_index == Some(0usize)
                && final(state).list_state.scroll_offset == 0
                && final(state).list_state.scroll_padding == old(state).list_state.scroll_padding,
            self.ordinal() == 0 ==> *final(state) == *old(state),
    {
        match self {
            SelectedTab::Known => SelectedTab::Known,
            SelectedTab::Unknown => {
                state.list_state.select_first();
                SelectedTab::Known
            },
            SelectedTab::Radio => {
                state.list_state.select_first();
                SelectedTab::Unknown
            },
        }
    }

    /// The placeholder text the radio category renders instead of a
    /// list.
    pub fn render_radio(self) -> (r: String)
        ensures
            r@ == "Radio"@,
    {
        "Radio".to_owned()
    }
}

/// The label of a category.
pub open spec fn spec_title(t: SelectedTab) -> Seq<char> {
    match t {
        SelectedTab::Known => "known"@,
        SelectedTab::Unknown => "unknown"@,
        SelectedTab::Radio => "radio"@,
    }
}

impl Default for SelectedTab {
    /// The dashboard starts on the first category.
    fn default() -> (r: Self)
        ensures
            r == SelectedTab::Known,
    {
        SelectedTab::Known
    }
}

/// One navigation step: forwards on `true`, backwards on `false`.
pub open spec fn spec_tab_step(t: SelectedTab, forward: bool) -> SelectedTab {
    if forward {
        t.spec_next()
    } else {
        t.spec_previous()
    }
}

/// The category reached after a whole sequence of navigation steps.
pub open spec fn spec_run_tabs(t: SelectedTab, steps: Seq<bool>) -> SelectedTab
    decreases steps.len(),
{
    if steps.len() == 0 {
        t
    } else {
        spec_run_tabs(spec_tab_step(t, steps[0]), steps.drop_first())
    }
}

/// Law: under every sequence of next/previous steps the current category
/// stays within the fixed ordering.
pub proof fn lemma_tab_ordinal_bounded(t: SelectedTab, steps: Seq<bool>)
    ensures
        0 <= spec_run_tabs(t, steps).ordinal() < TAB_COUNT,
    decreases steps.len(),
{
    if steps.len() > 0 {
        lemma_tab_ordinal_bounded(spec_tab_step(t, steps[0]), steps.drop_first());
    }
}

/// Law: a next step at the last category and a previous step at the
/// first are no-ops.
pub proof fn lemma_tab_saturates(t: SelectedTab)
    ensures
        t.ordinal() == TAB_COUNT - 1 ==> t.spec_next() == t,
        t.ordinal() == 0 ==> t.spec_previous() == t,
{
}

} // verus!
