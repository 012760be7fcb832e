//! The scrollable network list: the viewport state (selection and scroll
//! offset) and the per-item three-row render block.

use crate::signal::{encoded_bar, BarStyle};
use crate::text::dec_rep;
use vstd::prelude::*;
use vstd::string::StringExecFns;

verus! {

/// One network entry as the list displays it.
#[derive(Clone)]
pub struct Network {
    pub ssid: String,
    pub signal_strength: u8,
    pub is_known: bool,
    pub ip_address: Option<String>,
    pub is_connected: bool,
    pub security: String,
}

/// Rows one item occupies on screen: identity, metadata, separator.
pub const ITEM_HEIGHT: usize = 3;

/// Context rows kept above and below the selection while scrolling.
pub const SCROLL_PADDING: usize = 2;

/// Viewport state for the currently displayed sequence.
#[derive(Clone, Copy)]
pub struct ListState {
    pub selected_index: Option<usize>,
    pub scroll_offset: usize,
    pub scroll_padding: usize,
}

/// The selection corrected against a sequence of length `n`: nothing is
/// selected exactly when the sequence is empty, and a stale index clamps
/// to the last valid one.
pub open spec fn spec_clamp_index(sel: Option<usize>, n: usize) -> Option<usize> {
    if n == 0 {
        None
    } else {
        match sel {
            None => Some(0usize),
            Some(i) => if i < n {
                Some(i)
            } else {
                Some((n - 1) as usize)
            },
        }
    }
}

/// The scroll offset corrected against a sequence of length `n`.
pub open spec fn spec_clamp_offset(off: usize, n: usize) -> usize {
    if n == 0 {
        0usize
    } else if off < n {
        off
    } else {
        (n - 1) as usize
    }
}

/// The selection after one step towards the end of the list: a no-op on
/// an empty sequence; otherwise a stale index is corrected first, then
/// the selection advances, saturating at the last item.
pub open spec fn spec_step_down(sel: Option<usize>, n: usize) -> Option<usize> {
    if n == 0 {
        sel
    } else {
        let i = spec_sel_value(spec_clamp_index(sel, n));
        if i + 1 < n {
            Some((i + 1) as usize)
        } else {
            Some(i as usize)
        }
    }
}

/// The selection after one step towards the start, saturating at the
/// first item; a no-op on an empty sequence.
pub open spec fn spec_step_up(sel: Option<usize>, n: usize) -> Option<usize> {
    if n == 0 {
        sel
    } else {
        let i = spec_sel_value(spec_clamp_index(sel, n));
        if i > 0 {
            Some((i - 1) as usize)
        } else {
            Some(0usize)
        }
    }
}

/// How many whole items fit into `h` rows.
pub open spec fn spec_visible_count(h: u16) -> int {
    h as int / ITEM_HEIGHT as int
}

/// The padding actually honoured: with a small viewport the configured
/// padding shrinks so that the selection can keep equal context on both
/// sides and still stay inside the window.
pub open spec fn spec_effective_padding(pad: usize, v: int) -> int {
    let m = (v - 1) / 2;
    if pad <= m {
        pad as int
    } else {
        m
    }
}

/// The scroll offset after one adjustment, for a window of `v` items over
/// `n` items with the selection at `sel`: scroll up just enough to keep
/// the padding above, then down just enough to keep it below, then clamp
/// so the window does not run past the end.  Meaningful for `0 < v < n`
/// and `sel < n`.
pub open spec fn spec_adjusted_offset(off: usize, sel: int, n: usize, v: int, pad0: usize) -> int {
    let pad = spec_effective_padding(pad0, v);
    let top = if sel >= pad {
        sel - pad
    } else {
        0int
    };
    let off1 = if top < off {
        top
    } else {
        off as int
    };
    let off2 = if sel + pad + 1 - v > off1 {
        sel + pad + 1 - v
    } else {
        off1
    };
    if off2 > n - v {
        n - v
    } else {
        off2
    }
}

/// The value behind a selection, zero when nothing is selected.
pub open spec fn spec_sel_value(sel: Option<usize>) -> int {
    match sel {
        Some(i) => i as int,
        None => 0int,
    }
}

/// The window of item indices `visible_range` returns for a state, a
/// sequence length and a viewport height.
pub open spec fn spec_visible_window(st: ListState, n: usize, h: u16) -> (int, int) {
    let v = spec_visible_count(h);
    if v == 0 || n == 0 {
        (0int, 0int)
    } else if n <= v {
        (0int, n as int)
    } else {
        let sel = spec_sel_value(spec_clamp_index(st.selected_index, n));
        let o = spec_adjusted_offset(st.scroll_offset, sel, n, v, st.scroll_padding);
        (o, o + v)
    }
}

/// Whether the selection points into the half-open index window.
pub open spec fn in_window(sel: Option<usize>, start: usize, end: usize) -> bool {
    match sel {
        Some(i) => start <= i < end,
        None => false,
    }
}

impl ListState {
    /// A valid viewport state for a sequence of length `n`.
    pub open spec fn well_formed(self, n: nat) -> bool {
        &&& (self.selected_index is None <==> n == 0)
        &&& match self.selected_index {
            Some(i) => i < n,
            None => true,
        }
    }

    /// A fresh state: nothing selected, scrolled to the top.
    pub fn new() -> (r: ListState)
        ensures
            r.selected_index is None,
            r.scroll_offset == 0,
            r.scroll_padding == SCROLL_PADDING,
    {
        ListState { selected_index: None, scroll_offset: 0, scroll_padding: SCROLL_PADDING }
    }

    /// Points the selection at the head of the list and rewinds the
    /// scroll; the sequence length is reconciled separately.
    pub fn select_first(&mut self)
        ensures
            final(self).selected_index == Some(0usize),
            final(self).scroll_offset == 0,
            final(self).scroll_padding == old(self).scroll_padding,
    {
        self.selected_index = Some(0);
        self.scroll_offset = 0;
    }

    /// Resets the viewport for a freshly displayed sequence of length
    /// `n`: first element selected when there is one, scroll at the top.
    pub fn reset_to_first(&mut self, n: usize)
        ensures
            final(self).selected_index == (if n > 0 {
                Some(0usize)
            } else {
                None::<usize>
            }),
            final(self).scroll_offset == 0,
            final(self).scroll_padding == old(self).scroll_padding,
    {
        self.selected_index = if n > 0 {
            Some(0)
        } else {
            None
        };
        self.scroll_offset = 0;
    }

    /// Corrects the state after the active sequence was replaced by one
    /// of length `n`; shrinkage clamps, it never fails.
    pub fn clamp_to_len(&mut self, n: usize)
        ensures
            final(self).selected_index == spec_clamp_index(old(self).selected_index, n),
            final(self).scroll_offset == spec_clamp_offset(old(self).scroll_offset, n),
            final(self).scroll_padding == old(self).scroll_padding,
            final(self).well_formed(n as nat),
    {
        if n == 0 {
            self.selected_index = None;
            self.scroll_offset = 0;
        } else {
            match self.selected_index {
                None => {
                    self.selected_index = Some(0);
                },
                Some(i) => {
                    if i >= n {
                        self.selected_index = Some(n - 1);
                    }
                },
            }
            if self.scroll_offset >= n {
                self.scroll_offset = n - 1;
            }
        }
    }

    /// Moves the selection one item towards the end of a sequence of
    /// length `n`, saturating at the last item; a no-op on an empty one.
    pub fn select_next(&mut self, n: usize)
        ensures
            final(self).selected_index == spec_step_down(old(self).selected_index, n),
            final(self).scroll_offset == old(self).scroll_offset,
            final(self).scroll_padding == old(self).scroll_padding,
    {
        if n > 0 {
            let cur = match self.selected_index {
                None => 0,
                Some(i) => if i < n {
                    i
                } else {
                    n - 1
                },
            };
            self.selected_index = if cur + 1 < n {
                Some(cur + 1)
            } else {
                Some(cur)
            };
        }
    }

    /// Moves the selection one item towards the start, saturating at the
    /// first item; a no-op on an empty sequence.
    pub fn select_previous(&mut self, n: usize)
        ensures
            final(self).selected_index == spec_step_up(old(self).selected_index, n),
            final(self).scroll_offset == old(self).scroll_offset,
            final(self).scroll_padding == old(self).scroll_padding,
    {
        if n > 0 {
            let cur = match self.selected_index {
                None => 0,
                Some(i) => if i < n {
                    i
                } else {
                    n - 1
                },
            };
            self.selected_index = if cur > 0 {
                Some(cur - 1)
            } else {
                Some(0)
            };
        }
    }

    /// Computes the window of item indices that fit into `h` rows,
    /// adjusting the scroll offset so the (re-clamped) selection stays
    /// inside the window with as much padding as the viewport allows.
    /// The window never runs past the end of the sequence and, whenever
    /// anything is visible at all, contains the selection.
    #[verifier::rlimit(50)]
    pub fn visible_range(&mut self, n: usize, h: u16) -> (r: (usize, usize))
        ensures
            final(self).scroll_padding == old(self).scroll_padding,
            final(self).selected_index == spec_clamp_index(old(self).selected_index, n),
            (r.0 as int, r.1 as int) == spec_visible_window(*old(self), n, h),
            spec_visible_count(h) > 0 ==> final(self).scroll_offset == r.0,
            spec_visible_count(h) == 0 ==> final(self).scroll_offset == old(self).scroll_offset,
            r.0 <= r.1 <= n,
            r.1 - r.0 <= spec_visible_count(h),
            n >= spec_visible_count(h) ==> r.1 - r.0 == spec_visible_count(h),
            spec_visible_count(h) > 0 && n > 0 ==> in_window(final(self).selected_index, r.0, r.1),
    {
        // Reconcile the selection with the current sequence length.
        let sel: usize = if n == 0 {
            self.selected_index = None;
            0
        } else {
            match self.selected_index {
                None => {
                    self.selected_index = Some(0);
                    0
                },
                Some(i) => {
                    if i < n {
                        i
                    } else {
                        self.selected_index = Some(n - 1);
                        n - 1
                    }
                },
            }
        };
        let v: usize = (h as usize) / ITEM_HEIGHT;
        if v == 0 {
            return (0, 0);
        }
        if n == 0 {
            self.scroll_offset = 0;
            return (0, 0);
        }
        if n <= v {
            self.scroll_offset = 0;
            return (0, n);
        }
        // Here 0 < v < n and sel < n.
        let pad_max: usize = (v - 1) / 2;
        let pad: usize = if self.scroll_padding <= pad_max {
            self.scroll_padding
        } else {
            pad_max
        };
        proof {
            assert(pad == spec_effective_padding(old(self).scroll_padding, v as int));
            assert(2 * pad < v);
        }
        let mut off: usize = self.scroll_offset;
        let top: usize = if sel >= pad {
            sel - pad
        } else {
            0
        };
        if top < off {
            off = top;
        }
        proof {
            assert(off <= sel);
        }
        // off <= sel and pad < v now, so these subtractions stay in range.
        if sel - off >= v - pad {
            off = sel - (v - 1 - pad);
        }
        proof {
            assert(off <= sel && sel < off + v);
        }
        if off > n - v {
            off = n - v;
        }
        proof {
            assert(off as int == spec_adjusted_offset(
                old(self).scroll_offset,
                sel as int,
                n,
                v as int,
                old(self).scroll_padding,
            ));
            assert(off <= sel && sel < off + v);
        }
        self.scroll_offset = off;
        (off, off + v)
    }
}

/// The three-row visual block one list item renders to.  The two text
/// rows each have a left-aligned and a right-aligned part; the third row
/// is a separator whose accent follows the selection flag, as do the
/// text styles, so a block is fully determined by the record and the
/// flag.
pub struct ItemBlock {
    pub identity_left: String,
    pub identity_right: String,
    pub metadata_left: String,
    pub metadata_right: String,
    pub selected: bool,
}

/// The identity row's left text: the display name, prefixed with a
/// connected marker when the network is connected.
pub open spec fn ssid_text(n: Network) -> Seq<char> {
    if n.is_connected {
        "* "@ + n.ssid@
    } else {
        n.ssid@
    }
}

/// The metadata row's left text: the security label, or a placeholder
/// when it is empty.
pub open spec fn security_text(n: Network) -> Seq<char> {
    if n.security@.len() == 0 {
        "open"@
    } else {
        n.security@
    }
}

/// The metadata row's right text: the clamped quality as "(N%)".
pub open spec fn percent_text(q: u8) -> Seq<char> {
    "("@ + dec_rep(crate::signal::clamp_quality(q)) + "%)"@
}

/// What one rendered block must hold for a record and selection flag.
pub open spec fn is_rendered_block(b: ItemBlock, n: Network, selected: bool) -> bool {
    &&& b.identity_left@ == ssid_text(n)
    &&& b.identity_right@ == encoded_bar(n.signal_strength, BarStyle::BinaryCircles)
    &&& b.metadata_left@ == security_text(n)
    &&& b.metadata_right@ == percent_text(n.signal_strength)
    &&& b.selected == selected
}

/// Builds the "(N%)" label for a quality value.
fn percent_label(q: u8) -> (r: String)
    ensures
        r@ == percent_text(q),
{
    let c: u8 = if q > 100 {
        100
    } else {
        q
    };
    let mut r = String::from_str("(");
    let digits = crate::text::u8_to_dec(c);
    r.append(digits.as_str());
    r.append("%)");
    proof {
        assert(r@ =~= percent_text(q));
    }
    r
}

impl Network {
    /// The display name, with a connected marker in front when the
    /// network is the connected one.
    pub fn get_ssid(&self) -> (r: String)
        ensures
            r@ == ssid_text(*self),
    {
        if self.is_connected {
            let mut r = String::from_str("* ");
            r.append(self.ssid.as_str());
            r
        } else {
            self.ssid.clone()
        }
    }

    /// The signal glyph string for a quality value under a style.
    pub fn signal_strength_bar(&self, strength: u8, style: BarStyle) -> (r: String)
        ensures
            r@ == encoded_bar(strength, style),
    {
        crate::signal::encode(strength, style)
    }

    /// Renders this record to its three-row block, styled by the
    /// selection flag.
    pub fn render(&self, is_selected: bool) -> (b: ItemBlock)
        ensures
            is_rendered_block(b, *self, is_selected),
    {
        let identity_left = self.get_ssid();
        let identity_right = self.signal_strength_bar(self.signal_strength, BarStyle::BinaryCircles);
        let metadata_left = if self.security.as_str().is_empty() {
            String::from_str("open")
        } else {
            self.security.clone()
        };
        let metadata_right = percent_label(self.signal_strength);
        ItemBlock { identity_left, identity_right, metadata_left, metadata_right, selected: is_selected }
    }
}

/// The visible slice of a rendered list: the window bounds and one block
/// per visible item.
pub struct ListViewModel {
    pub start: usize,
    pub end: usize,
    pub blocks: Vec<ItemBlock>,
}

/// Whether a view model shows exactly the items of `networks` in the
/// window, each rendered with the right selection flag.
pub open spec fn is_rendered_window(m: ListViewModel, networks: Seq<Network>, sel: Option<usize>) -> bool {
    &&& m.start <= m.end <= networks.len()
    &&& m.blocks@.len() == m.end - m.start
    &&& forall|j: int|
        0 <= j < m.blocks@.len() ==> is_rendered_block(
            #[trigger] m.blocks@[j],
            networks[m.start + j],
            sel == Some((m.start + j) as usize),
        )
}

/// The selection after `k` steps towards the end of a list of length `n`.
pub open spec fn spec_iter_step_down(sel: Option<usize>, n: usize, k: nat) -> Option<usize>
    decreases k,
{
    if k == 0 {
        sel
    } else {
        spec_step_down(spec_iter_step_down(sel, n, (k - 1) as nat), n)
    }
}

/// From the first item, `k` steps towards the end land on item `k`,
/// saturating at the last item.
pub proof fn lemma_step_down_progress(n: usize, k: nat)
    requires
        n > 0,
    ensures
        spec_iter_step_down(Some(0usize), n, k) == Some(
            (if k < n {
                k as usize
            } else {
                (n - 1) as usize
            }),
        ),
    decreases k,
{
    if k > 0 {
        lemma_step_down_progress(n, (k - 1) as nat);
    }
}

/// Law: on a non-empty list of length `n`, exactly `n - 1` select-next
/// steps from the first item reach the last item, and one more step
/// leaves the selection unchanged.
pub proof fn lemma_step_down_reaches_last(n: usize)
    requires
        n > 0,
    ensures
        spec_iter_step_down(Some(0usize), n, (n - 1) as nat) == Some((n - 1) as usize),
        spec_step_down(Some((n - 1) as usize), n) == Some((n - 1) as usize),
{
    lemma_step_down_progress(n, (n - 1) as nat);
}

} // verus!
