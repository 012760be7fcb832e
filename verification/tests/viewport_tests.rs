use wifi_tui::list::{ListState, ITEM_HEIGHT, SCROLL_PADDING};

fn fresh(n: usize) -> ListState {
    let mut st = ListState::new();
    st.reset_to_first(n);
    st
}

#[test]
fn new_state_is_empty_and_rewound() {
    let st = ListState::new();
    assert_eq!(st.selected_index, None);
    assert_eq!(st.scroll_offset, 0);
    assert_eq!(st.scroll_padding, SCROLL_PADDING);
    assert_eq!(ITEM_HEIGHT, 3);
}

#[test]
fn reset_selects_first_or_nothing() {
    let mut st = ListState::new();
    st.reset_to_first(4);
    assert_eq!(st.selected_index, Some(0));
    assert_eq!(st.scroll_offset, 0);
    st.reset_to_first(0);
    assert_eq!(st.selected_index, None);
    assert_eq!(st.scroll_offset, 0);
}

#[test]
fn select_next_saturates_at_last() {
    // On a list of length n, n-1 steps from the first item reach the
    // last; one more leaves the selection unchanged.
    let n = 5usize;
    let mut st = fresh(n);
    for _ in 0..n - 1 {
        st.select_next(n);
    }
    assert_eq!(st.selected_index, Some(n - 1));
    st.select_next(n);
    assert_eq!(st.selected_index, Some(n - 1));
}

#[test]
fn select_previous_saturates_at_first() {
    let mut st = fresh(3);
    st.select_previous(3);
    assert_eq!(st.selected_index, Some(0));
    st.select_next(3);
    st.select_previous(3);
    assert_eq!(st.selected_index, Some(0));
}

#[test]
fn navigation_on_empty_is_a_no_op() {
    let mut st = fresh(0);
    st.select_next(0);
    assert_eq!(st.selected_index, None);
    st.select_previous(0);
    assert_eq!(st.selected_index, None);
}

#[test]
fn stale_selection_clamps_on_step() {
    // The sequence shrank under a selection of 7; the next step corrects
    // it instead of failing.
    let mut st = ListState { selected_index: Some(7), scroll_offset: 0, scroll_padding: 2 };
    st.select_next(3);
    assert_eq!(st.selected_index, Some(2));
}

#[test]
fn clamp_to_len_corrects_stale_state() {
    let mut st = ListState { selected_index: Some(7), scroll_offset: 9, scroll_padding: 2 };
    st.clamp_to_len(3);
    assert_eq!(st.selected_index, Some(2));
    assert_eq!(st.scroll_offset, 2);
    st.clamp_to_len(0);
    assert_eq!(st.selected_index, None);
    assert_eq!(st.scroll_offset, 0);
}

#[test]
fn window_never_exceeds_length_and_contains_selection() {
    for n in 0usize..12 {
        for h in 0u16..12 {
            for sel in 0usize..12 {
                let mut st = ListState {
                    selected_index: if n == 0 { None } else { Some(sel) },
                    scroll_offset: sel / 2,
                    scroll_padding: 2,
                };
                let (start, end) = st.visible_range(n, h);
                assert!(end <= n, "end {} past n {}", end, n);
                assert!(start <= end);
                if n > 0 && (h as usize) / 3 > 0 {
                    let cur = st.selected_index.unwrap();
                    assert!(start <= cur && cur < end, "sel {} outside {}..{}", cur, start, end);
                }
            }
        }
    }
}

#[test]
fn scroll_advances_just_enough() {
    // Ten records, a viewport of three items, padding two (shrunk to the
    // one row of context the window can honour): five steps down from
    // the first item leave the selection at five, with the offset
    // having advanced one row per step once the selection hit the
    // window's lower context row.
    let n = 10usize;
    let h = 9u16;
    let mut st = fresh(n);
    let (start, end) = st.visible_range(n, h);
    assert_eq!((start, end), (0, 3));
    let expected_offsets = [0usize, 1, 2, 3, 4];
    for step in 0..5 {
        st.select_next(n);
        let (start, end) = st.visible_range(n, h);
        assert_eq!(st.scroll_offset, expected_offsets[step]);
        assert_eq!(end - start, 3);
        let cur = st.selected_index.unwrap();
        assert!(start <= cur && cur < end);
    }
    assert_eq!(st.selected_index, Some(5));
    assert_eq!(st.scroll_offset, 4);
}

#[test]
fn scroll_clamps_at_the_end() {
    let n = 10usize;
    let h = 9u16;
    let mut st = fresh(n);
    for _ in 0..20 {
        st.select_next(n);
    }
    let (start, end) = st.visible_range(n, h);
    assert_eq!(st.selected_index, Some(9));
    // The window cannot run past the end: it clamps to the last three.
    assert_eq!((start, end), (7, 10));
}

#[test]
fn short_sequence_is_fully_visible() {
    let mut st = fresh(2);
    let (start, end) = st.visible_range(2, 30);
    assert_eq!((start, end), (0, 2));
    assert_eq!(st.scroll_offset, 0);
}

#[test]
fn zero_height_viewport_shows_nothing() {
    let mut st = fresh(5);
    let (start, end) = st.visible_range(5, 2);
    assert_eq!((start, end), (0, 0));
}
