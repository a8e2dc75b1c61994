//! Text of the scroll indicator lines.

use kanban_tui::scroll_indicators::{
    indicator_text, render_above_indicator, render_below_indicator, render_scroll_indicators, scroll_indicator,
    ScrollDirection, ScrollIndicator,
};

#[test]
fn indicator_text_plural_above() {
    let i = ScrollIndicator { count: 2, direction: ScrollDirection::Above };
    assert_eq!(indicator_text(&i, "Task"), "  2 Tasks above");
}

#[test]
fn indicator_text_singular_below() {
    let i = ScrollIndicator { count: 1, direction: ScrollDirection::Below };
    assert_eq!(indicator_text(&i, "item"), "  1 item below");
}

#[test]
fn indicator_text_multi_digit_count() {
    let i = ScrollIndicator { count: 1207, direction: ScrollDirection::Below };
    assert_eq!(indicator_text(&i, "entry"), "  1207 entrys below");
    let z = ScrollIndicator { count: 0, direction: ScrollDirection::Above };
    assert_eq!(indicator_text(&z, "Task"), "  0 Tasks above");
}

#[test]
fn plural_is_any_count_but_one() {
    assert!(ScrollIndicator { count: 0, direction: ScrollDirection::Above }.is_plural());
    assert!(!ScrollIndicator { count: 1, direction: ScrollDirection::Above }.is_plural());
    assert!(ScrollIndicator { count: 10, direction: ScrollDirection::Above }.is_plural());
}

#[test]
fn indicators_only_when_shown() {
    assert_eq!(scroll_indicator(false, 3, ScrollDirection::Above), None);
    assert_eq!(
        scroll_indicator(true, 3, ScrollDirection::Below),
        Some(ScrollIndicator { count: 3, direction: ScrollDirection::Below })
    );
    assert_eq!(render_above_indicator(false, 4, "Task"), None);
    assert_eq!(render_below_indicator(true, 4, "Task"), Some("  4 Tasks below".to_string()));
}

#[test]
fn scroll_indicators_give_zero_one_or_two_lines() {
    assert!(render_scroll_indicators(false, 0, false, 0, "Task").is_empty());
    assert_eq!(render_scroll_indicators(true, 3, false, 0, "Task"), vec!["  3 Tasks above".to_string()]);
    assert_eq!(render_scroll_indicators(false, 0, true, 1, "Task"), vec!["  1 Task below".to_string()]);
    assert_eq!(
        render_scroll_indicators(true, 5, true, 12, "item"),
        vec!["  5 items above".to_string(), "  12 items below".to_string()]
    );
}
