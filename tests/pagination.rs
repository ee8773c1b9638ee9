use joke_scroller::pagination::{DrawCommand, PageLayout};

#[test]
fn max_offset_is_zero_when_text_fits() {
    let l = PageLayout::new(40, 64);
    assert_eq!(l.max_scroll_offset, 0);
    assert_eq!(l.current_offset, 0);
    assert!(l.is_last_page());
}

#[test]
fn max_offset_is_height_difference() {
    let l = PageLayout::new(200, 64);
    assert_eq!(l.max_scroll_offset, 136);
    assert_eq!(l.total_text_height, 200);
    assert_eq!(l.screen_height, 64);
    assert!(!l.is_last_page());
}

#[test]
fn text_exactly_one_screen_is_single_page() {
    let l = PageLayout::new(64, 64);
    assert_eq!(l.max_scroll_offset, 0);
    assert!(l.is_last_page());
}

#[test]
fn scroll_offsets_clamp_at_last_page() {
    let mut l = PageLayout::new(200, 64);
    let mut offsets = vec![l.current_offset];
    while !l.is_last_page() {
        l.advance();
        offsets.push(l.current_offset);
    }
    assert_eq!(offsets, vec![0, 32, 64, 96, 128, 136]);
}

#[test]
fn advance_on_last_page_stays() {
    let mut l = PageLayout::new(100, 64);
    l.advance();
    assert_eq!(l.current_offset, 32);
    assert!(!l.is_last_page());
    l.advance();
    assert_eq!(l.current_offset, 36);
    assert!(l.is_last_page());
    l.advance();
    assert_eq!(l.current_offset, 36);
}

#[test]
fn render_count_matches_bound() {
    // max 136, step 32: ceil(136 / 32) + 1 = 6 renders
    let mut l = PageLayout::new(200, 64);
    let mut renders: u32 = 1;
    while !l.is_last_page() {
        l.advance();
        renders += 1;
    }
    assert_eq!(renders, 6);
}

#[test]
fn render_commands_clear_draw_flush() {
    let mut l = PageLayout::new(200, 64);
    l.advance();
    let expected = vec![DrawCommand::Clear, DrawCommand::DrawText { shift_up: 32 }, DrawCommand::Flush];
    assert_eq!(l.render_commands(), expected);
    assert_eq!(l.render_commands(), l.render_commands());
}

#[test]
fn measured_single_line() {
    let l = PageLayout::for_text("Hello", 128, 64);
    assert_eq!(l.total_text_height, 10);
    assert_eq!(l.max_scroll_offset, 0);
}

#[test]
fn measured_paragraphs_add_spacing() {
    let l = PageLayout::for_text("a\nb", 128, 64);
    assert_eq!(l.total_text_height, 26);
}

#[test]
fn measured_long_text_wraps_and_scrolls() {
    let text = "Why do programmers prefer dark mode? Because light attracts bugs. \
                And a second sentence that makes this text long enough to need several lines.";
    let narrow = PageLayout::for_text(text, 60, 20);
    let wide = PageLayout::for_text(text, 600, 20);
    assert!(narrow.total_text_height > wide.total_text_height);
    assert!(narrow.max_scroll_offset > 0);
    assert_eq!(narrow.max_scroll_offset, narrow.total_text_height - 20);
}
