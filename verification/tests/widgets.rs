use winio_ui::canvas::{mouse_button, mouse_point, ActionBuffers, DrawingSession, MouseButton};
use winio_ui::combo::{
    removal_reselect, replacement_reselect, row_selected, selects_first_after_insert, ComboItems, ItemList, Reselect,
};
use winio_ui::edit::{
    edit_style, first_line_end, is_password, multiline_edit_action, password_char,
    password_char_to_set, text_box_control_text, text_box_style, text_box_text,
};
use winio_ui::icon::{icon_bitmap_header, icon_target_size, IconEntry, IconRegistry, IconSize};
use winio_ui::link::{
    link_label_message, link_markup, shell_execute_succeeded, LinkClick, LinkLabelMessage,
    LinkLabelText, LABEL_STYLE,
};
use winio_ui::media::load_outcome;
use winio_ui::progress::ProgressRange;
use winio_ui::scroll::{
    checked_scroll_pos, children_bounds, content_offset, scroll_layout, scroll_pos, scroll_request, scrolled_offset,
    union_rect, ScrollInfo, ScrollRange, ScrollRequest,
};
use winio_ui::tab_view::{
    check_insert, hidden_views, page_bounds, retitle_target, visible_after_select, TabInsertError, TabPages,
    TabViewItem, ViewSwitch,
};
use winio_ui::window::EdgeRect;

fn info(min: i32, max: i32, page: u32, pos: i32, track_pos: i32) -> ScrollInfo {
    ScrollInfo { min, max, page, pos, track_pos }
}

#[test]
fn scroll_requests_move_the_position() {
    let i = info(0, 100, 10, 40, 77);
    assert_eq!(scroll_pos(i, 6, false), 0);
    assert_eq!(scroll_pos(i, 1, false), 41);
    assert_eq!(scroll_pos(i, 0, false), 39);
    assert_eq!(scroll_pos(i, 7, false), 91);
    assert_eq!(scroll_pos(i, 3, false), 50);
    assert_eq!(scroll_pos(i, 2, false), 30);
    assert_eq!(scroll_pos(i, 5, false), 77);
    assert_eq!(scroll_pos(i, 8, false), 40);
    // the high word of a scroll message is ignored
    assert_eq!(scroll_pos(i, 0x0042_0001, false), 41);
}

#[test]
fn wheel_turns_move_the_position_against_the_delta() {
    let i = info(0, 1000, 10, 400, 0);
    assert_eq!(scroll_pos(i, 120 << 16, true), 280);
    assert_eq!(scroll_pos(i, 0xFF88 << 16, true), 520);
}

#[test]
fn line_down_then_up_comes_back() {
    let i = info(0, 100, 10, 40, 0);
    let down = scroll_pos(i, 1, false);
    assert_eq!(scroll_pos(ScrollInfo { pos: down, ..i }, 0, false), 40);
    let page_down = scroll_pos(i, 3, false);
    assert_eq!(scroll_pos(ScrollInfo { pos: page_down, ..i }, 2, false), 40);
}

#[test]
fn scroll_messages_map_to_axes() {
    assert_eq!(scroll_request(0x115), Some(ScrollRequest { horizontal: false, wheel: false }));
    assert_eq!(scroll_request(0x114), Some(ScrollRequest { horizontal: true, wheel: false }));
    assert_eq!(scroll_request(0x20A), Some(ScrollRequest { horizontal: false, wheel: true }));
    assert_eq!(scroll_request(0x20E), Some(ScrollRequest { horizontal: true, wheel: true }));
    assert_eq!(scroll_request(0x200), None);
    assert_eq!(scrolled_offset(true, 30), (-30, 0));
    assert_eq!(scrolled_offset(false, 30), (0, -30));
}

#[test]
fn children_bounds_hold_every_child_and_origin() {
    let rects = vec![
        EdgeRect { left: 10, top: 5, right: 50, bottom: 40 },
        EdgeRect { left: -4, top: 20, right: 30, bottom: 200 },
    ];
    assert_eq!(children_bounds(&rects), EdgeRect { left: -4, top: 0, right: 50, bottom: 200 });
    assert_eq!(children_bounds(&Vec::new()), EdgeRect { left: 0, top: 0, right: 0, bottom: 0 });
    assert_eq!(
        union_rect(EdgeRect { left: 0, top: 0, right: 1, bottom: 1 }, EdgeRect {
            left: 2,
            top: -3,
            right: 4,
            bottom: 0
        }),
        EdgeRect { left: 0, top: -3, right: 4, bottom: 1 }
    );
}

#[test]
fn scroll_layout_sets_content_and_ranges() {
    let bounds = EdgeRect { left: 0, top: 0, right: 300, bottom: 50 };
    let l = scroll_layout(bounds, 200, 100, true, false);
    assert_eq!((l.content_width, l.content_height), (300, 98));
    assert_eq!(l.horizontal, Some(ScrollRange { page: 200, min: 0, max: 300 }));
    assert_eq!(l.vertical, None);
    assert_eq!(content_offset(Some(12), None), (-12, 0));
    assert_eq!(content_offset(Some(3), Some(4)), (-3, -4));
}

#[test]
fn tab_insert_is_refused_for_owned_pages() {
    assert_eq!(check_insert(Some(0), 1, 2), Err(TabInsertError::HwndsHaveDiffParent));
    assert_eq!(check_insert(None, 2, 2), Err(TabInsertError::AlreadyExists));
    assert_eq!(check_insert(None, 1, 2), Ok(()));
    assert_eq!(TabInsertError::HwndsHaveDiffParent.code(), 1441);
    assert_eq!(TabInsertError::AlreadyExists.code(), 183);
}

#[test]
fn tab_pages_insert_remove_and_show() {
    let mut t = TabPages::new();
    assert!(t.is_empty());
    assert!(t.insert(0, 100));
    assert!(!t.insert(1, 200));
    assert!(!t.insert(1, 150));
    assert_eq!(t.views(), &vec![100, 150, 200]);
    assert_eq!(t.page_index(150), Some(1));
    assert_eq!(t.page_index(200), Some(2));
    assert_eq!(t.page_index(999), None);
    assert_eq!(t.show_current_view(Some(0)), ViewSwitch { hide: None, show: Some(100) });
    assert_eq!(t.show_current_view(Some(2)), ViewSwitch { hide: Some(100), show: Some(200) });
    assert_eq!(t.remove(1, Some(2)), (150, false));
    assert_eq!(t.page_index(150), None);
    assert_eq!(t.page_index(200), Some(1));
    assert_eq!(t.remove(0, Some(0)), (100, true));
    assert_eq!(t.len(), 1);
    assert_eq!(t.clear(), vec![200]);
    assert!(t.is_empty());
}

#[test]
fn tab_visibility_and_retitle() {
    assert_eq!(hidden_views(3, 1), vec![true, false, true]);
    assert_eq!(visible_after_select(2, -1), None);
    assert_eq!(visible_after_select(2, 0), Some(vec![false, true]));
    assert_eq!(retitle_target(Some(4), true), Some(4));
    assert_eq!(retitle_target(Some(4), false), None);
    assert_eq!(retitle_target(None, true), None);
}

#[test]
fn combo_removal_reselects() {
    assert_eq!(removal_reselect(true, false, 2, 2), Reselect::Select(1));
    assert_eq!(removal_reselect(true, false, 0, 2), Reselect::Select(0));
    assert_eq!(removal_reselect(true, false, 0, 0), Reselect::Clear);
    assert_eq!(removal_reselect(true, true, 0, 2), Reselect::Keep);
    assert_eq!(removal_reselect(false, false, 0, 2), Reselect::Keep);
    assert!(selects_first_after_insert(false, 1));
    assert!(!selects_first_after_insert(true, 1));
    assert!(!selects_first_after_insert(false, 2));
}

#[test]
fn combo_items_list_and_selection() {
    let mut c = ComboItems::new();
    assert!(c.insert(0, "b"));
    assert!(!c.insert(0, "a"));
    assert!(!c.insert(2, "c"));
    assert_eq!(c.len(), 3);
    assert_eq!(c.get(0), "a");
    c.set(1, "B");
    assert_eq!(c.get(1), "B");
    assert_eq!(c.selection(1), Some(1));
    assert_eq!(c.selection(3), None);
    assert_eq!(c.selection(-1), None);
    assert_eq!(c.text(2), "c");
    assert_eq!(c.text(-1), "");
    assert_eq!(c.title_for_row(0), Some("a".to_string()));
    assert_eq!(c.title_for_row(5), None);
    assert_eq!(c.number_of_rows(), 3);
    c.remove(0);
    assert_eq!(c.get(0), "B");
    c.set_editable(true);
    assert!(c.is_editable());
    c.clear();
    assert!(c.is_empty());
    assert!(!c.insert(0, "x"));
}

#[test]
fn list_items_and_selected_rows() {
    let mut l = ItemList::new();
    l.insert(0, "one");
    l.insert(1, "two");
    assert_eq!(l.row_text(1), Some("two".to_string()));
    assert_eq!(l.row_text(2), None);
    l.set(0, "uno");
    assert_eq!(l.get(0), "uno");
    l.remove(1);
    assert_eq!(l.len(), 1);
    let rows = vec![0isize, 3];
    assert!(row_selected(Some(&rows), 3));
    assert!(!row_selected(Some(&rows), 1));
    assert!(!row_selected(None, 0));
}

#[test]
fn canvas_buffers_display_what_was_drawn() {
    let mut b: ActionBuffers<u32> = ActionBuffers::new();
    let mut buf = b.take_buffer();
    buf.push(1);
    buf.push(2);
    b.swap_buffer(&mut buf);
    assert_eq!(b.displayed(), &vec![1, 2]);
    assert!(buf.is_empty());
    let mut next = b.take_buffer();
    assert!(next.is_empty());
    next.push(3);
    b.swap_buffer(&mut next);
    assert_eq!(b.displayed(), &vec![3]);
    assert!(next.is_empty());
}

#[test]
fn canvas_mouse_messages() {
    assert_eq!(mouse_button(0x201), Some((MouseButton::Left, true)));
    assert_eq!(mouse_button(0x205), Some((MouseButton::Right, false)));
    assert_eq!(mouse_button(0x207), Some((MouseButton::Middle, true)));
    assert_eq!(mouse_button(0x200), None);
    assert_eq!(mouse_point(0x0014_000A), (10, 20));
    assert_eq!(mouse_point(-0x0001_0000 | 5), (5, -1));
}

#[test]
fn edit_styles_and_password() {
    assert_eq!(edit_style(), 0x5001_00A0);
    assert_eq!(text_box_style(), 0x5001_0044);
    assert_eq!(password_char(0), 42);
    assert_eq!(password_char(0x25CF), 0x25CF);
    assert_eq!(password_char_to_set(true, 42), 42);
    assert_eq!(password_char_to_set(false, 42), 0);
    assert!(is_password(42));
    assert!(!is_password(0));
}

#[test]
fn text_box_first_line_and_return_key() {
    let text: Vec<u16> = "ab\r\ncd".encode_utf16().collect();
    assert_eq!(first_line_end(&text), Some(2));
    let one: Vec<u16> = "abc".encode_utf16().collect();
    assert_eq!(first_line_end(&one), None);
    assert_eq!(multiline_edit_action(135, 0, 0x8F), (0x8B, false));
    assert_eq!(multiline_edit_action(257, 13, 5), (5, true));
    assert_eq!(multiline_edit_action(257, 14, 5), (5, false));
    assert_eq!(multiline_edit_action(256, 13, 5), (5, false));
}

#[test]
fn icon_bitmap_and_size() {
    let h = icon_bitmap_header(16, 8);
    assert_eq!(h.width, 16);
    assert_eq!(h.height, -8);
    assert_eq!(h.size_image, 512);
    assert_eq!(h.bit_count, 32);
    assert_eq!(h.alpha_mask, 0xFF00_0000);
    assert_eq!(icon_target_size(IconSize::Small, (16, 16)), Some((16, 16)));
    assert_eq!(icon_target_size(IconSize::Logical, (16, 16)), None);
}

#[test]
fn icon_registry_set_clear_refresh() {
    let mut r: IconRegistry<&str> = IconRegistry::new();
    assert!(r.set(1, IconEntry { image: "a", size: IconSize::Small, msg: 247, icon: 11 }).is_none());
    let old = r.set(1, IconEntry { image: "b", size: IconSize::Logical, msg: 247, icon: 12 });
    assert_eq!(old.map(|e| e.icon), Some(11));
    assert_eq!(r.get(1).map(|e| e.image), Some("b"));
    assert_eq!(r.clear(1), Some(247));
    assert_eq!(r.clear(1), None);
    assert!(r.get(1).is_none());
}

#[test]
fn link_label_markup_and_click() {
    assert_eq!(link_markup("Home", ""), "<A ID=\"custom\">Home</A>");
    assert_eq!(
        link_markup("Home", "https://example.com"),
        "<A HREF=\"https://example.com\">Home</A>"
    );
    let mut l = LinkLabelText::new();
    assert_eq!(l.set_text("Go"), "<A ID=\"custom\">Go</A>");
    assert_eq!(l.on_click(), LinkClick::Clicked);
    assert_eq!(l.set_uri("x:y"), "<A HREF=\"x:y\">Go</A>");
    assert_eq!(l.on_click(), LinkClick::OpenUri);
    assert_eq!(l.text(), "Go");
    assert_eq!(l.uri(), "x:y");
    assert!(shell_execute_succeeded(33));
    assert!(!shell_execute_succeeded(32));
}

#[test]
fn progress_range_keeps_maximum_above_minimum() {
    let mut p = ProgressRange::new();
    assert_eq!((p.minimum(), p.maximum()), (0, 100));
    p.set_minimum(50);
    p.set_maximum(10);
    assert_eq!(p.maximum(), 51);
    p.set_maximum(80);
    assert_eq!(p.maximum(), 80);
    assert_eq!(p.offset_and_width(60), (10, 30));
}

#[test]
fn media_load_outcome() {
    assert_eq!(load_outcome(14, 0), Some(Ok(())));
    assert_eq!(load_outcome(5, 0x8007_0002), Some(Err(0x8007_0002u32 as i32)));
    assert_eq!(load_outcome(13, 0), None);
}

#[test]
fn drawing_session_ends_once() {
    let mut b: ActionBuffers<char> = ActionBuffers::new();
    let mut d = DrawingSession::begin(&mut b);
    d.push('a');
    d.push('b');
    assert!(d.end(&mut b));
    assert_eq!(b.displayed(), &vec!['a', 'b']);
    assert!(!d.end(&mut b));
    assert_eq!(b.displayed(), &vec!['a', 'b']);
    let mut e = DrawingSession::begin(&mut b);
    e.push('c');
    assert!(e.end(&mut b));
    assert_eq!(b.displayed(), &vec!['c']);
}

#[test]
fn static_link_label_messages() {
    assert_eq!(link_label_message(0x20), LinkLabelMessage::HandCursor);
    assert_eq!(link_label_message(0x30), LinkLabelMessage::UnderlineFont);
    assert_eq!(link_label_message(0x111), LinkLabelMessage::PassOn);
    assert_eq!(LABEL_STYLE, 0x5000_0100);
}

#[test]
fn tab_pages_fill_the_display_area() {
    assert_eq!(page_bounds(EdgeRect { left: 4, top: 28, right: 196, bottom: 96 }), (4, 28, 192, 68));
}

#[test]
fn checked_scroll_pos_refuses_overflow() {
    let i = info(0, 100, 10, 40, 77);
    assert_eq!(checked_scroll_pos(i, 3, false), Some(50));
    assert_eq!(checked_scroll_pos(i, 120 << 16, true), Some(-80));
    let top = info(0, 100, 10, i32::MAX, 0);
    assert_eq!(checked_scroll_pos(top, 1, false), None);
    assert_eq!(checked_scroll_pos(top, 0, false), Some(i32::MAX - 1));
    let low = info(0, i32::MIN, 1, 0, 0);
    assert_eq!(checked_scroll_pos(low, 7, false), None);
    let edge = info(0, i32::MIN + 1, 1, 0, 0);
    assert_eq!(checked_scroll_pos(edge, 7, false), Some(i32::MIN + 1));
}

#[test]
fn combo_replacement_keeps_the_selection() {
    assert_eq!(replacement_reselect(Some(2), 2, 4), (Reselect::Keep, Reselect::Select(2)));
    assert_eq!(replacement_reselect(Some(0), 3, 4), (Reselect::Keep, Reselect::Select(0)));
    assert_eq!(replacement_reselect(None, 1, 2), (Reselect::Keep, Reselect::Keep));
    assert_eq!(removal_reselect(true, true, 2, 3), Reselect::Keep);
}

#[test]
fn tab_item_title_reads_back() {
    let mut item = TabViewItem::new();
    assert_eq!(item.text(), "");
    assert_eq!(item.index(), None);
    assert_eq!(item.set_text("First", true), None);
    assert_eq!(item.text(), "First");
    item.set_index(Some(3));
    assert_eq!(item.set_text("Second", true), Some(3));
    assert_eq!(item.text(), "Second");
    assert_eq!(item.set_text("Third", false), None);
    assert_eq!(item.text(), "Third");
    assert_eq!(item.index(), Some(3));
    item.set_index(None);
    assert_eq!(item.set_text("Fourth", true), None);
}

#[test]
fn removed_tab_page_is_gone() {
    let mut t = TabPages::new();
    t.insert(0, 10);
    t.insert(1, 20);
    t.insert(2, 30);
    assert_eq!(t.remove(1, Some(1)), (20, true));
    assert_eq!(t.page_index(20), None);
    assert_eq!(t.page_index(30), Some(1));
    assert_eq!(t.remove(0, Some(1)), (10, false));
    assert_eq!(t.views(), &vec![30]);
}

#[test]
fn drawing_starts_empty_and_shows_what_was_drawn() {
    let mut b: ActionBuffers<u8> = ActionBuffers::new();
    for round in 0..3u8 {
        let mut d = DrawingSession::begin(&mut b);
        d.push(round);
        d.push(round + 10);
        assert!(d.end(&mut b));
        assert_eq!(b.displayed(), &vec![round, round + 10]);
    }
}

#[test]
fn text_box_text_reads_back() {
    assert_eq!(text_box_control_text("a\nb"), "a\r\nb");
    assert_eq!(text_box_control_text("a\0b\n"), "a");
    assert_eq!(text_box_text("a\r\nb\r\n"), "a\nb\n");
    for s in ["", "one", "two\nlines", "\n\n", "x\ry"] {
        assert_eq!(text_box_text(&text_box_control_text(s)), s);
    }
}
