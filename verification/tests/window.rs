use winio_ui::style::{
    button_style, check_state, is_checked, radio_button_style, combo_box_style, halign, halign_of_text_alignment, icon_style_needed,
    is_indeterminate, is_transparent, list_box_style, scroll_bar_style, slider_style,
    slider_preferred_size, slider_thickness, text_alignment, transparent_ex_style, with_halign, with_indeterminate,
    ButtonIconState, HAlign, TickPosition,
};
use winio_ui::window::{
    background_brush, backdrop_changes, backdrop_margin, button_color, control_color_edit,
    control_color_static, dpi_changed_bounds, is_visible_style, needs_update, register_once,
    style_error_tolerated, window_proc_answer, window_proc_step, window_style, EdgeRect,
    EditBrush, PreferredAppMode, StockBrush, WindowProcAnswer, WindowProcStep,
};

#[test]
fn preferred_app_mode_numbers_round_trip() {
    for m in [
        PreferredAppMode::Default,
        PreferredAppMode::AllowDark,
        PreferredAppMode::ForceDark,
        PreferredAppMode::ForceLight,
    ] {
        assert_eq!(PreferredAppMode::from_value(m.value()), Some(m));
    }
    assert_eq!(PreferredAppMode::AllowDark.value(), 1);
    assert_eq!(PreferredAppMode::from_value(4), None);
}

#[test]
fn window_proc_steps_for_special_messages() {
    assert_eq!(window_proc_step(1), WindowProcStep::SetupTheme);
    assert_eq!(window_proc_step(26), WindowProcStep::RefreshTheme);
    assert_eq!(window_proc_step(312), WindowProcStep::StaticColor);
    assert_eq!(window_proc_step(309), WindowProcStep::ButtonColor);
    assert_eq!(window_proc_step(307), WindowProcStep::EditColor);
    assert_eq!(window_proc_step(308), WindowProcStep::EditColor);
    assert_eq!(window_proc_step(736), WindowProcStep::DpiChanged);
    assert_eq!(window_proc_step(0x111), WindowProcStep::Dispatch);
    assert_eq!(window_proc_answer(true), WindowProcAnswer::Handled);
    assert_eq!(window_proc_answer(false), WindowProcAnswer::Default);
}

#[test]
fn control_colors_follow_dark_mode() {
    let c = control_color_static(true, true, 0x20);
    assert!(c.white_text && !c.black_back);
    assert_eq!(c.brush, StockBrush::Null);
    let c = control_color_static(true, true, 0);
    assert!(c.white_text && c.black_back);
    assert_eq!(c.brush, StockBrush::Black);
    let c = control_color_static(false, false, 0x20);
    assert!(!c.white_text && !c.black_back);
    assert_eq!(c.brush, StockBrush::White);
    assert_eq!(control_color_edit(false, true, true), None);
    assert_eq!(control_color_edit(true, true, true), Some(EditBrush::Hover));
    assert_eq!(control_color_edit(true, false, true), Some(EditBrush::Normal));
    assert_eq!(button_color(true), Some(StockBrush::Black));
    assert_eq!(button_color(false), None);
    assert_eq!(background_brush(true, false), StockBrush::Black);
    assert_eq!(background_brush(false, false), StockBrush::White);
    assert_eq!(backdrop_margin(true), -1);
    assert_eq!(backdrop_margin(false), 0);
}

#[test]
fn window_geometry_decisions() {
    let r = EdgeRect { left: 10, top: 20, right: 110, bottom: 70 };
    assert_eq!(dpi_changed_bounds(r), (10, 20, 100, 50));
    assert!(needs_update((1, 2), (1, 3)));
    assert!(!needs_update((1, 2), (1, 2)));
    assert!(backdrop_changes(0, 2));
    assert!(!backdrop_changes(2, 2));
    assert!(is_visible_style(0x1000_0000 | 5));
    assert!(!is_visible_style(5));
}

#[test]
fn window_creation_styles() {
    assert_eq!(window_style(true), (0x4000_0000, 0x1_0000));
    assert_eq!(window_style(false), (0x00CF_0000, 0x1_0000));
    assert!(style_error_tolerated(0, false));
    assert!(!style_error_tolerated(6, false));
    assert!(style_error_tolerated(6, true));
    assert!(!style_error_tolerated(5, true));
}

#[test]
fn window_class_registers_once() {
    let mut registered = false;
    let runs: usize = (0..5).filter(|_| register_once(&mut registered)).count();
    assert_eq!(runs, 1);
    assert!(registered);
}

#[test]
fn halign_round_trip_and_keeps_other_bits() {
    let style = 0x5000_0080u32;
    assert_eq!(halign(with_halign(style, HAlign::Right)), HAlign::Right);
    assert_eq!(halign(with_halign(style, HAlign::Center)), HAlign::Center);
    assert_eq!(halign(with_halign(style, HAlign::Left)), HAlign::Left);
    assert_eq!(halign(with_halign(style, HAlign::Stretch)), HAlign::Left);
    assert_eq!(with_halign(style | 2, HAlign::Center) & !3, style);
    assert_eq!(halign(with_halign(style | 1, HAlign::Left)), HAlign::Center);
    assert_eq!(halign(3), HAlign::Right);
}

#[test]
fn progress_marquee_bit() {
    assert!(is_indeterminate(with_indeterminate(0x10, true)));
    assert!(!is_indeterminate(with_indeterminate(0x18, false)));
    assert_eq!(with_indeterminate(0x10, true), 0x18);
    assert_eq!(with_indeterminate(0x18, false), 0x10);
}

#[test]
fn control_styles() {
    assert_eq!(combo_box_style(true), 0x0001_0000 | 0x4000_0000 | 0x40 | 0x200 | 2);
    assert_eq!(
        combo_box_style(false),
        0x0001_0000 | 0x4000_0000 | 0x40 | 0x200 | 0x1000_0000 | 3
    );
    let lb = 0x0001_0000 | 0x1000_0000 | 0x4000_0000 | 0x0020_0000 | 0x1 | 0x40 | 0x80 | 0x1000 | 0x100;
    assert_eq!(list_box_style(false), lb);
    assert_eq!(list_box_style(true), lb | 8);
    assert_eq!(button_style(true), 0x0001_0000 | 0x1000_0000 | 0x4000_0000 | 0x40);
    assert_eq!(button_style(false), 0x0001_0000 | 0x1000_0000 | 0x4000_0000);
    assert!(icon_style_needed(true, true));
    assert!(!icon_style_needed(true, false));
    assert_eq!(scroll_bar_style(true), 1 | 0x1000_0000);
    assert_eq!(scroll_bar_style(false), 0x1000_0000);
    assert!(is_transparent(0x20));
    assert_eq!(transparent_ex_style(true), 0x20);
    assert_eq!(transparent_ex_style(false), 0);
}

#[test]
fn slider_styles_and_thickness() {
    assert_eq!(slider_style(true, TickPosition::Both), 0x1000_0000 | 8 | 2);
    assert_eq!(slider_style(false, TickPosition::TopLeft), 0x1000_0000 | 4);
    assert_eq!(slider_style(false, TickPosition::NoTicks), 0x1000_0000);
    assert_eq!(slider_thickness(TickPosition::NoTicks), 20);
    assert_eq!(slider_thickness(TickPosition::BottomRight), 30);
    assert_eq!(slider_thickness(TickPosition::Both), 40);
}

#[test]
fn text_alignment_round_trip() {
    for a in [HAlign::Left, HAlign::Center, HAlign::Right, HAlign::Stretch] {
        assert_eq!(halign_of_text_alignment(text_alignment(a)), a);
    }
    assert_eq!(text_alignment(HAlign::Stretch), 3);
    assert_eq!(halign_of_text_alignment(4), HAlign::Left);
}

#[test]
fn radio_button_check_state() {
    assert_eq!(radio_button_style(), 0x0001_0000 | 0x1000_0000 | 0x4000_0000 | 4);
    assert_eq!(check_state(true), 1);
    assert_eq!(check_state(false), 0);
    assert!(is_checked(check_state(true) as isize));
    assert!(!is_checked(check_state(false) as isize));
    assert!(!is_checked(2));
}

#[test]
fn slider_preferred_size_follows_its_axis() {
    assert_eq!(slider_preferred_size(false, TickPosition::Both), (0, 40));
    assert_eq!(slider_preferred_size(true, TickPosition::TopLeft), (30, 0));
    assert_eq!(slider_preferred_size(true, TickPosition::NoTicks), (20, 0));
}

#[test]
fn button_icon_style_follows_icon_and_text() {
    let mut b = ButtonIconState::new();
    assert!(!b.bs_icon());
    assert_eq!(b.set_icon(true), Some(button_style(true)));
    assert!(b.bs_icon());
    assert_eq!(b.set_icon(true), None);
    assert_eq!(b.set_text(false), Some(button_style(false)));
    assert!(!b.bs_icon());
    assert_eq!(b.set_icon(false), None);
    assert_eq!(b.set_text(true), None);
    assert!(!b.bs_icon());
    assert_eq!(b.set_icon(true), Some(button_style(true)));
    assert_eq!(b.set_icon(false), Some(button_style(false)));
    assert!(!b.bs_icon());
}
