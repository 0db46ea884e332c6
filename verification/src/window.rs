//! Decisions of the Win32 window procedure and of top-level windows: which
//! messages get special handling, the colours of controls, the background
//! brush, the registration of the window class.

use vstd::prelude::*;

verus! {

/// `WM_CREATE`.
pub const WM_CREATE: u32 = 1;
/// `WM_SETTINGCHANGE`.
pub const WM_SETTINGCHANGE: u32 = 26;
/// `WM_CTLCOLORSTATIC`.
pub const WM_CTLCOLORSTATIC: u32 = 312;
/// `WM_CTLCOLORBTN`.
pub const WM_CTLCOLORBTN: u32 = 309;
/// `WM_CTLCOLOREDIT`.
pub const WM_CTLCOLOREDIT: u32 = 307;
/// `WM_CTLCOLORLISTBOX`.
pub const WM_CTLCOLORLISTBOX: u32 = 308;
/// `WM_DPICHANGED`.
pub const WM_DPICHANGED: u32 = 736;
/// `WS_VISIBLE`.
pub const WS_VISIBLE: u32 = 0x1000_0000;
/// `WS_EX_TRANSPARENT`.
pub const WS_EX_TRANSPARENT: u32 = 0x20;

/// The preferred app mode of the system dark-mode switch.
#[derive(Debug, Clone, Copy, PartialEq, Eq, Structural)]
pub enum PreferredAppMode {
    Default,
    AllowDark,
    ForceDark,
    ForceLight,
}

impl PreferredAppMode {
    /// The number the system expects for the mode.
    pub open spec fn spec_value(self) -> u32 {
        match self {
            PreferredAppMode::Default => 0,
            PreferredAppMode::AllowDark => 1,
            PreferredAppMode::ForceDark => 2,
            PreferredAppMode::ForceLight => 3,
        }
    }

    /// The number the system expects for the mode.
    pub fn value(self) -> (v: u32)
        ensures
            v == self.spec_value(),
    {
        match self {
            PreferredAppMode::Default => 0,
            PreferredAppMode::AllowDark => 1,
            PreferredAppMode::ForceDark => 2,
            PreferredAppMode::ForceLight => 3,
        }
    }

    /// The mode of a number, if it names one.
    pub fn from_value(v: u32) -> (m: Option<PreferredAppMode>)
        ensures
            m matches Some(mode) ==> mode.spec_value() == v,
            m is None <==> v > 3,
    {
        if v == 0 {
            Some(PreferredAppMode::Default)
        } else if v == 1 {
            Some(PreferredAppMode::AllowDark)
        } else if v == 2 {
            Some(PreferredAppMode::ForceDark)
        } else if v == 3 {
            Some(PreferredAppMode::ForceLight)
        } else {
            None
        }
    }
}

/// Reading back the number of a mode gives the mode.
pub proof fn lemma_app_mode_value_roundtrip(m: PreferredAppMode, n: PreferredAppMode)
    ensures
        m.spec_value() == n.spec_value() ==> m == n,
        m.spec_value() <= 3,
{
}

/// What the window procedure does before it dispatches a message.
#[derive(Debug, Clone, Copy, PartialEq, Eq, Structural)]
pub enum WindowProcStep {
    /// `WM_CREATE`: apply the dark mode to the window and refresh its background.
    SetupTheme,
    /// `WM_SETTINGCHANGE`: apply the dark mode to the window and its children,
    /// refresh the background and repaint.
    RefreshTheme,
    /// `WM_CTLCOLORSTATIC`: answer with the colours of a static control.
    StaticColor,
    /// `WM_CTLCOLORBTN`: answer with a black brush in dark mode.
    ButtonColor,
    /// `WM_CTLCOLOREDIT` and `WM_CTLCOLORLISTBOX`: answer with the colours
    /// of an edit control in dark mode.
    EditColor,
    /// `WM_DPICHANGED`: move to the suggested rectangle and refresh the fonts.
    DpiChanged,
    /// Any other message.
    Dispatch,
}

/// The step the window procedure takes for a message.
pub open spec fn spec_window_proc_step(msg: u32) -> WindowProcStep {
    if msg == WM_CREATE {
        WindowProcStep::SetupTheme
    } else if msg == WM_SETTINGCHANGE {
        WindowProcStep::RefreshTheme
    } else if msg == WM_CTLCOLORSTATIC {
        WindowProcStep::StaticColor
    } else if msg == WM_CTLCOLORBTN {
        WindowProcStep::ButtonColor
    } else if msg == WM_CTLCOLOREDIT || msg == WM_CTLCOLORLISTBOX {
        WindowProcStep::EditColor
    } else if msg == WM_DPICHANGED {
        WindowProcStep::DpiChanged
    } else {
        WindowProcStep::Dispatch
    }
}

/// The step the window procedure takes for a message.
pub fn window_proc_step(msg: u32) -> (s: WindowProcStep)
    ensures
        s == spec_window_proc_step(msg),
{
    if msg == WM_CREATE {
        WindowProcStep::SetupTheme
    } else if msg == WM_SETTINGCHANGE {
        WindowProcStep::RefreshTheme
    } else if msg == WM_CTLCOLORSTATIC {
        WindowProcStep::StaticColor
    } else if msg == WM_CTLCOLORBTN {
        WindowProcStep::ButtonColor
    } else if msg == WM_CTLCOLOREDIT || msg == WM_CTLCOLORLISTBOX {
        WindowProcStep::EditColor
    } else if msg == WM_DPICHANGED {
        WindowProcStep::DpiChanged
    } else {
        WindowProcStep::Dispatch
    }
}

/// How the window procedure answers after the dispatch.
#[derive(Debug, Clone, Copy, PartialEq, Eq, Structural)]
pub enum WindowProcAnswer {
    /// Some future waited for the message: the procedure answers 0.
    Handled,
    /// No future waited: the default window procedure answers.
    Default,
}

/// The answer of the window procedure after the dispatch: handled when some
/// future waited for the message.
pub fn window_proc_answer(dealt: bool) -> (a: WindowProcAnswer)
    ensures
        dealt ==> a == WindowProcAnswer::Handled,
        !dealt ==> a == WindowProcAnswer::Default,
{
    if dealt {
        WindowProcAnswer::Handled
    } else {
        WindowProcAnswer::Default
    }
}

/// A stock brush.
#[derive(Debug, Clone, Copy, PartialEq, Eq, Structural)]
pub enum StockBrush {
    Null,
    Black,
    White,
}

/// How a static control is painted.
#[derive(Debug, Clone, Copy, PartialEq, Eq, Structural)]
pub struct StaticColors {
    /// The text is drawn white.
    pub white_text: bool,
    /// The text background is black.
    pub black_back: bool,
    /// The brush of the control background.
    pub brush: StockBrush,
}

/// Whether a static control is transparent: it is of the class `Static` and
/// has the `WS_EX_TRANSPARENT` extended style.
pub open spec fn spec_is_transparent_static(class_is_static: bool, ex_style: u32) -> bool {
    class_is_static && ex_style & WS_EX_TRANSPARENT != 0
}

/// The colours of a static control: white text in dark mode, a black text
/// background in dark mode unless the control is transparent, and a null
/// brush for a transparent control, black in dark mode, white otherwise.
pub fn control_color_static(dark: bool, class_is_static: bool, ex_style: u32) -> (c: StaticColors)
    ensures
        c.white_text == dark,
        c.black_back == (dark && !spec_is_transparent_static(class_is_static, ex_style)),
        c.brush == (if spec_is_transparent_static(class_is_static, ex_style) {
            StockBrush::Null
        } else if dark {
            StockBrush::Black
        } else {
            StockBrush::White
        }),
{
    let is_static = class_is_static && (ex_style & WS_EX_TRANSPARENT) != 0;
    let brush = if is_static {
        StockBrush::Null
    } else if dark {
        StockBrush::Black
    } else {
        StockBrush::White
    };
    StaticColors { white_text: dark, black_back: dark && !is_static, brush }
}

/// The background brush of an edit control or a list box.
#[derive(Debug, Clone, Copy, PartialEq, Eq, Structural)]
pub enum EditBrush {
    /// Black, under the mouse.
    Hover,
    /// The dark grey of an edit control at rest.
    Normal,
}

/// The colours of an edit control or a list box: none in light mode (the
/// default colours apply); in dark mode, black when the control is an edit
/// control under the mouse, dark grey otherwise.
pub fn control_color_edit(dark: bool, class_is_edit: bool, under_cursor: bool) -> (b: Option<EditBrush>)
    ensures
        !dark ==> b is None,
        dark ==> b == Some(if class_is_edit && under_cursor { EditBrush::Hover } else { EditBrush::Normal }),
{
    if dark {
        let hover = class_is_edit && under_cursor;
        Some(if hover { EditBrush::Hover } else { EditBrush::Normal })
    } else {
        None
    }
}

/// The background of a window is black when it has a backdrop or when the
/// app is in dark mode, white otherwise.
pub fn background_brush(has_backdrop: bool, dark: bool) -> (b: StockBrush)
    ensures
        b == (if has_backdrop || dark { StockBrush::Black } else { StockBrush::White }),
{
    if has_backdrop || dark {
        StockBrush::Black
    } else {
        StockBrush::White
    }
}

/// The brush a button control gets in dark mode; none in light mode.
pub fn button_color(dark: bool) -> (b: Option<StockBrush>)
    ensures
        b == (if dark { Some(StockBrush::Black) } else { None }),
{
    if dark {
        Some(StockBrush::Black)
    } else {
        None
    }
}

/// The margins the frame is extended by: the whole client area when the
/// backdrop was applied, nothing otherwise.
pub fn backdrop_margin(applied: bool) -> (m: i32)
    ensures
        m == (if applied { -1i32 } else { 0i32 }),
{
    if applied {
        -1
    } else {
        0
    }
}

/// A rectangle given by its edges.
#[derive(Debug, Clone, Copy, PartialEq, Eq, Structural)]
pub struct EdgeRect {
    pub left: i32,
    pub top: i32,
    pub right: i32,
    pub bottom: i32,
}

/// The position and size `(x, y, width, height)` of a window moved to the
/// rectangle suggested by `WM_DPICHANGED`.
pub fn dpi_changed_bounds(r: EdgeRect) -> (b: (i32, i32, i32, i32))
    requires
        i32::MIN <= r.right - r.left <= i32::MAX,
        i32::MIN <= r.bottom - r.top <= i32::MAX,
    ensures
        b == (r.left, r.top, (r.right - r.left) as i32, (r.bottom - r.top) as i32),
{
    (r.left, r.top, r.right - r.left, r.bottom - r.top)
}

/// Whether a window with `style` is visible.
pub fn is_visible_style(style: u32) -> (b: bool)
    ensures
        b == (style & WS_VISIBLE != 0),
{
    style & WS_VISIBLE != 0
}

/// Whether a window must be moved or resized: only when the wanted value
/// differs from the current one.
pub fn needs_update(current: (i32, i32), wanted: (i32, i32)) -> (b: bool)
    ensures
        b == (current != wanted),
{
    current.0 != wanted.0 || current.1 != wanted.1
}

/// Whether a backdrop must be applied: only when it differs from the current one.
pub fn backdrop_changes(current: u32, wanted: u32) -> (b: bool)
    ensures
        b == (current != wanted),
{
    current != wanted
}

/// `WS_CHILDWINDOW`.
pub const WS_CHILDWINDOW: u32 = 0x4000_0000;
/// `WS_OVERLAPPEDWINDOW`.
pub const WS_OVERLAPPEDWINDOW: u32 = 0x00CF_0000;
/// `WS_EX_CONTROLPARENT`.
pub const WS_EX_CONTROLPARENT: u32 = 0x0001_0000;
/// `ERROR_INVALID_HANDLE`.
pub const ERROR_INVALID_HANDLE: u32 = 6;

/// The style and the extended style a window is created with: a child
/// window inside a parent, or an overlapped top-level window; either one
/// lets the keyboard move into its children.
pub fn window_style(has_parent: bool) -> (s: (u32, u32))
    ensures
        s == (if has_parent { WS_CHILDWINDOW } else { WS_OVERLAPPEDWINDOW }, WS_EX_CONTROLPARENT),
{
    (if has_parent { WS_CHILDWINDOW } else { WS_OVERLAPPEDWINDOW }, WS_EX_CONTROLPARENT)
}

/// Whether a failed-looking change of a window's style is no failure: the
/// last error is 0 when the previous style was 0, and for the extended
/// style an invalid handle is let pass too.
pub fn style_error_tolerated(last_error: u32, extended: bool) -> (b: bool)
    ensures
        b == (last_error == 0 || (extended && last_error == ERROR_INVALID_HANDLE)),
{
    last_error == 0 || (extended && last_error == ERROR_INVALID_HANDLE)
}

/// Registers the window class on the first call: returns whether this call
/// must register it, and marks it registered.
pub fn register_once(registered: &mut bool) -> (run: bool)
    ensures
        run == !*old(registered),
        *final(registered),
{
    if *registered {
        false
    } else {
        *registered = true;
        true
    }
}

/// The number of registrations that `calls` successive calls of
/// [`register_once`] perform from the state `registered`: each call registers
/// when the class is not registered yet, and leaves it registered.
pub open spec fn registrations(registered: bool, calls: nat) -> nat
    decreases calls,
{
    if calls == 0 {
        0
    } else {
        (if registered { 0nat } else { 1nat }) + registrations(true, (calls - 1) as nat)
    }
}

/// However many windows are created, the window class is registered once.
pub proof fn lemma_register_once_runs_once(calls: nat)
    requires
        calls > 0,
    ensures
        registrations(false, calls) == 1,
    decreases calls,
{
    lemma_registered_never_again((calls - 1) as nat);
}

/// Once the class is registered, no later call registers it again.
pub proof fn lemma_registered_never_again(calls: nat)
    ensures
        registrations(true, calls) == 0,
    decreases calls,
{
    if calls > 0 {
        lemma_registered_never_again((calls - 1) as nat);
    }
}

/// The numbers the system dark-mode switch expects: 0 for the default mode,
/// 1 to allow dark, 2 to force dark and 3 to force light.
pub proof fn lemma_app_mode_values()
    ensures
        PreferredAppMode::Default.spec_value() == 0,
        PreferredAppMode::AllowDark.spec_value() == 1,
        PreferredAppMode::ForceDark.spec_value() == 2,
        PreferredAppMode::ForceLight.spec_value() == 3,
{
}

/// The messages the window procedure handles itself before the dispatch:
/// creation (1) and a change of settings (26) apply the theme, the colour
/// queries of static controls (312), buttons (309), edit controls (307) and
/// list boxes (308) are answered with colours, and a change of DPI (736)
/// moves the window; every other message is only dispatched.
pub proof fn lemma_window_proc_steps(msg: u32)
    ensures
        spec_window_proc_step(1) == WindowProcStep::SetupTheme,
        spec_window_proc_step(26) == WindowProcStep::RefreshTheme,
        spec_window_proc_step(312) == WindowProcStep::StaticColor,
        spec_window_proc_step(309) == WindowProcStep::ButtonColor,
        spec_window_proc_step(307) == WindowProcStep::EditColor,
        spec_window_proc_step(308) == WindowProcStep::EditColor,
        spec_window_proc_step(736) == WindowProcStep::DpiChanged,
        msg != 1 && msg != 26 && msg != 312 && msg != 309 && msg != 307 && msg != 308 && msg
            != 736 ==> spec_window_proc_step(msg) == WindowProcStep::Dispatch,
{
}

/// A static control is transparent exactly when it is of the class `Static`
/// and has the extended bit 0x20.
pub proof fn lemma_transparent_static(class_is_static: bool, ex_style: u32)
    ensures
        spec_is_transparent_static(class_is_static, ex_style) == (class_is_static && ex_style & 0x20
            == 0x20),
{
    assert(ex_style & 0x20u32 != 0u32 <==> ex_style & 0x20u32 == 0x20u32) by (bit_vector);
}

} // verus!
