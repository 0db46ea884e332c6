//! Verified core of the winio GUI backends: the decisions that the Win32 and
//! UIKit widgets take around their native calls, stated over plain values.

pub mod filebox;
pub mod msgbox;
pub mod message;
pub mod registry;
pub mod compat;
pub mod window;
pub mod style;
pub mod scroll;
pub mod tab_view;
pub mod keyboard;
pub mod combo;
pub mod canvas;
pub mod cookies;
pub mod text;
pub mod tooltip;
pub mod font;
pub mod link;
pub mod progress;
pub mod media;
pub mod icon;
pub mod event_loop;
pub mod edit;
pub mod uri;
