//! Interactive terminal UI components: focus management, click regions,
//! component state machines and layout computations.

pub mod geometry;

pub use geometry::Rect;
pub mod style;
pub use style::{Alignment, Color, Modifier, Style};
pub mod event;
pub mod text;
pub mod focus;
pub use focus::{FocusId, FocusManager, Focusable};
pub mod click;
pub use click::{ClickRegion, ClickRegionRegistry, Clickable};
pub mod container;
pub use container::{Container, ContainerAction, EventResult, PopupContainer};
pub mod display;
pub use display::{clean_for_display, format_size, pad_to_width, truncate_to_width};
pub mod mouse_capture;
pub use mouse_capture::{
    disable_mouse_capture, enable_mouse_capture, set_mouse_capture, toggle_mouse_capture,
    MouseCaptureState,
};
pub mod strset;
pub mod components;
pub mod theme;
