//! Component states, their event handling, and the layout computations of
//! the widgets.
pub mod accordion;
pub mod breadcrumb;
pub mod select;
pub mod marquee;
pub mod file_explorer;
pub mod step_display;
pub mod input;
pub mod list_picker;
pub mod scrollable_content;
pub mod tab_view;
pub mod toast;
pub mod toast_stack;
pub mod button;
pub mod checkbox;
pub mod hotkey_dialog;
pub mod paragraph_ext;
pub mod progress;

pub use button::{Button, ButtonAction, ButtonState, ButtonStyle, ButtonVariant};
pub use checkbox::{CheckBox, CheckBoxAction, CheckBoxState, CheckBoxStyle};
pub use file_explorer::{EntryType, FileEntry, FileExplorer, FileExplorerState, FileExplorerStyle};
pub use input::{Input, InputAction, InputState, InputStyle};
pub use list_picker::{key_hints_footer, ListPicker, ListPickerState, ListPickerStyle};
pub use marquee::{
    bounce_marquee, continuous_marquee, MarqueeMode, MarqueeState, MarqueeStyle, MarqueeText, ScrollDir,
};
pub use paragraph_ext::ParagraphExt;
pub use progress::ProgressStyle;
pub use step_display::{
    calculate_height as step_display_height, Step, StepDisplay, StepDisplayState, StepDisplayStyle,
    StepStatus, SubStep,
};
pub use toast::{Toast, ToastState, ToastStyle};
