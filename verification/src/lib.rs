//! Gesture logic and glyph catalog of a touch keypad for an array language.
//!
//! The keypad is a grid of cells. A tap on a cell types its default glyph; a
//! press that is held opens a radial menu of the cell's alternates, and the
//! direction of the drag picks one of them. This crate holds the parts of
//! that which can be reasoned about: the table of cells, the state of a
//! gesture, the arithmetic that turns a direction into an alternate, the
//! arbitration between tap and hold, and the style classes of what is shown.
//! Drawing, timers and running the language are left to the caller.

pub mod controller;
pub mod highlighting;
pub mod icon;
pub mod keypad;
pub mod layout;
pub mod prim;
pub mod provider;
pub mod radial;
pub mod scrollback;
pub mod sector;
pub mod style;
pub mod text;

pub use controller::{Controller, ControllerState, Press, RADIAL_DELAY_MS};
pub use highlighting::{
    check_spans, css_class, css_of_prim, highlight_code, html_class_of, html_class_of_prim,
    html_class_of_prim_sub, prim_class, spans_source, CodeSpan, SpanKind, UiuappHistorySpan,
};
pub use icon::{glyph_or_unknown, Icon, IconView, EXPERIMENTAL_ICON, UNKNOWN_GLYPH};
pub use keypad::{
    button_icons, can_type, cell_at, find_prim, first_gap, keypad_has_all_prims, s,
    KEYPAD_COLUMNS, KEYPAD_ROWS,
};
pub use layout::{icon_faces, radial_menu, Face, RadialMenu, RadialSlot};
pub use prim::Prim;
pub use provider::{Listing, NumericSubscript, PrimGroup, PrimInfo, Subscript};
pub use radial::{Gesture, Point, RadialInfo};
pub use scrollback::{
    clip_outputs, clip_text, handle_running_code, listed, show_stack, ImageMedia,
    LastTouchContext, ScrollbackItem, ScrollbackOutput, Settings, StackOrdering, ValueMedia,
    MAX_OUTPUT_CHARS,
};
pub use sector::{sector_index, sector_of};
pub use style::{Band, RadialStyle};
