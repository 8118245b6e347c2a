//! Decision logic of the Capsule desktop shell: modes and their sizes, the
//! capsule's reactions to its views and services, orbit button placement,
//! satellite panel lanes, the idle pill's line, list and grid navigation,
//! query editing and filtering, the settings form, dates and the calendar
//! grid.

pub mod mode;
pub mod orbit;
pub mod panels;
pub mod nav;
pub mod text;
pub mod keys;
pub mod clipboard;
pub mod emoji;
pub mod launcher;
pub mod shelf;
pub mod picker;
pub mod polkit;
pub mod settings;
pub mod calendar;
pub mod dates;
pub mod launch;
pub mod notification;
pub mod sizes;
pub mod container;
pub mod create_theme;
pub mod shell;
pub mod idle;
pub mod players;
pub mod wallpapers;
pub mod radios;
pub mod drag;
