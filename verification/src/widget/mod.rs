//! Built-in widgets: each one a plain value with its own state machine.
pub mod toast;
pub mod input;
pub mod select;
pub mod dropdown_menu;
pub mod radio_group;
pub mod button;
pub mod checkbox;
pub mod switch;
pub mod badge;
pub mod divider;
pub mod stack;
pub mod image;
pub mod accordion;
pub mod tabs;
pub mod sidebar;
pub mod tooltip;
pub mod dialog;
pub mod popover;
pub mod tab_view;
pub mod code_block;
pub mod icon;
pub mod svg;
pub mod scroll_area;
pub mod slider;
