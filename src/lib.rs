//! A two-screen login application modelled as a verified state machine:
//! the state, its transition function, the widget tree rendered from it and
//! the style lookup for its buttons and containers.

pub mod state;
pub mod style;
pub mod view;

pub use state::{AppModel, LoginField, Message, MessageModel, Page, RustUI, Theme};
pub use style::{ButtonAppearance, ButtonStyle, ContainerAppearance, ContainerStyle, DropShadow, Shade};
pub use view::{
    edit_message, input_field, log_in_page, page_footer, register_page, submit_btn, Field, Screen,
    Widget,
};
