//! Desktop activity tracker core: window-focus and idle/AFK state machines
//! driven by decoded display-server events, with a snapshot interface for a
//! periodic reporting loop.

mod clock;
pub mod current_window;
pub mod dispatch;
pub mod idle;
pub mod report;
