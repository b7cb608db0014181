//! CodeFlow's code execution core: a multi-language code runner, modelled as a
//! state machine that decides each next step while a thin host performs the
//! actual process spawning and file handling, together with the view state the
//! host's panels display.

pub mod encoding;
pub mod language;
pub mod outcome;
pub mod paths;
pub mod session;
pub mod slot;
pub mod ui;
