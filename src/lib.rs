//! Event-driven user interface of an e-paper bedside clock: the date and time
//! model, the menu and clock-setting state machine, button debouncing, and the
//! decisions of the task that hands events to the model and refreshes the panel.
pub mod datetime;
pub mod statemanager;
pub mod ui;
pub mod button;
pub mod dispatch;
pub mod render;
