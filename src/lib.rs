//! Control bridge between a host process and a software-defined-radio
//! worker thread: lifecycle of the worker, the ordered command stream that
//! feeds it, and the decisions the worker takes on each command.
pub mod channel;
pub mod control;
pub mod messages;
pub mod worker;
