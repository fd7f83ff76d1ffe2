//! Verified core of the Bijou espresso-machine controller: the message
//! console shared by the worker threads and the interface, the saving of the
//! recorded samples as CSV, the machine settings, and the decisions of the
//! interface's controls.

pub mod console;
pub mod controls;
pub mod device;
pub mod saving;
pub mod table;
