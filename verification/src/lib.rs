//! Decision logic of a tray-resident desktop shell: where the window drops
//! down from the tray icon, when it is shown or hidden, and the two path
//! lookups offered to the front-end.

pub mod controller;
pub mod paths;
pub mod positioner;
pub mod window;
