//! Battery monitoring core for the SteelSeries Rival 650 wireless mouse.
//!
//! The crate holds the decisions of a battery monitor and leaves every
//! blocking operation to its caller:
//!
//! * [`descriptor`] names the HID interfaces of the mouse,
//! * [`locator`] picks the mouse out of a snapshot of attached devices,
//! * [`probe`] is the state machine of one battery query,
//! * [`display`] turns a reading into the icon selector and the tooltip text,
//! * [`scheduler`] is the endless poll cycle,
//! * [`icon`] names and decodes the icon resources.
pub mod descriptor;
pub mod locator;
pub mod reading;
pub mod display;
pub mod probe;
pub mod scheduler;
pub mod icon;
