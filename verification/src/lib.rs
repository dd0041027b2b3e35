//! A verified core for a price-ticker appliance: a slow, occasionally
//! failing feed is polled in the background while a two-line character
//! display rotates through the fetched quotes.
//!
//! - [`lcd`] holds the display driver: the HD44780 4-bit protocol as a
//!   verified emitter of wire-level operations.
//! - [`store`] holds the shared quote store the fetch and render tasks
//!   communicate through.
//! - [`render`] decides what each tick draws and how the rotation index
//!   advances.
//! - [`price`] parses and formats the textual prices.
//! - [`api`] holds the feed client's decision logic.

pub mod api;
pub mod lcd;
pub mod price;
pub mod render;
pub mod store;
