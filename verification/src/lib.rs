//! A live dashboard of the network peers of one process.
//!
//! The library holds what is shown and decides how: the registry of tracked peers
//! ([`peer`]), the text of addresses and traffic totals ([`address`], [`units`]),
//! the rows of the peer table ([`rows`]), the highlighted row ([`selection`]), the
//! place of header and table on the surface ([`layout`]) and the frame that brings
//! them together ([`frame`]). Drawing a frame on a terminal, looking names up and
//! capturing traffic are left to the caller.

pub mod address;
pub mod frame;
pub mod layout;
pub mod names;
pub mod peer;
pub mod rows;
pub mod selection;
pub mod text;
pub mod units;

pub use address::IpAddress;
pub use frame::{compose_frame, render_frame, Frame};
pub use layout::{split_surface, Area, Regions};
pub use names::name_or_address;
pub use peer::{Peer, PeerRegistry};
pub use rows::{gen_row, gen_rows, DisplayRow};
pub use selection::Selection;
pub use units::gen_bytes_str;
