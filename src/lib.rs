//! Line synchronisation for a system-information banner: an ordered,
//! platform-filtered registry of fact rows is laid out beside a block of
//! ASCII art so that the fact column sits roughly centred against it.

pub mod align;
pub mod art;
pub mod registry;
pub mod render;
