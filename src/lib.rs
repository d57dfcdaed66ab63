//! A driver backend without a GPU: opaque handles, a handle registry,
//! two-phase enumeration, fixed capability data and entry-point resolution.

pub mod status;
pub mod enumerate;
pub mod objects;
pub mod registry;
pub mod fixtures;
pub mod entry_points;
