//! Visual effects drawn together with the map.

pub mod horizon;
