pub mod adt;
pub mod chunk;
pub mod dbc;
pub mod laws;
pub mod variant;
pub mod wmo;
