//! Decoders for binary game-asset files: chunk containers, and tables of
//! fixed-size records with a string pool.

pub mod byte_utils;
pub mod common;
pub mod formats;
pub mod view;
