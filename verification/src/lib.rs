//! A small utility library for resolving a delimited text file -- by an
//! explicit path or by an alias defined in a JSON configuration catalog of
//! named formats -- and for processing its lines under the matched format's
//! rules (whitespace stripping and comment exclusion). Every function's
//! behaviour is stated in its contract and machine-checked.

pub mod cmd;
pub mod config;
pub mod json;
pub mod processor;
