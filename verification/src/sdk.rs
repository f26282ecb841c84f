//! The foreign process's data as plain values: arrays, strings, the object
//! graph, and the argument record of the notification event.

pub mod array;
pub mod fstring;
pub mod object;
pub mod sfxgame;
