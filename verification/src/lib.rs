pub mod connection;
pub mod midi;
pub mod modes;
pub mod table;
