//! Adapters between the channel strip's controls and the parameters of particular plugins.
pub mod rea_eq;
pub mod tdr_molotok;
pub mod tdrvos_slick_eq;
