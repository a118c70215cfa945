//! AVTP Control Format: the TSCF and NTSCF containers and the ACF messages
//! they carry.
pub mod abb;
pub mod can;
pub mod can_brief;
pub mod can_v2;
pub mod can_xl;
pub mod custom;
pub mod flexray;
pub mod gbb;
pub mod gisf;
pub mod gpc;
pub mod lin;
pub mod most;
pub mod ntscf;
pub mod sensor;
pub mod sensor_brief;
pub mod tscf;
