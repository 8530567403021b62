//! Building blocks for a privileged helper installer: rendering and judging
//! one external command, and sweeping away what earlier helper versions left
//! behind.

pub mod command;
pub mod legacy;
pub mod sweep;
pub mod text;
