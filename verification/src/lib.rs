//! Alarm-clock core: scheduling of machine wake events through a privileged
//! command-line power-management tool, and control state for a looping
//! alarm-sound player.

pub mod alarm;
pub mod audio;
pub mod pmset;
