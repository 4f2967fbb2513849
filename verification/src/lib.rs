//! Verified core of a display-topology guard for Windows: the topology
//! model, the protocols spoken between the service and its session agent,
//! and the decision logic of the enforcement loop, the shutdown guard, the
//! hotkeys and the tray.
pub mod text;
pub mod topology;
pub mod hotkey;
pub mod enforcement;
pub mod shutdown;
pub mod display;
pub mod session;
pub mod logger;
pub mod tray;
pub mod control;
