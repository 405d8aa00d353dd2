//! Corridor-gated risk aggregation and duty-cycle control for distributed
//! environmental-mitigation devices, over exact fixed-point arithmetic.
//!
//! Every quantity is an integer count of millionths (`fixed::SCALE` stands
//! for 1.0), so that each formula has one exact value and every contract is
//! stated over mathematical integers.

pub mod fixed;
pub mod types;
pub mod lyapunov;
pub mod gates;
pub mod lca_gate;
pub mod corridor;
pub mod text;
pub mod node_control;
pub mod karma_linker;
pub mod region;
pub mod tray_kernel;
