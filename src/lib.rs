//! Motion-control core of a small legged robot: inverse kinematics, servo
//! channels with eased duty-cycle motion, a single-slot command mailbox and the
//! decisions of the control loop.
//!
//! All quantities are fixed-point integers: lengths and coordinates in
//! hundredths of a unit, angles in millidegrees, normalized duty values in
//! parts per million.
pub mod control;
pub mod ease;
pub mod ik;
pub mod mailbox;
pub mod servo;
pub mod task;
pub mod web;

pub use control::{Controller, SERVO_COUNT};
pub use ease::{ease_sine, EaseCurve, CURVE_LEN, EASE_STEPS, UNIT};
pub use ik::{IkSolver, Joint, TrigQuery, TrigTerms};
pub use mailbox::Mailbox;
pub use servo::{Servo, ServoConfig};
pub use task::ServoTask;
pub use web::AppProps;
