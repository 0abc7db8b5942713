//! Behavioral core of an autonomous line-following robot.
//!
//! The crate verifies the decision logic of the robot: a finite-state
//! controller that sequences hardware self-test, sensor calibration and
//! closed-loop line tracking, preemptible from every state by a low-battery
//! condition; the line-position estimator that turns an 8-sensor light map
//! into a steering position; the differential-drive duty mapping; and the
//! encoder delta tracker that converts a wrapping hardware step counter into
//! a signed rotation delta.
//!
//! Hardware is reached only through capability traits (buttons, battery
//! sensor, light-sensor array, drive actuator, buzzer, board services), so
//! the controller can run against a real board or against the simulated
//! devices in [`sim`].

pub mod battery_sensor_controller;
pub mod engine;
pub mod fsm;
pub mod fsm_states;
pub mod hal_button;
pub mod hal_encoder;
pub mod light_sensor_array_controller;
pub mod line_follower_status;
pub mod logging;
pub mod mightybuga_bsc;
pub mod motor;
pub mod process_calibration;
pub mod sim;
pub mod timer_based_buzzer_interface;
