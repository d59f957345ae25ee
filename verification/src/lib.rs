//! Ride dispatch for a short-distance transport service: the ride lifecycle
//! state machine, the distance rules that gate a booking, and the commands
//! that keep a geospatial pilot index up to date.
//!
//! Real-valued quantities (degrees, miles, kilometres, metres) are held as
//! signed counts of millionths, so that every rule on them is exact integer
//! arithmetic.
//!
//! The library does no input or output. Where an operation needs the ride
//! store or the pilot index, it says what to ask of them and takes the answer
//! as a value: see [`api::Booking`], [`twilio::Sms`] and
//! [`dispatch_redis::RedisDispatchEngine`].

pub mod api;
pub mod dispatch;
pub mod dispatch_redis;
pub mod distance;
pub mod error;
pub mod fixed;
pub mod fsm;
pub mod model;
pub mod repository;
pub mod signature;
pub mod text;
pub mod twilio;
pub mod wire;

pub use dispatch::{DispatchCandidate, DispatchEngineConfig, DispatchEvent};
pub use error::{CoreError, CoreResult};
pub use fsm::{RideEvent, RideStatus, RideStatusMachine};
pub use model::{Ride, RideLocation, RideSummary};
