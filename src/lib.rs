//! Driver for the ADS1119, a four-channel 16-bit delta-sigma ADC on an I2C bus.
//!
//! The register layer issues one bus transaction per operation. The one-shot
//! acquisition is a step function: each step makes at most one transaction,
//! and the caller supplies the clock readings and the pauses between polls.
pub mod flags;
pub mod bus;
pub mod device;
pub mod oneshot;
pub mod laws;

pub use flags::{CmdFlags, InputSelection, RegSelectFlags, STATUS_CONV_RDY, conversion_ready};
pub use device::{Ads1119, Ads1119Err, sample_from_be_bytes};
pub use oneshot::{OneShot, Step, READ_INPUT_SLEEP_MS, READ_INPUT_TIMEOUT_MS};
