//! Driver for HD44780-compatible character displays wired in 4-bit bus mode.
//!
//! The driver owns one register-select line, one enable line, four data
//! lines and a countdown timer, all supplied through the capability traits
//! [`OutputLine`] and [`CountdownTimer`]. Every operation is specified
//! against the sequence of levels it drives onto each line and the delays
//! it requests from the timer, so the whole wire protocol — nibble
//! splitting, enable pulsing, datasheet settle times and the local
//! cursor-column bookkeeping — is stated in the contracts and proved.

mod capability;
mod error;
mod lcd1602;
pub mod mock;
pub mod protocol;

pub use lcd1602::BusWidth;
pub use lcd1602::Direction;
pub use lcd1602::LCD1602;

pub use capability::CountdownTimer;
pub use capability::OutputLine;
pub use error::no_pin_fault;
pub use error::Error;
