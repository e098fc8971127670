//! Board support for the nRF52840-MDK: the chip's peripherals split between the
//! radio protocol stack and the application, the GPIO pins under the names
//! printed on the board, and the sequence counter that stamps diagnostic
//! records.
pub mod acquire;
pub mod board;
pub mod counter;
pub mod device;
pub mod inventory;
pub mod pins;
