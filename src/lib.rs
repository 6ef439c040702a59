//! Drivers for a UART-controlled LoRa radio module (E32) and an I2C ambient
//! light sensor (BH1750), written against small port traits so that every
//! decision the drivers take is stated and proved.
pub mod bh1750;
pub mod e32;
