//! Decoding of the AcuRite 5-in-1 radio protocol from timed pulses, and the
//! measurement engine that turns decoded messages into weather readings.

pub mod acurite5n1;
pub mod bits;
pub mod conversions;
pub mod decoder;
pub mod gui;
pub mod measurement;
pub mod message;
pub mod pulse;
pub mod scheduler;
pub mod station_laws;
pub mod text;
pub mod user_buttons;
pub mod validator;
pub mod weather_station;
