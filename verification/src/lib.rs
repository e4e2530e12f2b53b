//! Decision logic of a small ESP32 robot: servo and motor duty cycles,
//! joystick change detection, ultrasonic intrusion hysteresis, the OLED
//! screen policy, the Wi-Fi link supervisor and the HTTP command handlers.
//! Every function here is pure: the firmware around it performs the
//! hardware and network work and hands the results in as plain values.

pub mod joystick;
pub mod led;
pub mod motors;
pub mod mqtt;
pub mod oled;
pub mod server;
pub mod supersonic;
pub mod wifi;
