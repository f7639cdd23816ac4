//! Verified logic of an ESP32 sensor and display playground: a number
//! guessing game served over WebSocket, decimal and ordinal text, pin
//! sequences for LEDs and ultrasonic/motion sensors, an I2C address scan,
//! and the line patterns drawn on an SSD1306 display.
pub mod blink;
pub mod config;
pub mod decimal;
pub mod graphics;
pub mod hc_sr04;
pub mod hc_sr501;
pub mod ic_line_check;
pub mod lcd;
pub mod text;
pub mod guess;
pub mod ordinal;
pub mod replies;
pub mod server;
