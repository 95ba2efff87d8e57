//! Panel descriptions and display bookkeeping for MIPI-DSI LCD panels
//! driven through ESP-IDF and LVGL.
//!
//! The library holds what the firmware decides: the configuration that each
//! panel is brought up with, the order of the bring-up steps, the memory
//! statistics handed to LVGL, the flush window of a display refresh and the
//! decision the main loop takes after each LVGL timer run. The calls into the
//! hardware stay with the firmware binary.

pub mod panel;
pub mod ek79007;
pub mod jd9365;
pub mod memory;
pub mod display;
