# lcd_panels

Firmware for an ESP32-P4 board with a MIPI-DSI LCD and LVGL, split in two:

- `src/` is the verified library: the configuration each supported panel
  (EK79007, JD9365) is brought up with and the order of the bring-up steps,
  the memory statistics handed to LVGL, the frame-buffer window of a display
  refresh (through embedded-graphics' `Rectangle`), the transfer-done
  handshake of the flush callback and the main loop's decision after each
  LVGL timer run.
- `app/` is the firmware binary: the ESP-IDF and LVGL calls that act on
  those decisions.
