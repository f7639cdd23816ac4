# esp_playground

Logic of an ESP32 playground, verified with Verus: a number guessing game
served over WebSocket from a Wi-Fi access point, LED blinking, an
ultrasonic distance sensor, a motion sensor, an infrared line checker, an
HD44780 character display found by an I2C scan, and line demos on an
SSD1306 display.

- `src/` holds the verified library: the game (`guess`, `server`,
  `replies`), decimal and ordinal text (`decimal`, `ordinal`), trimming and
  number parsing (`text`), and the decisions of each device driver
  (`blink`, `hc_sr04`, `hc_sr501`, `ic_line_check`, `lcd`, `graphics`).
- `app/` is the firmware around it: pins, buses, Wi-Fi, HTTP and
  WebSocket, timing and floating point; it performs what the library decides.
- `tests/` runs the library on concrete values.
