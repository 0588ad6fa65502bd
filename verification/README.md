# temp_logger

The verified core of a thermocouple temperature logger for an ESP32-C3 board
with an SSD1306 panel, two push switches and an HTTP uploader.

- `src/` holds the logic, proved with Verus: decoding of the converter's SPI
  frame (`sensor`), the sample record (`templogs`), the panel state and the
  frames it draws (`displayctl`), the JSON upload body and HTTP request
  (`transfer`), the heater PWM decision (`thread`), the temperature profile
  table (`profile`), the control loop's decisions (`logger`) and exact decimal
  text (`text`). Temperatures are kept in hundredths of a degree and voltages
  in millivolts, so every quantity is an integer.
- `app/` is the firmware around it: peripherals, threads, drawing, TCP, WiFi.
- `tests/` runs the library, and checks its integer formatting against the
  floating-point formatting the firmware's values would get.
