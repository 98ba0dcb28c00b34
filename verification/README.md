# wordbomb_external

A helper that plays the Roblox game Word Bomb: it reads the screen, finds a
word that contains the part the game shows, and types it through the
FakerInput virtual keyboard and mouse driver.

- `src/` is the library, verified with Verus:
  - `faker_input/keyboard_report.rs`, `faker_input/mouse_report.rs`: the HID
    keyboard and mouse reports, with their key, modifier and button codes;
  - `faker_input/flags.rs`: the bit reasoning behind the modifier and button bytes;
  - `faker_input/mod.rs`: the connection state of the driver and the packets
    it is sent, and the conversion of a screen point to a relative move;
  - `play.rs`: reading the screen reader's output, choosing a word, the keys
    that type it and the reports of a click;
  - `cv.rs`: the screen regions and the turn banner check;
  - `text.rs`: the string operations of the standard library that the rest uses.
- `app/` is the program around it: the driver's DLL, the screen capture, OpenCV
  and Tesseract, and the main loop.
- `tests/` runs the library on concrete values.
