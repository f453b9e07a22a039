# haridokei

An analog desktop clock. The verified library (`src/`) holds its logic:

- `color`: packing `[r, g, b, a]` bytes into the `0xRRGGBBAA` word the drawing layer reads;
- `hands`: where the second, long and short hands point at a given time, in whole
  turn units (a turn is 43,200,000 units, the milliseconds in twelve hours), and
  the hands' outlines;
- `dial`: the face — disc, hour ticks, center pin, minute dots and numerals;
- `options`: the command line options and the log level they select;
- `log_setting`: the handle through which that level is handed to the `log` crate;
- `pid_file`: where the process-id file goes;
- `settings`: the settings kept between runs;
- `window`: what the window decides on each drawing and on each timer tick.

`app/` is the program around it: reading the wall clock, the `gpui` window and drawing, logging to the
journal, daemonizing, signals, the process-id file itself and the settings file.
