# razer-poll

Sets and reads the polling rate and the DPI of two mice on Linux, without a
daemon:

- Razer DeathAdder V2 (`1532:0084`)
- Razer DeathAdder V3 Pro wireless (`1532:00c3`)

The library under `src/` is verified with Verus; the tool under `app/` only
parses arguments, talks to the HID layer and prints.

| Module     | Holds                                                             |
|------------|-------------------------------------------------------------------|
| `text`     | numbers as text, and the reading of hexadecimal product IDs       |
| `error`    | the errors and their messages                                     |
| `profile`  | the supported mice, their rate codes and their limits             |
| `report`   | the 90-byte feature reports and the decoding of replies           |
| `exchange` | framing, the checking of replies, and when a command is retried   |
| `devices`  | attached interfaces: detection, matching, listing                 |
| `session`  | a whole run: every target accepts the request, or none is changed |

One thing is trusted: that the `Debug` formatting of a product name, in
`devices`, depends on the name alone.

Rates that both models accept are 125, 500 and 1000 Hz. DPI go from 100 to 20000
on the DeathAdder V2 and from 100 to 35000 on the DeathAdder V3 Pro; with both
connected, the shared maximum is 20000.
