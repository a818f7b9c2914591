# tauri_runtime_cef

Audio taps and the notification hook of a browser runtime on the Chromium Embedded Framework, with
the logic verified in Verus.

* `src/` is the library. Verus proves the contract of every function, but for the three wrappers
  named below, which call code outside.
  * `audio_tap_registry`, `downmix`, `ring_buffer`, `audio_channel`: one tap for each browser, which
    downmixes planar packets to mono, keeps the newest thirty seconds and feeds one subscriber.
    `audio_tap_laws` states what holds across these functions.
  * `notification`, `notification_hook`, `web_origin`, `decimal`: what is read out of a
    `new Notification(title, options)` call, the messages that carry it to the browser process, and
    the properties that put the hook in place.
  * `render_process_handler` and `cef_helper`: the two variants of the hook.
* `app/` is the helper program: script values, messages, locks, logging and the floating-point
  arithmetic of the samples.
* `tests/` runs the library.

What is not proved stands in six places. In `audio_channel`: the declarations of the two halves of a
standard channel, and the wrappers `sync_channel` and `try_send`. In `web_origin`: the wrapper
`parse_url` and `parsed_url`, the name for what the URL parser returns. Each says what it claims of
the code outside.

The sample type and its arithmetic are parameters of the library. The program uses `f32`.

The `dox` feature of the `cef` crate builds it without the framework itself. Take it out to link the
program.
