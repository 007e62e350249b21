# kcsdi_gui

The decision logic of a desktop application for KC901 network analyzers,
written in Verus.

`src/` decides: which commands the device worker takes up and what their
outcome means, how traces share acquisitions, which sweeps and previews reach
which trace, how markers and envelopes follow the measurements, what the
calibration wizard offers, and how settings are stored and restored. Every
function there states what it does and is proved to do it. Public proof
functions named `law_...` state what holds across several of them.

`app/` does: windows, threads, channels, files and floating-point arithmetic.
It hands plain values to the library and carries out the effects that come
back, in order. The instrument driver, the recorder, the chart widgets and the
captions are traits in `app/parts.rs`.

| Module | Subject |
| --- | --- |
| `model`, `messages`, `text` | Values that the parts exchange |
| `acquisition` | What traces ask for, and plans that serve several at once |
| `device_worker`, `calibration_control`, `worker_loop`, `worker_steps` | The worker that owns the connection, and the order of its work |
| `device_lookup`, `connection_editor`, `desktop` | Finding, editing and opening devices |
| `workspace`, `analysis_tools`, `charts`, `trace_panels` | Traces, markers, envelopes and curves |
| `calibration_panel` | The calibration wizard |
| `config`, `state`, `app` | Stored settings, the state of the window, and its frames |

Readings are IEEE 754 bit patterns (`model::Real`). The library compares them;
whatever has to be computed from them comes in as an argument.
