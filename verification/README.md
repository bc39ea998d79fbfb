# navipod

The core of navipod, a terminal inspector for Kubernetes workloads, pods,
containers, ingresses, certificates, logs and events, written in Verus.

`src/` is the verified library. Each view (`rs_app`, `pod_app`, `container_app`,
`ingress_app`, `cert_app`, `log_app`, `event_app`, `namespace_app`) is a state and a
`handle_event` function from that state and one event to the next step: the view
to show, a view to open after fetching its data, or leaving the view. The
contracts state each step exactly, over the shared table state in `table` and the
YAML viewer in `yaml`. `ui_loop` holds the stack of views that `Enter` goes into
and `Esc` comes back out of, with its laws. Around the views:

- `data`, `domain`, `order`: the rows, the merged and sorted workload list;
- `keys`, `text`, `theme`, `sparkline`, `modern_ui`, `shared_ui`, `clipboard`:
  key maps, text handling and what the screens show, as values;
- `cert_validation`, `time_util`, `tuples`: certificate expiry and time stamps,
  through `chrono`, `x509-parser` and `time`;
- `stream_factory`, `ui_cache`: what the data streams send and what the filter
  cache keeps.

`app/` is the terminal around the library: drawing with `ratatui`, key events
from `crossterm`, the clipboard through `arboard`, `kubectl` for the YAML viewer,
the loop that runs the views, and the drivers of the data streams. `tests/` runs the library on concrete values.
