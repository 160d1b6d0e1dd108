# future_stream_any

Type-erased handles to the futures and streams of the component model, verified with Verus.

A component hands out futures and streams whose types a host may not know ahead of time.
`FutureAny` and `StreamAny` are handles to them that keep the type of the payload aside. The type
is checked when a handle is turned into a reader of a known Rust type, and when it is handed to a
component.

- `types`, `tables`, `transmit_type`: interface types, the tables that their indices refer to, and
  when types of two instances are one type.
- `component_type`, `payload`: Rust types that stand for interface types, and what is known of the
  payload of a handle.
- `engine`, `store`, `handle_table`: what numbers the stores, what owns the handles, and the
  handles of a component instance.
- `future_any`, `stream_any`, `reader`: the handles.
- `transmit`, `future_end`, `producers`, `val`: the host's ends, which produce and consume values.
- `count_stream`: a component that writes numbers to a stream.
- `laws`: what holds of all of these together.

`app` holds the guest program around `count_stream`, and the producer whose value a Rust future
makes.
