# iOS agent background activity

While an agent run is under way, iOS is asked to keep the app alive: by a
continued-processing task on iOS 26 or newer where the build uses it, else by a
finite background task. A run for which neither can be had goes on without one.

- `src/` is the library, verified with Verus. It holds every decision and performs
  no native work: each flow is a state machine that hands out the next call and is
  resumed with the reply. The contract of each `resume` is its exact transition.
  The modules whose names end in `_outcome` or `_calls` state what a flow comes to
  and which calls it makes, on a device or with services whose reply to each call is
  fixed while the flow runs; a beginning may be told another version at first.
  `trace` states what holds of a beginning and of the preparation for any sequence
  of replies and any changes to the registry in between.
- `app/` performs the calls: the loops that run the flows, the agent runtime's
  services, and the Objective-C side on iOS.
- `tests/` drives the flows against a made-up device.

The library trusts `String::push` of the standard library, and `Map::new` and
`Map::insert` of `serde_json`, with which the payloads of journal events are made.
