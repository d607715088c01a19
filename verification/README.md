# har_sdv

The HAR-SDV services connect a vehicle's software-defined-vehicle middleware
to HAR, the safety-relevant display application: vehicle data observed on the
data tunnel is sent to HAR, DriverUI requests are passed between the two, and
user preferences are kept per user and forwarded.

`src/` is a library verified with Verus. It holds the logic of the services:

- `user_preferences/`: the user preferences service (users, settings groups,
  registrations, change requests, subscriptions), with its laws in `laws.rs`;
- `har_preferences.rs`: the HAR settings and the service that keeps them;
- `preferences_forwarding.rs`: which changed settings reach HAR, and how;
- `mapper.rs`, `integrations.rs`, `integrations_v1.rs`: topic names and the
  vehicle data fragments HAR receives;
- `har_message.rs`: the messages made of observed vehicle data;
- `vehicle_data/`: topics and wire numbers, the publisher's request
  conversions and routing, and scripted playback;
- `driverui.rs`: the checks and conversions of the DriverUI proxy;
- `service_discovery.rs`, `bundle_state.rs`, `support.rs`: names, addresses,
  start/stop bookkeeping and small shared pieces.

`app/` holds the RPC servers and clients, service bundles, threads and timers
around the library. `tests/` exercises the library.
