# dia

A sequencer that gives distributed events one global order. Clients
multicast proposals; a single sequencer stamps each with a header (message
id, sequence number, timestamp) and multicasts it back, so every client sees
the same stream in the same order.

Layout:

- `src/` — the verified library (Verus): the header codec (`types`), the
  sequencer's numbering (`sequencer`), the client's in-flight bookkeeping and
  proposal framing (`client`), parsing of the consensus stream (`network`),
  and the protocol laws (`laws`).
- `app/` — the async services around it: UDP multicast transports, the
  client and sequencer tasks, the message store, and the command line.
- `tests/` — tests of the library on concrete values.
