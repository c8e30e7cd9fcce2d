# sandstone

A library for the Minecraft: Java Edition network protocol, verified with Verus.

- `src/` is the verified library. Every type it holds that travels on the wire, and every
  packet it holds, has a byte-level specification (`spec_serialize`, `spec_deserialize`,
  `spec_packet_parse`) and its writer and reader are proved against it; `McRoundTrip` and
  `lemma_packet_round_trip` state that what is written reads back as it was. Packets whose bodies
  need types the library does not hold (text components, UUIDs, slots, particles, angles) are
  not among them.
  - `protocol::serialization`: the serializer and deserializer, primitives, variable-length
    integers, strings, prefixed arrays and optionals.
  - `protocol_types::datatypes`: NBT (tags, lists, compounds) and packed positions.
  - `protocol::game`: chunk data (paletted containers, sections, light), registries and their
    NBT records, player info, inventory components, entities.
  - `protocol::packets`: the packets (bodies, ids, states, directions, reading by state and
    direction), and the parts that packet bodies are made of.
  - `network`: framing decisions of a connection: reading a length prefix, building a frame
    (compressed or not), and recovering a packet from a received frame.
  - `game`, `packets`, `util`: the older chunk word packing, status handling, bit sets.
- `app/` holds the TCP connection (tokio), the error type with `std::error::Error`, and serde
  forms of registry components. It calls the library for every decision about bytes.
- `tests/` exercises the library on concrete values.
