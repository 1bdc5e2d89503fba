# NetSentry

A network traffic analysis toolkit: it lists capture interfaces, captures live
packets, reads saved captures, decodes Ethernet / Linux cooked capture, IPv4,
IPv6, ARP, TCP, UDP and ICMP headers, and groups packets into conversations.

The library in `src/` is written in Verus. Every function there carries a
contract, and Verus proves the code against it: the decoder never reads out of
bounds and never panics, the flow table keeps its keys unique and ordered and
never grows past its limit, every piece of terminal output is stated exactly as
a specification over the data it renders.

| Path | What it holds |
| ---- | ------------- |
| `src/decode/` | The bounds-checked byte reader and the header decoders. |
| `src/capture/` | Capture settings, timestamps, counters, the packet pump's decisions, interface selection, and the readings of driver and filesystem failures. |
| `src/flow/` | Flow keys, per-flow counters, the flow table, and the laws about them (`order.rs`, `accounting.rs`). |
| `src/render/` | Pure text rendering of interfaces, packets, summaries and flow tables. |
| `src/error.rs` | The failure vocabulary, its messages and hints. |
| `src/text.rs` | Small verified string builders. |
| `app/` | The command line program: argument parsing, the capture driver (`pcap`), the filesystem, Ctrl+C. |
| `tests/` | Tests of the library on concrete values. |

The laws the library states and proves include: both directions of a
conversation share one flow key; IPv4 and IPv6 endpoints never share a key;
counting packets into a flow, or recording them into the flow table, gives the
same result in either order; every packet offered to the flow table is counted
exactly once; a flow's first- and last-seen stamps bound every packet's stamp;
decoded layers nest and the attacker-controlled header chains are bounded;
numbered protocol types round-trip through their numbers; the default capture
settings pass their own validation.
