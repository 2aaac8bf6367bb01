# watchparty

Verified logic of a watch-party toolkit: a host that maps a port on the home
gateway (NAT-PMP/PCP or UPnP IGD) and runs a TURN server behind it, and an
FFmpeg-based remuxer that cuts a local media file into fragments for playback
in the browser.

- `src/` is the library, verified with Verus:
  - `avio` — how FFmpeg's custom-I/O callbacks decode seeks and report reads,
    and the cursors of the read and write handles;
  - `logger` — the handler traits and the loggers in front of them;
  - `averror` — FFmpeg error codes;
  - `media` — container choice, stream selection and packet routing of the
    remuxing loops;
  - `paths` — output file names next to the input;
  - `portmap`, `mapping` — gateway selection, mapping requests, removing a
    mapping, and the choice between the two gateway protocols;
  - `turn` — the TURN server's configuration;
  - `host` — the steps of a hosting session, from mapping the port to
    removing the mapping again.
- `app/` holds the programs: the FFmpeg calls, the network and file I/O, and
  the async plumbing, each deferring its decisions to the library.
- `tests/` exercises the library on concrete values.
