# ebpf_examples

Small eBPF demo programs (socket filter, XDP, cgroup skb, sock_ops, sk_skb,
sk_msg, sk_lookup, kprobe, task iterator) with their decision logic verified
in Verus.

- `src/` — the verified library:
  - `lifecycle` — the open / load / store / attach sequence every program
    drives, as a state machine with its laws (termination, abort on a failed
    required step, attachments only on a loaded skeleton) and the shared slot
    that kept skeletons go to;
  - `iter` — the sessions of `load`, `attach` and `run` for the task-iterator
    program, and the law that successive runs leave only the last skeleton in
    the slot, attached;
  - `bytes` — integers as byte strings in a given byte order (encoding and
    decoding), with round-trip and injectivity laws;
  - `sockmap` — the key/value bytes written into the port and socket maps;
  - `connection` — what the echo, proxy and monitor servers do with each read;
  - `irq_latency` — decoding of the kprobe event record and the figures
    reported for each event;
  - `socket_filter` — the `SO_ATTACH_BPF` option value and its status.
- `app/` — the programs themselves: libbpf calls, sockets, threads, printing.
- `tests/` — tests of the library on concrete values.
