# libbtrfs

A library for working with the btrfs filesystem, verified with Verus: tree items and tree
searches, subvolume and device bookkeeping, filesystem information, and the btrfs send stream
format.

## Layout

- `src/` is the verified library. It holds the decisions and the parsing, each function with a
  contract. The handler methods of a send stream are written by the library's users: their
  contract is what each implementation states through `StreamHandler::handled`.
  - `bytes.rs`: little-endian integers in byte buffers, uuids.
  - `tree_search/`: search keys and their builder, the walk over the items that a search
    returned, the next-key helpers, and the on-disk tree items read from their bytes.
  - `subvol/`: subvolume information, the searches that find a subvolume by id, the default
    subvolume and a subvolume's path, the volume ioctl arguments, and the walk over subvolumes.
  - `dev/`, `fs/`: device statistics and information, the walk over the devices of a
    filesystem, filesystem and space information, block types and raid profiles.
  - `send_stream/`: the stream and command headers and their checksums, the attributes of each
    command, the handler trait, the paths of a receive, and the send builder.
  - `bindgen_names.rs`: how the generated bindings name and type the items of the btrfs headers.
- `app/` performs the system calls around the library: ioctls, lookups, reads of a stream,
  threads and pipes of a send, and the handler that applies a stream to a directory.
- `tests/` runs the library on concrete values.
