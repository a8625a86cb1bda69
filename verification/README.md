# iocore

Filesystem paths, metadata, permissions, sizes, errors and directory walks,
with the logic written in Verus and proved against its contracts.

## Layout

- `src/` — the verified library. Every function states what it returns in
  `ensures`, over spec functions on `Seq<char>`, integers and the views of the
  library's types.
  - `path.rs`, `path_utils.rs`, `string_path.rs`: paths as text (components,
    names, extensions, joining, separators, relative paths, `~`).
  - `path_cmp.rs`, `path_sort.rs`: the order of paths and sorting by it;
    `path_list.rs`: the order of a directory listing.
  - `node.rs`, `path_meta.rs`, `path_status.rs`, `path_type.rs`,
    `ls_node_type.rs`, `ls_path_type.rs`: what a path is, from metadata the
    caller read, and the decisions that depend on it.
  - `perms.rs`, `opts.rs`, `size.rs`, `buffer.rs`, `filename.rs`,
    `timed.rs`, `path_timestamps.rs`: permissions, open options, sizes and
    units, the in-memory file buffer, file names, times.
  - `code.rs`, `errors.rs`: error codes and the library's errors with their
    messages.
  - `sys.rs`, `args.rs`, `sanitize.rs`: the output of `id`, `/etc/passwd`
    lines, home directories, numbers, command lines, bytes to text.
  - `walk/`: the decisions of a directory walk and what it records.
- `tests/` — tests of the library on concrete values.
- `app/` — the input and output around the library: metadata, files,
  processes, the environment and walking directories. It hands the library
  plain values and carries out what the library decides.

Calls into `regex`, `trilobyte`, `chrono` and `sanitation` stand in `src/`
behind small trusted wrappers whose contracts say what those crates' sources
do; everything built on them is verified.
