# sedna_rs

An embedded Sedna XML database for Rust, with its decisions verified by Verus.

- `src/` is the verified library:
  - `config.rs` renders `sednaconf.xml` for an instance and proves that
    instances on distinct ports get distinct identifier bounds and files;
  - `server.rs` holds the startup of a server as a machine that names the
    next step and takes in its outcome (directories, configuration, the
    `se_gov`/`se_cdb`/`se_sm` programs, the port tries), with laws on its
    order, its bounded port tries, what a ready server has gone through, and
    that it pauses only after an unanswered port try;
  - `protocol.rs` reads the C driver's return codes, builds the errors, and
    assembles result items from the chunks the driver hands out;
  - `binaries.rs` plans how each embedded installation file is unpacked;
  - `text.rs` renders numbers in decimal and decodes bytes leniently;
  - `error.rs` is the error type.
- `app/` is the unverified shell: the C driver's interface, processes,
  files, temporary directories, the embedded installation and the error
  type with its messages. It carries out what the library decides.
- `tests/` exercise the library on concrete values.
