//! Core of the language server's procedural-macro expansion: the expander
//! client's bookkeeping, its lifecycle state machine with bounded retries,
//! the single-slot status mailbox, the response drain that feeds the
//! analysis inputs, the debouncer that paces it, the snapshot discipline
//! of the server state, the file overrides that survive a database swap,
//! and the memory sizes of a Sierra program's types.
pub mod id_generator;
pub mod fx_map;
pub mod protocol;
pub mod client;
pub mod controller;
pub mod plugins;
pub mod db;
pub mod idle_job;
pub mod debouncer;
pub mod state;
pub mod swapper;
pub mod type_sizes;
