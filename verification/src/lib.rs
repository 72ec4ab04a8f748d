//! Table-driven segmentation of classified text units into syllable clusters.
//!
//! A scan walks the category codes of a text with a deterministic automaton,
//! commits contiguous clusters by longest match, and stamps every unit of a
//! cluster with a tag made of a rotating serial number and the cluster kind.
//! Two machines share the engine: one for Indic scripts, one for the scripts
//! of the Universal Shaping Engine.
//!
//! - `syllable`: the tag byte and the serial numbers.
//! - `buffer`: the units of a text, their tags, and the sticky flag.
//! - `automaton`: the actions of a transition, and what a scan needs from a
//!   table.
//! - `engine`: the cursor, the step function and the scan.
//! - `coverage`: the clusters of a scan that completes cover the input.
//! - `flow`, `reach`, `graph`: the check after which a scan cannot fail.
//! - `binary_table`, `flat_table`: the two table layouts and their lookups.
//! - `machine`: a checked table, and the scan with it.
//! - `emitter`: stamping clusters on a buffer.
//! - `indic_actions`, `indic_table`, `indic_machine`: the Indic machine.
//! - `use_actions`, `use_table`, `use_machine`: the machine of the Universal
//!   Shaping Engine, with the filter that decides which units it walks over.
pub mod syllable;
pub mod buffer;
pub mod error;
pub mod automaton;
pub mod engine;
pub mod coverage;
pub mod flow;
pub mod reach;
pub mod graph;
pub mod binary_table;
pub mod flat_table;
pub mod machine;
pub mod emitter;
pub mod arrays;
pub mod indic_actions;
pub mod indic_table;
pub mod indic_machine;
pub mod use_actions;
pub mod use_table;
pub mod use_machine;
