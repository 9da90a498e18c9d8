//! Verified core of a two-backend package-manager bridge.
//!
//! The library normalizes the divergent command-line conventions and text
//! output of two OS package managers behind one contract: fixed
//! non-interactive argument templates, per-backend parsers for the managers'
//! semi-structured listing output, a best-effort version heuristic, and a
//! two-tier error model that keeps "manager unusable" apart from "operation
//! ran but failed". Process spawning itself is left to the host program,
//! which feeds captured output back into the verified decision functions.

pub mod chocolatey;
pub mod text;
pub mod types;
pub mod version;
pub mod winget;
