//! Declaration and value resolution of command-line options.
//!
//! An option describes itself once (`CmdArg`), can report whether it was
//! given (`CmdArgFlag`), and can resolve its effective value from what the
//! argument parser saw (`CmdArgOption`). The password option resolves an
//! optional literal value, falls back to a prompt when given bare, and rejects
//! an empty password unless the force override is active.

pub mod arg;
pub mod matches;
pub mod password;

pub use arg::{ArgSpec, CmdArg, CmdArgFlag, CmdArgOption, Config, ErrorHints, QuitError};
pub use matches::Matches;
pub use password::{ArgPassword, EMPTY_PASSWORD_MESSAGE};
