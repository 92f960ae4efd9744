use vstd::prelude::*;
use vstd::string::StringExecFns;

verus! {

/// Addressing scheme of the secret store, fixed for the life of the process.
#[derive(Copy, Clone, Debug, PartialEq, Eq, Structural)]
pub enum Mode {
    /// One global secret, the whole of the file `secret`.
    Mode0,
    /// A 16-bit keyspace: 65536 secrets in the single file `0000`.
    Mode16,
    /// A 32-bit keyspace: 65536 shard files of 65536 secrets each.
    Mode32,
}

/// The mode that a configured value selects. Anything but `MODE16` and
/// `MODE32` selects `Mode0`, the unrecognised values too.
pub open spec fn mode_of_setting(value: Seq<char>) -> Mode {
    if value == "MODE16"@ {
        Mode::Mode16
    } else if value == "MODE32"@ {
        Mode::Mode32
    } else {
        Mode::Mode0
    }
}

impl Mode {
    /// Reads a mode from its configured value.
    pub fn from_setting(value: &str) -> (mode: Mode)
        ensures
            mode == mode_of_setting(value@),
    {
        let given = String::from_str(value);
        if given == String::from_str("MODE16") {
            Mode::Mode16
        } else if given == String::from_str("MODE32") {
            Mode::Mode32
        } else {
            Mode::Mode0
        }
    }
}

} // verus!
