//! What the program says of itself.

use vstd::prelude::*;
use vstd::string::StringExecFns;

verus! {

/// The version of the program.
pub fn version() -> (text: &'static str)
    ensures
        text@ == "0.1.0"@,
{
    "0.1.0"
}

/// The notice that the program prints of itself: its name and version, its
/// author and its license.
pub open spec fn spec_info() -> Seq<char> {
    "Whisper TUN/TAP Wisp Proxy version "@ + "0.1.0"@
        + "\nCopyright (C) 2024 Endercass <https://github.com/Endercass>\nLicensed under GNU GPL-3.0-or-later\nSource code is available at:\n<https://github.com/Endercass/whisper>"@
}

/// The notice that the program prints of itself.
pub fn info() -> (text: String)
    ensures
        text@ == spec_info(),
{
    "Whisper TUN/TAP Wisp Proxy version ".to_owned().concat(version()).concat(
        "\nCopyright (C) 2024 Endercass <https://github.com/Endercass>\nLicensed under GNU GPL-3.0-or-later\nSource code is available at:\n<https://github.com/Endercass/whisper>",
    )
}

} // verus!
