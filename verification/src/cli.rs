//! The command-line surface as plain data: the commands the tool offers,
//! their argument bundles, and the verified validator for a register-size
//! argument.  Parsing the actual command line is terminal glue and stays
//! outside; it hands values over in these types.

use crate::textparse::{parse_u64, spec_parse_u64};
use vstd::prelude::*;
use vstd::string::StringExecFns;

verus! {

/// Arguments of the command that appends a register to an existing
/// configuration: where the configuration lives, the new register's name,
/// and its storage width.
pub struct AddRegisterArgs {
    pub path: String,
    pub name: String,
    pub size: u8,
}

/// Arguments of the command that generates the accessor artifacts.
pub struct GenerateArgs {
    pub path: String,
}

/// Arguments of the command that creates an initial configuration for a
/// new register family.
pub struct BootstrapArgs {
    pub path: String,
    pub name: String,
}

/// The commands the tool offers.
pub enum Commands {
    /// Add a register to an existing configuration.
    AddRegister(AddRegisterArgs),
    /// Generate the accessor artifacts.
    Generate(GenerateArgs),
    /// Create an initial configuration for a new register family.
    Bootstrap(BootstrapArgs),
}

/// The parsed command line: one command.
pub struct Cli {
    pub command: Commands,
}

/// Validate a register-size argument: it must be a decimal number and one
/// of the supported widths; anything else is answered with a message that
/// says which of the two checks failed.
pub fn register_size_supported(size: &str) -> (r: Result<u8, String>)
    ensures
        match spec_parse_u64(size@) {
            Some(n) => if n == 8 || n == 16 || n == 32 || n == 64 {
                r matches Ok(v) && v as u64 == n
            } else {
                (r matches Err(m) && m@
                    == "Unsupported size. Supported register sizes are: 8, 16, 32, 64"@)
            },
            None => (r matches Err(m) && m@ == "`"@ + size@ + "` isn't a number"@),
        },
{
    match parse_u64(size) {
        Some(v) => {
            if v == 8 || v == 16 || v == 32 || v == 64 {
                Ok(v as u8)
            } else {
                Err(String::from_str("Unsupported size. Supported register sizes are: 8, 16, 32, 64"))
            }
        },
        None => {
            let mut m = String::from_str("`");
            m.append(size);
            m.append("` isn't a number");
            Err(m)
        },
    }
}

} // verus!
