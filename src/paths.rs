//! Where configuration and reference data live on disk.
use vstd::prelude::*;
use crate::config::Modes;

verus! {

/// The directory of the configuration file.
pub fn get_config_dir() -> (r: String)
    ensures
        r@ == "/etc/eymate/"@,
{
    "/etc/eymate/".to_owned()
}

/// The directory of the model and of the per-identity reference data.
pub fn get_data_dir() -> (r: String)
    ensures
        r@ == "/usr/share/eymate/"@,
{
    "/usr/share/eymate/".to_owned()
}

/// The name of the configuration file inside the configuration directory.
pub fn config_file_name() -> (r: &'static str)
    ensures
        r@ == "config.toml"@,
{
    "config.toml"
}

/// The name of the embedding model inside the data directory.
pub fn model_file_name() -> (r: &'static str)
    ensures
        r@ == "vggface2.pt"@,
{
    "vggface2.pt"
}

/// The directory inside the data directory that holds one directory per
/// enrolled identity.
pub fn users_dir_name() -> (r: &'static str)
    ensures
        r@ == "users"@,
{
    "users"
}

/// The name of the reference file of `mode` inside an identity's directory.
pub fn reference_file_name(mode: Modes) -> (r: &'static str)
    ensures
        mode == Modes::Ir ==> r@ == "ir.bin"@,
        mode == Modes::Rgb ==> r@ == "rgb.bin"@,
{
    match mode {
        Modes::Ir => "ir.bin",
        Modes::Rgb => "rgb.bin",
    }
}

} // verus!
