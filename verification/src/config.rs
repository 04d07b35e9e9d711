//! Where the configuration and the manifest are kept.

use vstd::prelude::*;
use vstd::string::*;

verus! {

/// The directory that holds the configuration file and the manifest: the
/// working directory, written with its trailing separator.
pub fn get_config_directory() -> (directory: String)
    ensures
        directory@ == "./"@,
{
    String::from_str("./")
}

/// Where the file named `name` is kept: in the configuration directory,
/// unless the name is itself a path from the root, which stands as it is.
pub open spec fn config_path(name: Seq<char>) -> Seq<char> {
    if name.len() > 0 && name[0] == '/' {
        name
    } else {
        "./"@ + name
    }
}

/// The path of the file named `config_name`: the configuration directory's
/// text followed by the name, or the name alone where it starts at the root.
pub fn get_config_path(config_name: String) -> (path: String)
    ensures
        path@ == config_path(config_name@),
{
    let name = config_name.as_str();
    if !name.is_empty() && name.get_char(0) == '/' {
        config_name
    } else {
        get_config_directory().concat(name)
    }
}

} // verus!
