//! What the settings mean.

use vstd::prelude::*;

use crate::config;

verus! {

/// The configuration lies where it is set to, or else under the home directory, or
/// else in the system's place.
pub proof fn law_the_configuration_has_its_place(
    dir: String,
    home: String,
    any: Option<String>,
)
    ensures
        config::config_dir_of(Some(dir), any) == dir@,
        config::config_dir_of(None, Some(home)) == home@ + "/.config/tenxo"@,
        config::config_dir_of(None, None) == "/etc/tenxo"@,
{
}

/// The environment names the node just where the name is there and not empty.
pub proof fn law_an_empty_name_is_none(name: String)
    ensures
        config::names_node(Some(name)) == (name@.len() != 0),
        !config::names_node(None),
{
}

} // verus!
