use vstd::prelude::*;
use vstd::string::*;
use crate::paths::{join, join_path};

verus! {

/// The directory that holds the client's configuration, under the user's home.
pub open spec fn config_home(home: Seq<char>) -> Seq<char> {
    home + "/.config/banyan"@
}

/// The directory that holds the client's data, under the user's home.
pub open spec fn data_home(home: Seq<char>) -> Seq<char> {
    home + "/.local/share/banyan"@
}

/// The configuration directory for the home directory `home`.
pub fn xdg_config_home(home: &str) -> (res: String)
    ensures
        res@ == config_home(home@),
{
    let mut res = home.to_owned();
    res.append("/.config/banyan");
    res
}

/// The data directory for the home directory `home`.
pub fn xdg_data_home(home: &str) -> (res: String)
    ensures
        res@ == data_home(home@),
{
    let mut res = home.to_owned();
    res.append("/.local/share/banyan");
    res
}

/// The path of the configuration file: `config.json` in the configuration directory.
pub fn config_path(home: &str) -> (res: String)
    ensures
        res@ == join(config_home(home@), "config.json"@),
        res@ == home@ + "/.config/banyan/config.json"@,
{
    let dir = xdg_config_home(home);
    let res = join_path(dir.as_str(), "config.json");
    proof {
        reveal_strlit("/.config/banyan");
        reveal_strlit("config.json");
        reveal_strlit("/.config/banyan/config.json");
        assert(res@ =~= home@ + "/.config/banyan/config.json"@);
    }
    res
}

/// The path of the primary user key: `keys/primary.pem` in the data directory.
pub fn default_user_key_path(home: &str) -> (res: String)
    ensures
        res@ == join(join(data_home(home@), "keys"@), "primary.pem"@),
        res@ == home@ + "/.local/share/banyan/keys/primary.pem"@,
{
    let dir = xdg_data_home(home);
    let keys = join_path(dir.as_str(), "keys");
    let res = join_path(keys.as_str(), "primary.pem");
    proof {
        reveal_strlit("/.local/share/banyan");
        reveal_strlit("keys");
        reveal_strlit("primary.pem");
        reveal_strlit("/.local/share/banyan/keys/primary.pem");
        assert(keys@ =~= home@ + "/.local/share/banyan/keys"@) by {
            reveal_strlit("/.local/share/banyan/keys");
        }
        reveal_strlit("/.local/share/banyan/keys");
        assert(res@ =~= home@ + "/.local/share/banyan/keys/primary.pem"@);
    }
    res
}

} // verus!
