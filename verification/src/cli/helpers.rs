use vstd::prelude::*;
use vstd::string::*;
use crate::cli::keys::{rk_view, RemoteKey};
use crate::config::GlobalConfig;
use crate::error::NativeError;
use crate::paths::{join, join_path, parent, parent_path};
use crate::specifiers::{uuid_text, uuid_to_string};

verus! {

/// The account row: the logged-in account and the selected key, or "None" for either.
pub fn account_info_row(global: &GlobalConfig) -> (res: (String, String))
    ensures
        res.0@ == match global.account() {
            Some(a) => uuid_text(a),
            None => "None"@,
        },
        res.1@ == match global.selected_key() {
            Some(k) => k,
            None => "None"@,
        },
{
    let account = match global.get_account_id() {
        Ok(a) => uuid_to_string(a),
        Err(_) => String::from_str("None"),
    };
    let key = match global.selected_user_key_id() {
        Ok(k) => k,
        Err(_) => String::from_str("None"),
    };
    (account, key)
}

/// The folder that receives a Drive pulled from the platform: the Drive's name in the
/// `banyan` folder of the home directory.
pub fn pulled_drive_folder(home: &str, drive_id: &str) -> (res: String)
    ensures
        res@ == join(home@ + "/banyan"@, drive_id@),
{
    let mut base = home.to_owned();
    base.append("/banyan");
    join_path(base.as_str(), drive_id)
}

/// Where a Drive's folder goes when the Drive is renamed: beside the old folder, under the new name.
pub fn rename_target(old_path: &str, new_name: &str) -> (res: String)
    requires
        parent(old_path@) is Some,
    ensures
        res@ == join(parent(old_path@).unwrap(), new_name@),
{
    let dir = parent_path(old_path).unwrap();
    join_path(dir.as_str(), new_name)
}

/// The first platform key named `name`, for a key that is not stored locally.
pub fn remote_key_with_name(keys: &Vec<RemoteKey>, name: &String) -> (res: Result<usize, NativeError>)
    ensures
        match res {
            Ok(i) => i < keys@.len() && keys@[i as int].name@ == name@
                && forall|j: int| 0 <= j < i ==> #[trigger] keys@[j].name@ != name@,
            Err(e) => (e matches NativeError::Custom(m) && m@ == "missing usrkey"@)
                && forall|j: int| 0 <= j < keys@.len() ==> #[trigger] keys@[j].name@ != name@,
        },
{
    let n = keys.len();
    for i in 0..n
        invariant
            n == keys@.len(),
            forall|j: int| 0 <= j < i ==> #[trigger] keys@[j].name@ != name@,
    {
        if keys[i].name == *name {
            return Ok(i);
        }
    }
    Err(NativeError::Custom(String::from_str("missing usrkey")))
}

} // verus!
