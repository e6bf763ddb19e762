//! Choosing the directory that user configuration is written to.
use vstd::prelude::*;

verus! {

/// Picks the last of the candidate directories, which takes precedence over
/// the earlier ones; `fallthrough_dir` when the list is empty.
pub fn user_config_path(sub_configs: &Vec<&String>, fallthrough_dir: &String) -> (r: String)
    ensures
        sub_configs@.len() == 0 ==> r@ == fallthrough_dir@,
        sub_configs@.len() > 0 ==> r@ == sub_configs@.last()@,
{
    let n: usize = sub_configs.len();
    if n == 0 {
        fallthrough_dir.clone()
    } else {
        sub_configs[n - 1].clone()
    }
}

} // verus!
