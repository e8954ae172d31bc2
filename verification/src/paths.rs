//! The fixed places, below the user's home directory, of the instance
//! directories and of the launch script.

use vstd::prelude::*;
use vstd::string::StringExecFns;
use crate::text::to_chars;

verus! {

/// Where the launcher keeps its instances, relative to the home directory.
pub open spec fn instances_subdir() -> Seq<char> {
    ".var/app/org.prismlauncher.PrismLauncher/data/PrismLauncher/instances"@
}

/// Where the launch script lies, as a suffix of the home directory.
pub open spec fn launch_script_suffix() -> Seq<char> {
    "/scripts/launch-minecraft.sh"@
}

/// The path `relative` below the directory `base`: the two are joined by
/// one separator, which is left out where `base` is empty or ends in one.
pub open spec fn joined(base: Seq<char>, relative: Seq<char>) -> Seq<char> {
    if base.len() > 0 && base.last() != '/' {
        base + seq!['/'] + relative
    } else {
        base + relative
    }
}

/// The root directory of the instances of the user whose home directory is
/// `home`.
pub fn instances_dir(home: &str) -> (r: String)
    ensures
        r@ == joined(home@, instances_subdir()),
{
    let chars = to_chars(home);
    let mut out = home.to_owned();
    if chars.len() > 0 && chars[chars.len() - 1] != '/' {
        out.append("/");
        proof {
            reveal_strlit("/");
            assert("/"@ =~= seq!['/']);
        }
    }
    out.append(".var/app/org.prismlauncher.PrismLauncher/data/PrismLauncher/instances");
    out
}

/// The launch script of the user whose home directory is `home`.
pub fn launch_script(home: &str) -> (r: String)
    ensures
        r@ == home@ + launch_script_suffix(),
{
    let mut out = home.to_owned();
    out.append("/scripts/launch-minecraft.sh");
    out
}

} // verus!
