//! When the guest programs of a dependent project are rebuilt.
use vstd::prelude::*;

verus! {

/// The characters of the target name under which a guest itself is built.
pub open spec fn guest_target() -> Seq<char> {
    "zkvm"@
}

/// Whether a build for the target `target_os` builds the guest programs
/// anew. It does not in continuous integration, where the committed
/// artifacts are used, nor when the build is the guest's own.
pub fn rebuilds_guests(target_os: &str, in_ci: bool) -> (rebuild: bool)
    ensures
        rebuild == (!in_ci && target_os@ != guest_target()),
{
    if in_ci {
        return false;
    }
    let target = target_os.to_owned();
    let guest = "zkvm".to_owned();
    !(target == guest)
}

} // verus!
