use vstd::prelude::*;

verus! {

/// Workspace used as the bridge when none is given on the command line.
pub const DEFAULT_MIRROR_WS: &'static str = "5";

/// Text of the IPC command that focuses the workspace named `ws`.
pub open spec fn spec_switch_command(ws: Seq<char>) -> Seq<char> {
    "workspace number "@ + ws
}

/// Builds the IPC command that switches the active workspace to `ws`.
pub fn switch_command(ws: &String) -> (r: String)
    ensures
        r@ == spec_switch_command(ws@),
{
    let prefix = String::from_str("workspace number ");
    prefix.concat(ws.as_str())
}

} // verus!
