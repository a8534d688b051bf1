use vstd::prelude::*;
use vstd::string::*;

verus! {

/// Configuration for the readline prompt.
pub struct RlwrapConfig {
    /// The prefix of the prompt, e.g. `"cool app> "`.
    pub prefix: String,
    /// On Ctrl+C the prompt raises an interrupt signal against the process.
    /// If this is enabled it also stops the prompt first; set it to false to
    /// handle interrupt signals yourself.
    pub stop_on_ctrl_c: bool,
}

impl Default for RlwrapConfig {
    fn default() -> (r: Self)
        ensures
            r.prefix@ == seq!['>', ' '],
            r.stop_on_ctrl_c,
    {
        proof {
            reveal_strlit("> ");
        }
        RlwrapConfig { prefix: String::from_str("> "), stop_on_ctrl_c: true }
    }
}

} // verus!
