//! Process configuration for the bridge: broker address list, consumer group
//! and the topics it reads from and writes to.

use vstd::prelude::*;

verus! {

/// Scalar configuration the server is started with.  The surrounding process
/// reads these from its command line and hands them over as plain strings.
pub struct Context {
    pub brokers: String,
    pub group: String,
    pub input: String,
    pub output: String,
}

impl Context {
    /// Bundles the configuration values.
    pub fn new(brokers: String, group: String, input: String, output: String) -> (r: Context)
        ensures
            r.brokers@ == brokers@,
            r.group@ == group@,
            r.input@ == input@,
            r.output@ == output@,
    {
        Context { brokers, group, input, output }
    }
}

} // verus!
