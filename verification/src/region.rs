//! Deployment regions: the fixed set of localities a server can run in.

use crate::text::str_eq;
use vstd::prelude::*;
use vstd::string::StringExecFns;

verus! {

/// A fixed enumerated deployment locality, used as an identifier prefix.
#[derive(Clone, Copy, Debug, PartialEq, Eq, Hash, PartialOrd, Ord, Structural)]
pub enum Region {
    EU,
    US,
}

impl Region {
    /// The wire-visible name of the region.
    pub open spec fn spec_name(self) -> Seq<char> {
        match self {
            Region::EU => "EU"@,
            Region::US => "US"@,
        }
    }

    /// Render the region's name.
    pub fn name(&self) -> (s: String)
        ensures
            s@ == self.spec_name(),
    {
        match self {
            Region::EU => String::from_str("EU"),
            Region::US => String::from_str("US"),
        }
    }

    /// Parse a region from its name: `Some` exactly on the two names above.
    pub fn parse(s: &str) -> (r: Option<Region>)
        ensures
            r == (if s@ == Region::EU.spec_name() {
                Some(Region::EU)
            } else if s@ == Region::US.spec_name() {
                Some(Region::US)
            } else {
                None::<Region>
            }),
    {
        if str_eq(s, "EU") {
            Some(Region::EU)
        } else if str_eq(s, "US") {
            Some(Region::US)
        } else {
            None
        }
    }
}

} // verus!
