//! The data of the status bar.
use vstd::prelude::*;

verus! {

/// What the popover of the status bar says of a connection. `down` and `up`
/// count bytes since the start; the rates are bytes per second.
#[derive(Debug, Clone)]
pub struct ConnectionSummary {
    pub kind: String,
    pub host: Option<String>,
    pub status: String,
    pub down: u64,
    pub up: u64,
    pub down_rate: u64,
    pub up_rate: u64,
}

impl Default for ConnectionSummary {
    fn default() -> (r: Self)
        ensures
            r.kind@ == Seq::<char>::empty(),
            r.host is None,
            r.status@ == Seq::<char>::empty(),
            r.down == 0,
            r.up == 0,
            r.down_rate == 0,
            r.up_rate == 0,
    {
        ConnectionSummary {
            kind: String::new(),
            host: None,
            status: String::new(),
            down: 0,
            up: 0,
            down_rate: 0,
            up_rate: 0,
        }
    }
}

} // verus!
