//! The rules behind the window that edits a target.
use vstd::prelude::*;

use crate::linux::target::{TargetRuntime, TargetTransport};
use crate::text::{is_blank, trimmed};

verus! {

/// Numbers the requests for a directory listing, so that the answer to an
/// earlier one is told apart and dropped.
#[derive(Debug)]
pub struct ListingDebounce {
    generation: u64,
}

impl View for ListingDebounce {
    type V = u64;

    closed spec fn view(&self) -> u64 {
        self.generation
    }
}

/// The number of the next request.
pub open spec fn next_generation(n: u64) -> u64 {
    if n == u64::MAX {
        0
    } else {
        (n + 1) as u64
    }
}

impl Default for ListingDebounce {
    fn default() -> (r: Self)
        ensures
            r@ == 0,
    {
        ListingDebounce { generation: 0 }
    }
}

impl ListingDebounce {
    /// Starts a request and returns its token.
    pub fn bump(&mut self) -> (r: u64)
        ensures
            final(self)@ == next_generation(old(self)@),
            r == final(self)@,
    {
        self.generation = self.generation.wrapping_add(1);
        self.generation
    }

    /// Tells whether the token is that of the latest request.
    pub fn is_current(&self, token: u64) -> (r: bool)
        ensures
            r == (token == self@),
    {
        self.generation == token
    }
}

/// The number after `n` further requests.
pub open spec fn generation_after(start: u64, n: nat) -> u64
    decreases n,
{
    if n == 0 {
        start
    } else {
        next_generation(generation_after(start, (n - 1) as nat))
    }
}

/// A later request makes every earlier token stale, unless the numbers have
/// gone once round.
pub proof fn law_later_request_makes_token_stale(start: u64, n: nat)
    requires
        0 < n <= u64::MAX,
    ensures
        generation_after(start, n) != start,
        generation_after(start, n) == (start + n) % 0x1_0000_0000_0000_0000,
    decreases n,
{
    if n > 1 {
        law_later_request_makes_token_stale(start, (n - 1) as nat);
    } else {
        assert(generation_after(start, 0) == start);
    }
}

/// The alias names a host.
pub open spec fn alias_chosen(alias: Option<&str>) -> bool {
    match alias {
        Some(a) => trimmed(a@).len() > 0,
        None => false,
    }
}

/// Tells whether no directory is to be listed yet: over SSH, until a host is
/// chosen.
pub fn should_skip_directory_listing(is_ssh: bool, alias: Option<&str>) -> (r: bool)
    ensures
        r == (is_ssh && !alias_chosen(alias)),
{
    is_ssh && match alias {
        Some(a) => is_blank(a),
        None => true,
    }
}

/// The runtime and transport chosen in the window.
#[derive(Debug)]
pub struct TargetOptionSelection {
    pub runtime: TargetRuntime,
    pub transport: TargetTransport,
}

impl Default for TargetOptionSelection {
    fn default() -> (r: Self)
        ensures
            r.runtime == TargetRuntime::Shell,
            r.transport == TargetTransport::Local,
    {
        TargetOptionSelection { runtime: TargetRuntime::Shell, transport: TargetTransport::Local }
    }
}

impl TargetOptionSelection {
    /// Chooses a transport and leaves the runtime.
    pub fn select_transport(&mut self, transport: TargetTransport)
        ensures
            final(self).transport == transport,
            final(self).runtime == old(self).runtime,
    {
        self.transport = transport;
    }
}

} // verus!
