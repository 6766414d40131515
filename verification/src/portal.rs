//! # The portal's exit conditions
//!
//! While the portal is open it watches three conditions: a cancellation from outside,
//! the hotspot stopping, and its timeout. Each is watched until it fires; once any has
//! fired the web server is told to shut down, once. The portal ends when the web
//! server's future ends. The timeout is counted from the last time a client used the
//! portal: the timer is reset whenever a client connects.

use vstd::prelude::*;

verus! {

/// Which exit conditions the portal still watches, and whether the web server is still
/// to be told to shut down.
#[derive(Debug, PartialEq)]
pub struct PortalExits {
    pub cancel_pending: bool,
    pub hotspot_pending: bool,
    pub timeout_pending: bool,
    pub http_open: bool,
}

impl PortalExits {
    /// A freshly opened portal: everything is watched and the web server runs.
    pub fn new() -> (r: PortalExits)
        ensures
            r.cancel_pending && r.hotspot_pending && r.timeout_pending && r.http_open,
    {
        PortalExits { cancel_pending: true, hotspot_pending: true, timeout_pending: true, http_open: true }
    }

    /// One poll of the portal, given which of the conditions are ready now (a condition
    /// that fired before is not looked at again). Returns whether the web server must be
    /// told to shut down now: when any watched condition fired and it was not told yet.
    pub fn poll(&mut self, cancelled: bool, hotspot_stopped: bool, timed_out: bool) -> (close_http: bool)
        ensures
            final(self).cancel_pending == (old(self).cancel_pending && !cancelled),
            final(self).hotspot_pending == (old(self).hotspot_pending && !hotspot_stopped),
            final(self).timeout_pending == (old(self).timeout_pending && !timed_out),
            close_http == (old(self).http_open && ((old(self).cancel_pending && cancelled) || (
            old(self).hotspot_pending && hotspot_stopped) || (old(self).timeout_pending && timed_out))),
            final(self).http_open == (old(self).http_open && !close_http),
            // The web server is told to shut down at most once.
            final(self).http_open ==> old(self).http_open,
    {
        let mut exit_soon = false;
        if self.cancel_pending && cancelled {
            exit_soon = true;
            self.cancel_pending = false;
        }
        if self.hotspot_pending && hotspot_stopped {
            exit_soon = true;
            self.hotspot_pending = false;
        }
        if self.timeout_pending && timed_out {
            exit_soon = true;
            self.timeout_pending = false;
        }
        let close_http = exit_soon && self.http_open;
        if close_http {
            self.http_open = false;
        }
        close_http
    }
}

/// The portal's timeout: it passes `timeout_ms` milliseconds after the portal opened or
/// a client last used it, times being milliseconds since the portal opened.
#[derive(Debug, PartialEq)]
pub struct PortalTimer {
    pub timeout_ms: u64,
    pub last_activity_ms: u64,
}

impl PortalTimer {
    /// The timer of a portal that just opened.
    pub fn new(timeout_ms: u64) -> (r: PortalTimer)
        ensures
            r.timeout_ms == timeout_ms,
            r.last_activity_ms == 0,
    {
        PortalTimer { timeout_ms, last_activity_ms: 0 }
    }

    /// Looks at the timer at `now_ms`, after a client used the portal or not: a client
    /// resets the timer to `now_ms`. Returns whether the timeout passed.
    pub fn tick(&mut self, now_ms: u64, client_seen: bool) -> (timed_out: bool)
        ensures
            final(self).timeout_ms == old(self).timeout_ms,
            final(self).last_activity_ms == if client_seen { now_ms } else { old(self).last_activity_ms },
            timed_out == (now_ms >= final(self).last_activity_ms + final(self).timeout_ms),
            // A client that just connected keeps the portal open (unless there is no timeout).
            client_seen && old(self).timeout_ms > 0 ==> !timed_out,
    {
        if client_seen {
            self.last_activity_ms = now_ms;
        }
        (now_ms as u128) >= (self.last_activity_ms as u128) + (self.timeout_ms as u128)
    }
}

} // verus!
