//! The portal's http service: the routes, the access point list it serves and the
//! connection request a user submits.

use vstd::prelude::*;
use crate::network_interface::{WifiConnection, WifiConnectionEvent, WifiConnectionEventType};
use crate::text::str_eq;

pub mod file_serve;

verus! {

/// A connection request submitted by the user on the portal page.
#[derive(Debug, PartialEq)]
pub struct WifiConnectionRequest {
    /// wpa, wep, open, enterprise
    pub mode: String,
    pub ssid: String,
    pub identity: Option<String>,
    pub passphrase: Option<String>,
    pub hw: Option<String>,
}

/// The mathematical value of an access point description.
pub struct WifiView {
    pub ssid: Seq<char>,
    pub hw: Seq<char>,
    pub security: Seq<char>,
    pub strength: u8,
    pub frequency: u32,
    pub is_own: bool,
}

/// The value of an access point description.
pub open spec fn wifi_view(w: WifiConnection) -> WifiView {
    WifiView {
        ssid: w.ssid@,
        hw: w.hw@,
        security: w.security@,
        strength: w.strength,
        frequency: w.frequency,
        is_own: w.is_own,
    }
}

/// The values of a list of access point descriptions.
pub open spec fn wifi_views(l: Seq<WifiConnection>) -> Seq<WifiView> {
    l.map_values(|w: WifiConnection| wifi_view(w))
}

/// The index of the first access point with the SSID, if any.
pub open spec fn position_of(l: Seq<WifiView>, ssid: Seq<char>) -> Option<int>
    decreases l.len(),
{
    if l.len() == 0 {
        None
    } else if l[0].ssid == ssid {
        Some(0)
    } else {
        match position_of(l.drop_first(), ssid) {
            Some(i) => Some(i + 1),
            None => None,
        }
    }
}

/// The list after an access point event: an added access point replaces the first one
/// with its SSID, or is appended if its SSID is not listed; a removed one is taken out
/// of the list, which stays as it was if its SSID is not listed.
pub open spec fn updated_networks(l: Seq<WifiView>, ev: WifiConnectionEventType, ap: WifiView) -> Seq<WifiView> {
    match position_of(l, ap.ssid) {
        Some(pos) => match ev {
            WifiConnectionEventType::Added => l.update(pos, ap),
            WifiConnectionEventType::Removed => l.remove(pos),
        },
        None => match ev {
            WifiConnectionEventType::Added => l.push(ap),
            WifiConnectionEventType::Removed => l,
        },
    }
}

/// True iff no two access points of the list share an SSID.
pub open spec fn unique_ssids(l: Seq<WifiView>) -> bool {
    forall|i: int, j: int| 0 <= i < l.len() && 0 <= j < l.len() && i != j ==> l[i].ssid != l[j].ssid
}

/// The first position holds the SSID and no earlier one does.
proof fn lemma_position_of(l: Seq<WifiView>, ssid: Seq<char>)
    ensures
        match position_of(l, ssid) {
            Some(p) => 0 <= p < l.len() && l[p].ssid == ssid && forall|j: int| 0 <= j < p ==> l[j].ssid != ssid,
            None => forall|j: int| 0 <= j < l.len() ==> l[j].ssid != ssid,
        },
    decreases l.len(),
{
    if l.len() > 0 && l[0].ssid != ssid {
        lemma_position_of(l.drop_first(), ssid);
        assert forall|j: int| 1 <= j < l.len() implies l[j] == l.drop_first()[j - 1] by {}
    }
}

/// Applying access point events keeps the SSIDs of the list unique.
pub proof fn lemma_update_keeps_ssids_unique(l: Seq<WifiView>, ev: WifiConnectionEventType, ap: WifiView)
    requires
        unique_ssids(l),
    ensures
        unique_ssids(updated_networks(l, ev, ap)),
{
    lemma_position_of(l, ap.ssid);
    let r = updated_networks(l, ev, ap);
    match position_of(l, ap.ssid) {
        Some(pos) => match ev {
            WifiConnectionEventType::Added => {
                assert forall|i: int, j: int| 0 <= i < r.len() && 0 <= j < r.len() && i != j implies r[i].ssid != r[j].ssid by {
                    if i == pos {
                        assert(l[pos].ssid == ap.ssid);
                    } else if j == pos {
                        assert(l[pos].ssid == ap.ssid);
                    }
                }
            },
            WifiConnectionEventType::Removed => {
                assert forall|i: int, j: int| 0 <= i < r.len() && 0 <= j < r.len() && i != j implies r[i].ssid != r[j].ssid by {
                    let ii = if i < pos { i } else { i + 1 };
                    let jj = if j < pos { j } else { j + 1 };
                    assert(r[i] == l[ii]);
                    assert(r[j] == l[jj]);
                }
            },
        },
        None => {},
    }
}

/// After an added access point, the list holds it; after a removed listed one, its
/// SSID is gone from a list of unique SSIDs.
pub proof fn lemma_update_effect(l: Seq<WifiView>, ev: WifiConnectionEventType, ap: WifiView)
    requires
        unique_ssids(l),
    ensures
        ev == WifiConnectionEventType::Added ==> updated_networks(l, ev, ap).contains(ap),
        ev == WifiConnectionEventType::Removed && position_of(l, ap.ssid) is Some ==> forall|i: int|
            0 <= i < updated_networks(l, ev, ap).len() ==> #[trigger] updated_networks(l, ev, ap)[i].ssid != ap.ssid,
{
    lemma_position_of(l, ap.ssid);
    let r = updated_networks(l, ev, ap);
    match position_of(l, ap.ssid) {
        Some(pos) => {
            if ev == WifiConnectionEventType::Added {
                assert(r[pos] == ap);
            } else {
                assert forall|i: int| 0 <= i < r.len() implies #[trigger] r[i].ssid != ap.ssid by {
                    let ii = if i < pos { i } else { i + 1 };
                    assert(r[i] == l[ii]);
                }
            }
        },
        None => {
            if ev == WifiConnectionEventType::Added {
                assert(r[r.len() - 1] == ap);
            }
        },
    }
}

/// The index of the first access point with the SSID.
fn position_by_ssid(connections: &Vec<WifiConnection>, ssid: &str) -> (r: Option<usize>)
    ensures
        match r {
            Some(i) => i < connections@.len() && connections@[i as int].ssid@ == ssid@
                && forall|j: int| 0 <= j < i ==> connections@[j].ssid@ != ssid@,
            None => forall|j: int| 0 <= j < connections@.len() ==> connections@[j].ssid@ != ssid@,
        },
{
    let mut i: usize = 0;
    while i < connections.len()
        invariant
            i <= connections@.len(),
            forall|j: int| 0 <= j < i ==> connections@[j].ssid@ != ssid@,
        decreases connections@.len() - i,
    {
        if str_eq(connections[i].ssid.as_str(), ssid) {
            return Some(i);
        }
        i = i + 1;
    }
    None
}

/// Call this method to update, add, remove a network in the portal's list.
pub fn update_network(connections: &mut Vec<WifiConnection>, event: &WifiConnectionEvent)
    ensures
        wifi_views(final(connections)@) == updated_networks(
            wifi_views(old(connections)@),
            event.event,
            wifi_view(event.access_point),
        ),
{
    let ghost l = wifi_views(connections@);
    let ghost ap = wifi_view(event.access_point);
    proof {
        lemma_position_of(l, ap.ssid);
    }
    let pos = position_by_ssid(connections, event.access_point.ssid.as_str());
    if let Some(i) = pos {
        assert(l[i as int].ssid == ap.ssid);
        assert(position_of(l, ap.ssid) == Some(i as int));
        match event.event {
            WifiConnectionEventType::Added => {
                connections.set(i, event.access_point.duplicate());
                assert(wifi_views(connections@) =~= l.update(i as int, ap));
            },
            WifiConnectionEventType::Removed => {
                connections.remove(i);
                assert(wifi_views(connections@) =~= l.remove(i as int));
            },
        }
    } else {
        assert(position_of(l, ap.ssid) is None);
        match event.event {
            WifiConnectionEventType::Added => {
                connections.push(event.access_point.duplicate());
                assert(wifi_views(connections@) =~= l.push(ap));
            },
            WifiConnectionEventType::Removed => {},
        }
    }
}

/// The http method of a request, as far as the portal distinguishes it.
#[derive(Copy, Clone, Debug, PartialEq, Eq, Structural)]
pub enum HttpMethod {
    Get,
    Post,
    Other,
}

/// The portal's routes.
#[derive(Copy, Clone, Debug, PartialEq, Eq, Structural)]
pub enum Route {
    /// GET /networks: the list of wifi networks as JSON
    Networks,
    /// GET /events: server sent events
    Events,
    /// GET /refresh: requests a wifi scan
    Refresh,
    /// Any other GET: a file of the portal page (or the redirect to it)
    File,
    /// POST /connect: the user's connection request; ends the portal
    Connect,
    /// Anything else
    NotFound,
}

/// The route of a request.
pub open spec fn route_of(method: HttpMethod, path: Seq<char>) -> Route {
    if method == HttpMethod::Get {
        if path == "/networks"@ {
            Route::Networks
        } else if path == "/events"@ {
            Route::Events
        } else if path == "/refresh"@ {
            Route::Refresh
        } else {
            Route::File
        }
    } else if method == HttpMethod::Post && path == "/connect"@ {
        Route::Connect
    } else {
        Route::NotFound
    }
}

/// Routes to one of the dynamic routes "/networks" (list of wifi networks),
/// "/events" (server send events), "/refresh" (requests a wifi scan) and "/connect".
pub fn http_route(method: HttpMethod, path: &str) -> (r: Route)
    ensures
        r == route_of(method, path@),
{
    if method == HttpMethod::Get {
        if str_eq(path, "/networks") {
            Route::Networks
        } else if str_eq(path, "/events") {
            Route::Events
        } else if str_eq(path, "/refresh") {
            Route::Refresh
        } else {
            Route::File
        }
    } else if method == HttpMethod::Post && str_eq(path, "/connect") {
        Route::Connect
    } else {
        Route::NotFound
    }
}

/// The status of a wifi list refresh: 200 if the scan could be requested, 500 otherwise
/// (some network adapters do not allow a scan while a hotspot is running).
pub fn user_requests_wifi_list_refresh(scan_requested: bool) -> (r: u16)
    ensures
        r == (if scan_requested { 200u16 } else { 500u16 }),
{
    if scan_requested {
        200
    } else {
        500
    }
}

} // verus!
