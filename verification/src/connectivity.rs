//! The internet page: the reachability probe, what each probe result does
//! to the page, and which network settings tool opens.
use vstd::prelude::*;
use crate::text::contains;
use crate::text::contains_text;
use crate::text::texts;

verus! {

/// The host the probe pings.
pub const PROBE_HOST: &'static str = "ppa.pika-os.com";

/// What the page says about the connection.
#[derive(Clone, Copy, Debug, PartialEq, Eq, Structural)]
pub enum InternetStatus {
    /// No probe has answered yet.
    Checking,
    Connected,
    Offline,
}

/// The state of the internet page.
pub struct InternetPage {
    pub status: InternetStatus,
    /// The "Skip" button (offered only while offline).
    pub skip_enabled: bool,
    /// The "Next" button (offered only while connected).
    pub next_enabled: bool,
    /// The flag the later pages read to offer their network actions.
    pub connected: bool,
}

impl InternetPage {
    /// The buttons and the flag follow the status: "Next" and the flag
    /// exactly when connected, "Skip" exactly when offline.
    pub open spec fn wf(&self) -> bool {
        &&& self.connected == (self.status == InternetStatus::Connected)
        &&& self.next_enabled == (self.status == InternetStatus::Connected)
        &&& self.skip_enabled == (self.status == InternetStatus::Offline)
    }

    /// The page before any probe has answered: both buttons off.
    pub fn new() -> (r: InternetPage)
        ensures
            r.wf(),
            r.status == InternetStatus::Checking,
    {
        InternetPage {
            status: InternetStatus::Checking,
            skip_enabled: false,
            next_enabled: false,
            connected: false,
        }
    }

    /// Records the result of one probe.
    pub fn record_probe(&mut self, reachable: bool)
        ensures
            final(self).wf(),
            final(self).status == (if reachable {
                InternetStatus::Connected
            } else {
                InternetStatus::Offline
            }),
    {
        if reachable {
            self.skip_enabled = false;
            self.next_enabled = true;
            self.status = InternetStatus::Connected;
            self.connected = true;
        } else {
            self.next_enabled = false;
            self.skip_enabled = true;
            self.status = InternetStatus::Offline;
            self.connected = false;
        }
    }
}

/// After any probe exactly one of "Skip" and "Next" is offered, and the
/// shared flag says whether "Next" is.
pub proof fn probe_offers_one_way_on(page: InternetPage)
    requires
        page.wf(),
        page.status != InternetStatus::Checking,
    ensures
        page.skip_enabled != page.next_enabled,
        page.connected == page.next_enabled,
{
}

/// The command line of the reachability probe: one ping of the package host.
pub fn probe_command() -> (r: Vec<String>)
    ensures
        texts(r@) == seq!["ping"@, PROBE_HOST@, "-c 1"@],
{
    let mut r: Vec<String> = Vec::new();
    r.push(String::from_str("ping"));
    r.push(String::from_str(PROBE_HOST));
    r.push(String::from_str("-c 1"));
    assert(texts(r@) =~= seq!["ping"@, PROBE_HOST@, "-c 1"@]);
    r
}

/// Whether the session is one whose own settings panel handles networks.
pub open spec fn is_gnome_like(desktop: Seq<char>) -> bool {
    contains_text(desktop, "gnome"@) || contains_text(desktop, "ubuntu"@)
}

/// A session whose name holds "gnome" or "ubuntu" anywhere gets GNOME's
/// settings panel, every other session the NetworkManager editor.
pub proof fn gnome_sessions_get_control_center(desktop: Seq<char>)
    ensures
        is_gnome_like(desktop) <==> (contains_text(desktop, "gnome"@) || contains_text(desktop, "ubuntu"@)),
{
}

/// The command that opens the network settings for the session named
/// `desktop` (the value of `XDG_SESSION_DESKTOP`): GNOME's control
/// center in GNOME and Ubuntu sessions, the NetworkManager editor
/// elsewhere.
pub fn network_settings_command(desktop: &str) -> (r: Vec<String>)
    ensures
        is_gnome_like(desktop@) ==> texts(r@) == seq!["gnome-control-center"@, "network"@],
        !is_gnome_like(desktop@) ==> texts(r@) == seq!["nm-connection-editor"@],
        contains_text(desktop@, "gnome"@) || contains_text(desktop@, "ubuntu"@) ==> texts(r@) == seq![
            "gnome-control-center"@,
            "network"@,
        ],
        !contains_text(desktop@, "gnome"@) && !contains_text(desktop@, "ubuntu"@) ==> texts(r@)
            == seq!["nm-connection-editor"@],
{
    let mut r: Vec<String> = Vec::new();
    if contains(desktop, "gnome") || contains(desktop, "ubuntu") {
        r.push(String::from_str("gnome-control-center"));
        r.push(String::from_str("network"));
        assert(texts(r@) =~= seq!["gnome-control-center"@, "network"@]);
    } else {
        r.push(String::from_str("nm-connection-editor"));
        assert(texts(r@) =~= seq!["nm-connection-editor"@]);
    }
    r
}

} // verus!
