use vstd::prelude::*;
use vstd::string::*;
use rand::Rng;
use crate::roku::{
    ConnectError, DeviceEndpoint, Roku, RokuApp, apps_view, info_value,
};
use crate::text::{hex_byte, push_hex_byte};

verus! {

/// Whether a device search is in flight.
#[derive(Debug, Clone, Copy, PartialEq, Eq, Structural)]
pub enum SearchStatus {
    Idle,
    Searching,
}

/// The text that the UI shows for a search status.
pub open spec fn status_text(s: SearchStatus) -> Seq<char> {
    match s {
        SearchStatus::Idle => "Idle"@,
        SearchStatus::Searching => "Searching"@,
    }
}

/// The name shown while no device answered the last search.
pub open spec fn not_connected_name() -> Seq<char> {
    "<Not Connected>"@
}

/// How a background search ended.
pub enum SearchOutcome {
    /// No device answered.
    NotFound,
    /// The first device to answer could not be connected.
    ConnectFailed(ConnectError),
    /// The first device to answer was connected.
    Connected(Roku),
}

/// The application ids behind the UI's shortcut buttons.
pub const NETFLIX_APP_ID: usize = 12;
pub const YOUTUBE_APP_ID: usize = 837;
pub const TWITCH_APP_ID: usize = 50539;

/// The first list role of the UI toolkit; the app list's roles follow it:
/// name, app id, colour code.
pub const USER_ROLE: i32 = 256;

/// The endpoint that a search connects to: the first to answer. Arrival
/// order is a matter of network timing, so this is a best-effort choice.
pub fn first_responder(found: Vec<DeviceEndpoint>) -> (r: Option<DeviceEndpoint>)
    ensures
        found@.len() == 0 ==> r is None,
        found@.len() > 0 ==> (r matches Some(e) && e.host@ == found@[0].host@),
{
    let mut found = found;
    if found.len() == 0 {
        None
    } else {
        Some(found.swap_remove(0))
    }
}

/// What the UI shows of the remote, and the device it drives.
pub struct RemoteView {
    pub status: SearchStatus,
    pub name: Seq<char>,
    pub apps: Seq<(usize, Seq<char>)>,
    /// The control host of the connected device.
    pub device: Option<Seq<char>>,
}

/// The value of one role of one row of the app list.
pub enum ItemData {
    Name(String),
    AppId(i32),
    ColorCode(String),
    Nothing,
}

/// `#rrggbb`, in lowercase hexadecimal.
pub open spec fn color_text(r: u8, g: u8, b: u8) -> Seq<char> {
    "#"@ + hex_byte(r) + hex_byte(g) + hex_byte(b)
}

/// The colour code `#rrggbb` of the given channel values.
pub fn color_code(r: u8, g: u8, b: u8) -> (s: String)
    ensures
        s@ == color_text(r, g, b),
{
    let mut s = String::from_str("#");
    push_hex_byte(&mut s, r);
    push_hex_byte(&mut s, g);
    push_hex_byte(&mut s, b);
    s
}

/// Relies on `rand::thread_rng` and `Rng::gen_range`, which draws from
/// `[0, high)` and panics only where `high` is 0.
#[verifier::external_body]
fn random_below(high: u8) -> (r: u8)
    requires
        high > 0,
    ensures
        r < high,
{
    rand::thread_rng().gen_range(0, high)
}

/// A random colour code, each channel below 255.
pub fn random_color_code() -> (s: String)
    ensures
        exists|r: u8, g: u8, b: u8| r < 255 && g < 255 && b < 255 && s@ == color_text(r, g, b),
{
    let r = random_below(255);
    let g = random_below(255);
    let b = random_below(255);
    color_code(r, g, b)
}

/// The state behind the remote's UI: search status, shown name and app list,
/// and the connected device. Only one search runs at a time, and each
/// search's outcome is taken in once.
pub struct RokuRemote {
    roku: Option<Roku>,
    name: String,
    status: SearchStatus,
    apps: Vec<RokuApp>,
}

impl View for RokuRemote {
    type V = RemoteView;

    closed spec fn view(&self) -> RemoteView {
        RemoteView {
            status: self.status,
            name: self.name@,
            apps: apps_view(self.apps@),
            device: match self.roku {
                Some(r) => Some(r.endpoint.host@),
                None => None,
            },
        }
    }
}

fn copy_apps(apps: &Vec<RokuApp>) -> (r: Vec<RokuApp>)
    ensures
        apps_view(r@) == apps_view(apps@),
{
    let mut r: Vec<RokuApp> = Vec::new();
    let mut i: usize = 0;
    while i < apps.len()
        invariant
            i <= apps@.len(),
            apps_view(r@) =~= apps_view(apps@.take(i as int)),
        decreases apps@.len() - i,
    {
        let ghost before = r@;
        let a = apps[i].copy();
        r.push(a);
        assert(apps_view(r@) =~= apps_view(before).push(a@));
        assert(apps@.take(i + 1) =~= apps@.take(i as int).push(apps@[i as int]));
        i += 1;
    }
    assert(apps@.take(apps@.len() as int) =~= apps@);
    r
}

impl RokuRemote {
    /// An idle remote with no device, no name and no apps.
    pub fn new() -> (r: RokuRemote)
        ensures
            r@ == (RemoteView {
                status: SearchStatus::Idle,
                name: Seq::empty(),
                apps: Seq::empty(),
                device: None,
            }),
    {
        let r = RokuRemote { roku: None, name: String::new(), status: SearchStatus::Idle, apps: Vec::new() };
        assert(r@.apps =~= Seq::empty());
        r
    }

    /// Asks for a search. Returns whether one must be started: not while one
    /// is in flight, which leaves everything as it was.
    pub fn find_roku(&mut self) -> (started: bool)
        ensures
            old(self)@.status == SearchStatus::Searching ==> !started && final(self)@ == old(self)@,
            old(self)@.status == SearchStatus::Idle ==> started && final(self)@ == (RemoteView {
                status: SearchStatus::Searching,
                ..old(self)@
            }),
    {
        match self.status {
            SearchStatus::Searching => false,
            SearchStatus::Idle => {
                self.status = SearchStatus::Searching;
                true
            },
        }
    }

    /// Takes in the outcome of the search in flight and returns to idle. A
    /// connected device replaces the previous one, its friendly name and
    /// catalog are shown; otherwise the name shows that none is connected
    /// and the app list is cleared. With no search in flight nothing changes
    /// and `false` is returned.
    pub fn search_done(&mut self, outcome: SearchOutcome) -> (taken: bool)
        ensures
            old(self)@.status == SearchStatus::Idle ==> !taken && final(self)@ == old(self)@,
            old(self)@.status == SearchStatus::Searching ==> taken && final(self)@.status == SearchStatus::Idle,
            old(self)@.status == SearchStatus::Searching ==> match outcome {
                SearchOutcome::Connected(roku) => {
                    &&& final(self)@.name == info_value(roku.device_info@, "friendly-device-name"@)
                    &&& final(self)@.apps == apps_view(roku.app_list@)
                    &&& final(self)@.device == Some(roku.endpoint.host@)
                },
                _ => {
                    &&& final(self)@.name == not_connected_name()
                    &&& final(self)@.apps == Seq::<(usize, Seq<char>)>::empty()
                    &&& final(self)@.device == old(self)@.device
                },
            },
    {
        match self.status {
            SearchStatus::Idle => {
                return false;
            },
            SearchStatus::Searching => {},
        }
        match outcome {
            SearchOutcome::Connected(roku) => {
                self.name = String::from_str(roku.get_friendly_name());
                self.apps = copy_apps(&roku.app_list);
                self.roku = Some(roku);
            },
            _ => {
                self.name = String::from_str("<Not Connected>");
                self.apps = Vec::new();
                assert(apps_view(self.apps@) =~= Seq::empty());
            },
        }
        self.status = SearchStatus::Idle;
        true
    }

    /// The shown device name.
    pub fn name(&self) -> (r: &str)
        ensures
            r@ == self@.name,
    {
        self.name.as_str()
    }

    /// The shown search status.
    pub fn status(&self) -> (r: SearchStatus)
        ensures
            r == self@.status,
    {
        self.status
    }

    /// The shown status text.
    pub fn status_str(&self) -> (r: &'static str)
        ensures
            r@ == status_text(self@.status),
    {
        match self.status {
            SearchStatus::Idle => "Idle",
            SearchStatus::Searching => "Searching",
        }
    }

    /// The shown app list.
    pub fn apps(&self) -> (r: &Vec<RokuApp>)
        ensures
            apps_view(r@) == self@.apps,
    {
        &self.apps
    }

    /// The connected device, if any.
    pub fn roku(&self) -> (r: &Option<Roku>)
        ensures
            match r {
                Some(d) => self@.device == Some(d.endpoint.host@),
                None => self@.device is None,
            },
    {
        &self.roku
    }

    /// The number of rows of the app list.
    pub fn row_count(&self) -> (r: i32)
        ensures
            r == self@.apps.len() as i32,
    {
        self.apps.len() as i32
    }

    /// The value of `role` for the app list's row `row`: the name, the id,
    /// or a random colour code; nothing for another role or row.
    pub fn data(&self, row: i32, role: i32) -> (r: ItemData)
        ensures
            !(0 <= row < self@.apps.len()) ==> r is Nothing,
            0 <= row < self@.apps.len() ==> {
                let app = self@.apps[row as int];
                if role == USER_ROLE {
                    (r matches ItemData::Name(n) && n@ == app.1)
                } else if role == USER_ROLE + 1 {
                    r == ItemData::AppId(app.0 as i32)
                } else if role == USER_ROLE + 2 {
                    (r matches ItemData::ColorCode(c) && exists|x: u8, y: u8, z: u8|
                        x < 255 && y < 255 && z < 255 && c@ == color_text(x, y, z))
                } else {
                    r is Nothing
                }
            },
    {
        if row < 0 || row as usize >= self.apps.len() {
            return ItemData::Nothing;
        }
        let app = &self.apps[row as usize];
        if role == USER_ROLE {
            ItemData::Name(app.name.clone())
        } else if role == USER_ROLE + 1 {
            ItemData::AppId(app.id as i32)
        } else if role == USER_ROLE + 2 {
            ItemData::ColorCode(random_color_code())
        } else {
            ItemData::Nothing
        }
    }
}

impl Default for RokuRemote {
    /// An idle remote with no device, no name and no apps.
    fn default() -> (r: RokuRemote)
        ensures
            r@ == (RemoteView {
                status: SearchStatus::Idle,
                name: Seq::empty(),
                apps: Seq::empty(),
                device: None,
            }),
    {
        RokuRemote::new()
    }
}

} // verus!
