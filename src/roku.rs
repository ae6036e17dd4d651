use vstd::prelude::*;
use vstd::string::*;
use crate::key::{RokuKey, key_name};
use crate::text::{decimal, decimal_string, parse_usize, str_eq, usize_of_text};
use crate::xml::{
    XmlNodeView, attribute, attribute_of, nodes_view, pairs_view, read_root_children,
    xml_root_children,
};

verus! {

// ---------------------------------------------------------------------------
// Device metadata
// ---------------------------------------------------------------------------

/// The text of a node, or the empty text where it has none.
pub open spec fn text_or_empty(t: Option<Seq<char>>) -> Seq<char> {
    match t {
        Some(s) => s,
        None => Seq::empty(),
    }
}

/// The mapping that key/value pairs give when entered in order, a later pair
/// replacing an earlier one with the same key.
pub open spec fn entries_map(e: Seq<(Seq<char>, Seq<char>)>) -> Map<Seq<char>, Seq<char>>
    decreases e.len(),
{
    if e.len() == 0 {
        Map::empty()
    } else {
        entries_map(e.drop_last()).insert(e.last().0, e.last().1)
    }
}

/// The metadata that the children of a device-info document give: each child
/// element's tag names its text (empty where it has none); a later element
/// replaces an earlier one with the same tag.
pub open spec fn info_of_nodes(nodes: Seq<XmlNodeView>) -> Map<Seq<char>, Seq<char>>
    decreases nodes.len(),
{
    if nodes.len() == 0 {
        Map::empty()
    } else {
        let m = info_of_nodes(nodes.drop_last());
        let n = nodes.last();
        if n.element {
            m.insert(n.tag, text_or_empty(n.text))
        } else {
            m
        }
    }
}

/// The metadata of the device-info document `xml`; `None` where it is not
/// well-formed.
pub open spec fn device_info_of(xml: Seq<char>) -> Option<Map<Seq<char>, Seq<char>>> {
    match xml_root_children(xml) {
        Some(nodes) => Some(info_of_nodes(nodes)),
        None => None,
    }
}

/// The value of `key` in `m`; the empty text where `m` has none.
pub open spec fn info_value(m: Map<Seq<char>, Seq<char>>, key: Seq<char>) -> Seq<char> {
    if m.contains_key(key) {
        m[key]
    } else {
        Seq::empty()
    }
}

/// A device's metadata: key to value.
pub struct DeviceInfo {
    entries: Vec<(String, String)>,
}

impl View for DeviceInfo {
    type V = Map<Seq<char>, Seq<char>>;

    closed spec fn view(&self) -> Map<Seq<char>, Seq<char>> {
        entries_map(pairs_view(self.entries@))
    }
}

/// Entries at or after `i` that do not carry `k` leave its lookup as the
/// entries before `i` give it.
proof fn lemma_entries_tail(s: Seq<(Seq<char>, Seq<char>)>, i: int, k: Seq<char>)
    requires
        0 <= i <= s.len(),
        forall|j: int| i <= j < s.len() ==> (#[trigger] s[j]).0 != k,
    ensures
        entries_map(s).contains_key(k) == entries_map(s.take(i)).contains_key(k),
        entries_map(s).contains_key(k) ==> entries_map(s)[k] == entries_map(s.take(i))[k],
    decreases s.len(),
{
    if i == s.len() {
        assert(s.take(i) =~= s);
    } else {
        lemma_entries_tail(s.drop_last(), i, k);
        assert(s.drop_last().take(i) =~= s.take(i));
    }
}

impl DeviceInfo {
    /// Metadata with no keys.
    pub fn new() -> (r: DeviceInfo)
        ensures
            r@ == Map::<Seq<char>, Seq<char>>::empty(),
    {
        DeviceInfo { entries: Vec::new() }
    }

    /// Sets `key` to `value`, replacing what it held.
    pub fn insert(&mut self, key: String, value: String)
        ensures
            final(self)@ == old(self)@.insert(key@, value@),
    {
        let ghost before = self.entries@;
        self.entries.push((key, value));
        assert(pairs_view(self.entries@).drop_last() =~= pairs_view(before));
    }

    /// The value of `key`; the empty text where the device did not report it.
    pub fn get(&self, key: &str) -> (r: &str)
        ensures
            r@ == info_value(self@, key@),
    {
        let ghost s = pairs_view(self.entries@);
        let mut i: usize = self.entries.len();
        while i > 0
            invariant
                s == pairs_view(self.entries@),
                i <= s.len(),
                forall|j: int| i <= j < s.len() ==> (#[trigger] s[j]).0 != key@,
            decreases i,
        {
            let e = &self.entries[i - 1];
            if str_eq(e.0.as_str(), key) {
                proof {
                    lemma_entries_tail(s, i as int, key@);
                    assert(s.take(i as int).drop_last() =~= s.take(i - 1));
                }
                return e.1.as_str();
            }
            i -= 1;
        }
        proof {
            lemma_entries_tail(s, 0, key@);
            reveal_strlit("");
        }
        ""
    }
}

/// Reads a device-info document: every child element of the root gives its
/// tag as a key and its text as the value.
pub fn parse_device_info(xml: &str) -> (r: Option<DeviceInfo>)
    ensures
        match r {
            Some(info) => device_info_of(xml@) == Some(info@),
            None => device_info_of(xml@) is None,
        },
{
    let children = match read_root_children(xml) {
        Some(c) => c,
        None => return None,
    };
    let ghost nodes = nodes_view(children@);
    let mut info = DeviceInfo::new();
    let mut i: usize = 0;
    while i < children.len()
        invariant
            nodes == nodes_view(children@),
            i <= children@.len(),
            info@ == info_of_nodes(nodes.take(i as int)),
        decreases children@.len() - i,
    {
        let node = &children[i];
        assert(nodes.take(i + 1).drop_last() =~= nodes.take(i as int));
        if node.element {
            let value = match &node.text {
                Some(t) => t.clone(),
                None => String::new(),
            };
            info.insert(node.tag.clone(), value);
        }
        i += 1;
    }
    assert(nodes.take(children@.len() as int) =~= nodes);
    Some(info)
}

/// Whether no two child elements share a tag.
pub open spec fn distinct_element_tags(nodes: Seq<XmlNodeView>) -> bool {
    forall|i: int, j: int|
        0 <= i < j < nodes.len() && (#[trigger] nodes[i]).element && (#[trigger] nodes[j]).element
            ==> nodes[i].tag != nodes[j].tag
}

pub open spec fn is_element() -> spec_fn(XmlNodeView) -> bool {
    |n: XmlNodeView| n.element
}

proof fn lemma_info_keys_of_nodes(nodes: Seq<XmlNodeView>, key: Seq<char>)
    requires
        distinct_element_tags(nodes),
    ensures
        info_of_nodes(nodes).dom().finite(),
        info_of_nodes(nodes).dom().len() == nodes.filter(is_element()).len(),
        info_of_nodes(nodes).contains_key(key) <==> exists|i: int|
            0 <= i < nodes.len() && (#[trigger] nodes[i]).element && nodes[i].tag == key,
    decreases nodes.len(),
{
    if nodes.len() == 0 {
        reveal(Seq::filter);
        assert(nodes.filter(is_element()).len() == 0);
    } else {
        let init = nodes.drop_last();
        let last = nodes.last();
        assert(distinct_element_tags(init)) by {
            assert forall|i: int, j: int|
                0 <= i < j < init.len() && (#[trigger] init[i]).element && (#[trigger] init[j]).element
                    implies init[i].tag != init[j].tag by {
                assert(init[i] == nodes[i] && init[j] == nodes[j]);
            }
        }
        lemma_info_keys_of_nodes(init, key);
        lemma_info_keys_of_nodes(init, last.tag);
        assert(nodes =~= init.push(last));
        init.lemma_filter_push(last, is_element());
        if last.element {
            assert(!info_of_nodes(init).contains_key(last.tag)) by {
                if info_of_nodes(init).contains_key(last.tag) {
                    let i = choose|i: int| 0 <= i < init.len() && (#[trigger] init[i]).element && init[i].tag == last.tag;
                    assert(nodes[i] == init[i]);
                    assert(nodes[nodes.len() - 1] == last);
                }
            }
        }
        if info_of_nodes(nodes).contains_key(key) {
            if !info_of_nodes(init).contains_key(key) {
                assert(nodes[nodes.len() - 1] == last);
            } else {
                let i = choose|i: int| 0 <= i < init.len() && (#[trigger] init[i]).element && init[i].tag == key;
                assert(nodes[i] == init[i]);
            }
        } else {
            assert forall|i: int| 0 <= i < nodes.len() && (#[trigger] nodes[i]).element implies nodes[i].tag != key by {
                if i < init.len() {
                    assert(nodes[i] == init[i]);
                }
            }
        }
    }
}

/// A device-info document whose root has N child elements with distinct tags
/// gives exactly N keys, those tags; every other key reads as the empty text.
pub proof fn lemma_device_info_keys(xml: Seq<char>, key: Seq<char>)
    requires
        xml_root_children(xml) is Some,
        distinct_element_tags(xml_root_children(xml)->Some_0),
    ensures
        ({
            let nodes = xml_root_children(xml)->Some_0;
            let m = device_info_of(xml)->Some_0;
            &&& device_info_of(xml) is Some
            &&& m.dom().finite()
            &&& m.dom().len() == nodes.filter(is_element()).len()
            &&& m.contains_key(key) <==> exists|i: int|
                0 <= i < nodes.len() && (#[trigger] nodes[i]).element && nodes[i].tag == key
            &&& !m.contains_key(key) ==> info_value(m, key) == Seq::<char>::empty()
        }),
{
    lemma_info_keys_of_nodes(xml_root_children(xml)->Some_0, key);
}

// ---------------------------------------------------------------------------
// App catalog
// ---------------------------------------------------------------------------

/// A launchable application or channel of the device.
#[derive(Clone, Debug, Default)]
pub struct RokuApp {
    pub id: usize,
    pub name: String,
}

impl View for RokuApp {
    type V = (usize, Seq<char>);

    open spec fn view(&self) -> (usize, Seq<char>) {
        (self.id, self.name@)
    }
}

pub open spec fn apps_view(v: Seq<RokuApp>) -> Seq<(usize, Seq<char>)> {
    v.map_values(|a: RokuApp| a@)
}

impl RokuApp {
    /// A copy of this entry.
    pub fn copy(&self) -> (r: RokuApp)
        ensures
            r@ == self@,
    {
        RokuApp { id: self.id, name: self.name.clone() }
    }
}

/// Whether a catalog node is a launchable application: an `app` element whose
/// `type` attribute is `appl`.
pub open spec fn is_launchable(n: XmlNodeView) -> bool {
    n.element && n.tag == "app"@ && attribute_of(n.attributes, "type"@) == Some("appl"@)
}

pub open spec fn launchable() -> spec_fn(XmlNodeView) -> bool {
    |n: XmlNodeView| is_launchable(n)
}

/// The catalog entry of an application node: its `id` attribute read as an
/// unsigned decimal, and its text as the name; `None` where the id is missing
/// or unreadable.
pub open spec fn app_entry(n: XmlNodeView) -> Option<(usize, Seq<char>)> {
    match attribute_of(n.attributes, "id"@) {
        Some(t) => match usize_of_text(t) {
            Some(id) => Some((id, text_or_empty(n.text))),
            None => None,
        },
        None => None,
    }
}

pub open spec fn entry_of() -> spec_fn(XmlNodeView) -> (usize, Seq<char>) {
    |n: XmlNodeView| app_entry(n)->Some_0
}

/// The catalog that the children of an app-catalog document give: one entry
/// per launchable application, in document order; `None` where one of them
/// has no readable id.
pub open spec fn catalog_of_nodes(nodes: Seq<XmlNodeView>) -> Option<Seq<(usize, Seq<char>)>> {
    let apps = nodes.filter(launchable());
    if forall|i: int| 0 <= i < apps.len() ==> (#[trigger] app_entry(apps[i])) is Some {
        Some(apps.map_values(entry_of()))
    } else {
        None
    }
}

/// The catalog of the app-catalog document `xml`; `None` where it is not
/// well-formed or a launchable application has no readable id.
pub open spec fn app_catalog(xml: Seq<char>) -> Option<Seq<(usize, Seq<char>)>> {
    match xml_root_children(xml) {
        Some(nodes) => catalog_of_nodes(nodes),
        None => None,
    }
}

/// Reads an app-catalog document. An application whose id cannot be read
/// fails the whole catalog.
pub fn parse_app_list(xml: &str) -> (r: Option<Vec<RokuApp>>)
    ensures
        match r {
            Some(v) => app_catalog(xml@) == Some(apps_view(v@)),
            None => app_catalog(xml@) is None,
        },
{
    let children = match read_root_children(xml) {
        Some(c) => c,
        None => return None,
    };
    let ghost nodes = nodes_view(children@);
    let mut list: Vec<RokuApp> = Vec::new();
    let mut i: usize = 0;
    while i < children.len()
        invariant
            nodes == nodes_view(children@),
            xml_root_children(xml@) == Some(nodes),
            i <= children@.len(),
            forall|j: int| 0 <= j < nodes.take(i as int).filter(launchable()).len()
                ==> (#[trigger] app_entry(nodes.take(i as int).filter(launchable())[j])) is Some,
            apps_view(list@) == nodes.take(i as int).filter(launchable()).map_values(entry_of()),
        decreases children@.len() - i,
    {
        let node = &children[i];
        let ghost nv = nodes[i as int];
        proof {
            assert(nodes.take(i + 1) =~= nodes.take(i as int).push(nv));
            nodes.take(i as int).lemma_filter_push(nv, launchable());
        }
        let mut wanted = false;
        if node.element && str_eq(node.tag.as_str(), "app") {
            match attribute(node, "type") {
                Some(t) => {
                    wanted = str_eq(t, "appl");
                },
                None => {},
            }
        }
        assert(wanted == is_launchable(nv));
        if wanted {
            let id = match attribute(node, "id") {
                Some(t) => parse_usize(t),
                None => None,
            };
            match id {
                Some(id) => {
                    let name = match &node.text {
                        Some(t) => t.clone(),
                        None => String::new(),
                    };
                    let ghost before = list@;
                    list.push(RokuApp { id, name });
                    assert(apps_view(list@) =~= apps_view(before).push((id, name@)));
                    assert(app_entry(nv) == Some((id, name@)));
                },
                None => {
                    proof {
                        assert(app_entry(nv) is None);
                        nodes.lemma_filter_contains(launchable(), i as int);
                        let apps = nodes.filter(launchable());
                        let j = choose|j: int| 0 <= j < apps.len() && apps[j] == nv;
                        assert(app_entry(apps[j]) is None);
                    }
                    return None;
                },
            }
        }
        i += 1;
    }
    assert(nodes.take(children@.len() as int) =~= nodes);
    Some(list)
}

/// Only launchable applications (`app` elements of type `appl`) reach the
/// catalog, one entry each, in document order.
pub proof fn lemma_catalog_only_launchable(xml: Seq<char>)
    requires
        app_catalog(xml) is Some,
    ensures
        ({
            let nodes = xml_root_children(xml)->Some_0;
            let apps = nodes.filter(launchable());
            let c = app_catalog(xml)->Some_0;
            &&& c.len() == apps.len()
            &&& forall|i: int| 0 <= i < c.len() ==> {
                &&& is_launchable(#[trigger] apps[i])
                &&& Some(c[i]) == app_entry(apps[i])
                &&& nodes.contains(apps[i])
            }
        }),
{
    let nodes = xml_root_children(xml)->Some_0;
    let apps = nodes.filter(launchable());
    let c = app_catalog(xml)->Some_0;
    assert forall|i: int| 0 <= i < c.len() implies {
        &&& is_launchable(#[trigger] apps[i])
        &&& Some(c[i]) == app_entry(apps[i])
        &&& nodes.contains(apps[i])
    } by {
        nodes.lemma_filter_pred(launchable(), i);
        assert(apps.contains(apps[i]));
        nodes.lemma_filter_contains_rev(launchable(), apps[i]);
        assert(app_entry(apps[i]) is Some);
    }
}

/// Reading one catalog document twice gives the same catalog.
pub proof fn lemma_catalog_parse_repeatable(
    xml: Seq<char>,
    first: Seq<(usize, Seq<char>)>,
    second: Seq<(usize, Seq<char>)>,
)
    requires
        app_catalog(xml) == Some(first),
        app_catalog(xml) == Some(second),
    ensures
        first == second,
{
}

// ---------------------------------------------------------------------------
// Control endpoint and requests
// ---------------------------------------------------------------------------

/// A device's control address: its host, as a URL writes it.
pub struct DeviceEndpoint {
    pub host: String,
}

/// `http://{host}:8060`, the root of every control request.
pub open spec fn base_url(host: Seq<char>) -> Seq<char> {
    "http://"@ + host + ":8060"@
}

impl DeviceEndpoint {
    /// The address of the control service on `host`.
    pub fn new(host: String) -> (r: DeviceEndpoint)
        ensures
            r.host@ == host@,
    {
        DeviceEndpoint { host }
    }

    fn url(&self, path: &str) -> (r: String)
        ensures
            r@ == base_url(self.host@) + path@,
    {
        let mut u = String::from_str("http://");
        u.append(self.host.as_str());
        u.append(":8060");
        u.append(path);
        u
    }

    /// The address of the device-info document.
    pub fn device_info_url(&self) -> (r: String)
        ensures
            r@ == base_url(self.host@) + "/query/device-info"@,
    {
        self.url("/query/device-info")
    }

    /// The address of the app-catalog document.
    pub fn app_list_url(&self) -> (r: String)
        ensures
            r@ == base_url(self.host@) + "/query/apps"@,
    {
        self.url("/query/apps")
    }

    /// The address to post to for a press of `key`.
    pub fn keypress_url(&self, key: RokuKey) -> (r: String)
        ensures
            r@ == base_url(self.host@) + "/keypress/"@ + key_name(key),
    {
        let mut u = self.url("/keypress/");
        u.append(key.to_str());
        u
    }

    /// The address to post to for launching the application `app_id`.
    pub fn launch_url(&self, app_id: usize) -> (r: String)
        ensures
            r@ == base_url(self.host@) + "/launch/"@ + decimal(app_id as nat),
    {
        let mut u = self.url("/launch/");
        let id = decimal_string(app_id);
        u.append(id.as_str());
        u
    }
}

/// An HTTP response from the device: its status code and body.
pub struct HttpReply {
    pub status: u16,
    pub body: String,
}

/// Whether an HTTP status code reports success (2xx).
pub open spec fn status_ok(status: u16) -> bool {
    200 <= status <= 299
}

/// The body of a successful reply; `None` where the request failed in
/// transport (`reply` is `None`) or the status was not 2xx.
pub open spec fn reply_body(reply: Option<HttpReply>) -> Option<Seq<char>> {
    match reply {
        Some(h) => if status_ok(h.status) { Some(h.body@) } else { None },
        None => None,
    }
}

/// The metadata that a reply to the device-info request yields.
pub open spec fn info_from_reply(reply: Option<HttpReply>) -> Option<Map<Seq<char>, Seq<char>>> {
    match reply_body(reply) {
        Some(b) => device_info_of(b),
        None => None,
    }
}

/// The catalog that a reply to the app-catalog request yields.
pub open spec fn catalog_from_reply(reply: Option<HttpReply>) -> Option<Seq<(usize, Seq<char>)>> {
    match reply_body(reply) {
        Some(b) => app_catalog(b),
        None => None,
    }
}

/// Why a device client could not be built.
#[derive(Debug, Clone, Copy, PartialEq, Eq, Structural)]
pub enum ConnectError {
    /// The device-info request failed, or its document was unreadable.
    MetadataFetch,
    /// The app-catalog request failed, or its document was unreadable.
    CatalogFetch,
}

/// Why a control command failed.
#[derive(Debug, Clone, Copy, PartialEq, Eq, Structural)]
pub enum CommandError {
    /// The request did not reach the device or got no response.
    Transport,
    /// The device answered with a status other than 2xx.
    Status(u16),
}

/// The outcome of a control command whose response had status `status`;
/// `None` for a transport failure.
pub fn command_result(status: Option<u16>) -> (r: Result<(), CommandError>)
    ensures
        match status {
            None => r == Err::<(), CommandError>(CommandError::Transport),
            Some(s) => if status_ok(s) {
                r is Ok
            } else {
                r == Err::<(), CommandError>(CommandError::Status(s))
            },
        },
{
    match status {
        None => Err(CommandError::Transport),
        Some(s) => if 200 <= s && s <= 299 {
            Ok(())
        } else {
            Err(CommandError::Status(s))
        },
    }
}

// ---------------------------------------------------------------------------
// Device client
// ---------------------------------------------------------------------------

/// A connected device: its control address with the metadata and catalog
/// read when it was connected.
pub struct Roku {
    pub endpoint: DeviceEndpoint,
    pub app_list: Vec<RokuApp>,
    pub device_info: DeviceInfo,
}

impl Roku {
    /// Builds the client of the device at `endpoint` from the replies to the
    /// device-info request and then the app-catalog request (`None`: the
    /// request failed in transport). Both must succeed: there is no client
    /// with partial metadata.
    pub fn new(endpoint: DeviceEndpoint, info_reply: Option<HttpReply>, apps_reply: Option<HttpReply>) -> (r: Result<Roku, ConnectError>)
        ensures
            info_from_reply(info_reply) is None ==> r == Err::<Roku, ConnectError>(ConnectError::MetadataFetch),
            info_from_reply(info_reply) is Some && catalog_from_reply(apps_reply) is None
                ==> r == Err::<Roku, ConnectError>(ConnectError::CatalogFetch),
            info_from_reply(info_reply) is Some && catalog_from_reply(apps_reply) is Some ==> r is Ok,
            r matches Ok(roku) ==> {
                &&& roku.endpoint.host@ == endpoint.host@
                &&& info_from_reply(info_reply) == Some(roku.device_info@)
                &&& catalog_from_reply(apps_reply) == Some(apps_view(roku.app_list@))
            },
    {
        let device_info = match Self::fetched_body(info_reply) {
            Some(body) => match parse_device_info(body.as_str()) {
                Some(info) => info,
                None => return Err(ConnectError::MetadataFetch),
            },
            None => return Err(ConnectError::MetadataFetch),
        };
        let app_list = match Self::fetched_body(apps_reply) {
            Some(body) => match parse_app_list(body.as_str()) {
                Some(apps) => apps,
                None => return Err(ConnectError::CatalogFetch),
            },
            None => return Err(ConnectError::CatalogFetch),
        };
        Ok(Roku { endpoint, app_list, device_info })
    }

    fn fetched_body(reply: Option<HttpReply>) -> (r: Option<String>)
        ensures
            match r {
                Some(b) => reply_body(reply) == Some(b@),
                None => reply_body(reply) is None,
            },
    {
        match reply {
            Some(h) => if 200 <= h.status && h.status <= 299 {
                Some(h.body)
            } else {
                None
            },
            None => None,
        }
    }

    /// The device's friendly name; empty where it did not report one.
    pub fn get_friendly_name(&self) -> (r: &str)
        ensures
            r@ == info_value(self.device_info@, "friendly-device-name"@),
    {
        self.get_device_info("friendly-device-name")
    }

    /// The metadata value of `key`; empty where the device did not report it.
    pub fn get_device_info(&self, key: &str) -> (r: &str)
        ensures
            r@ == info_value(self.device_info@, key@),
    {
        self.device_info.get(key)
    }

    /// The address to post to for a press of `key` on this device.
    pub fn keypress_url(&self, key: RokuKey) -> (r: String)
        ensures
            r@ == base_url(self.endpoint.host@) + "/keypress/"@ + key_name(key),
    {
        self.endpoint.keypress_url(key)
    }

    /// The address to post to for launching `app_id` on this device. The id
    /// need not be in the catalog: the device rejects unknown ones.
    pub fn launch_app_url(&self, app_id: usize) -> (r: String)
        ensures
            r@ == base_url(self.endpoint.host@) + "/launch/"@ + decimal(app_id as nat),
    {
        self.endpoint.launch_url(app_id)
    }
}

} // verus!
