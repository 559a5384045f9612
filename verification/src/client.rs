//! The client's side: what it sends to subscribe, and how it shows what it
//! receives.

use vstd::prelude::*;
use crate::error::HyprvisorError;
use crate::hyprland::window::{HyprWindowInfo, WindowView};
use crate::hyprland::workspace::HyprWorkspaceInfo;
use crate::message::{HyprvisorMessage, MessageType, MessageView};
use crate::opts::{parse_opts, spec_parse_opts, SubscribeOpts};
use crate::subscription::{ClientInfo, SubscriptionID};
use crate::text::{shorten, spec_shorten, text_from_bytes};
use crate::bluetooth::{BluetoothInfo, BluetoothView};
use crate::wifi::{WifiInfo, WifiView};

verus! {

/// A client of one feed.
#[derive(Clone, Copy, Debug, PartialEq, Eq, Structural)]
pub struct Client {
    pub client_info: ClientInfo,
    /// The parameter its updates are formatted with, if it gave one.
    pub extra_data: Option<u32>,
}

impl Client {
    pub fn new(pid: u32, subscription_id: SubscriptionID, extra_data: Option<u32>) -> (client:
        Client)
        ensures
            client.client_info.process_id == pid,
            client.client_info.subscription_id == subscription_id,
            client.extra_data == extra_data,
    {
        Client { client_info: ClientInfo { subscription_id, process_id: pid }, extra_data }
    }

    /// The client that the command line asks for.
    pub fn from_opts(pid: u32, opts: SubscribeOpts) -> (client: Client)
        ensures
            client.client_info.process_id == pid,
            client.client_info.subscription_id == spec_parse_opts(opts).0,
            client.extra_data == spec_parse_opts(opts).1,
    {
        let (subscription_id, extra_data) = parse_opts(opts);
        Client::new(pid, subscription_id, extra_data)
    }

    /// Formats an update of this client's feed with the parameter the client
    /// gave, and leaves it as it came where the client gave none.
    pub fn show<T: FormattedInfo>(&self, snapshot: T) -> (shown: T)
        ensures
            shown@ == T::spec_formatted(snapshot@, self.extra_data),
            self.extra_data is None ==> shown@ == snapshot@,
    {
        snapshot.formatted(&self.extra_data)
    }

    /// The message that subscribes this client.
    pub fn subscribe(&self) -> (message: HyprvisorMessage)
        ensures
            message@ == (MessageView {
                message_type: MessageType::Subscription,
                header: 5,
                payload: self.client_info.spec_encode(),
            }),
    {
        HyprvisorMessage::subscription(self.client_info)
    }
}

/// The payload of an update: of a valid message its payload, and
/// `InvalidMessage` of any other.
pub fn parse_response(message: HyprvisorMessage) -> (result: Result<Vec<u8>, HyprvisorError>)
    ensures
        match result {
            Ok(payload) => message@.is_valid() && payload@ == message@.payload,
            Err(error) => !message@.is_valid() && error == HyprvisorError::InvalidMessage,
        },
{
    if !message.is_valid() {
        return Err(HyprvisorError::InvalidMessage);
    }
    Ok(message.payload)
}

/// What the answer to a ping amounts to: `InvalidResponse` where its header
/// does not match its payload or where it is no response, `ParseError` where
/// its payload is no text, and else that text.
pub open spec fn spec_ping_answer(message: MessageView) -> Result<Seq<char>, HyprvisorError> {
    if !message.is_valid() || message.message_type != MessageType::Response {
        Err(HyprvisorError::InvalidResponse)
    } else if !vstd::utf8::valid_utf8(message.payload) {
        Err(HyprvisorError::ParseError)
    } else {
        Ok(vstd::utf8::decode_utf8(message.payload))
    }
}

/// What the answer to a command amounts to: `InvalidResponse` where its
/// header does not match its payload, `ParseError` where its payload is no
/// text, and else that text.
pub open spec fn spec_command_answer(message: MessageView) -> Result<Seq<char>, HyprvisorError> {
    if !message.is_valid() {
        Err(HyprvisorError::InvalidResponse)
    } else if !vstd::utf8::valid_utf8(message.payload) {
        Err(HyprvisorError::ParseError)
    } else {
        Ok(vstd::utf8::decode_utf8(message.payload))
    }
}

/// Reads the daemon's answer to a ping.
pub fn ping_daemon(response: HyprvisorMessage) -> (result: Result<String, HyprvisorError>)
    ensures
        match result {
            Ok(text) => spec_ping_answer(response@) == Ok::<Seq<char>, HyprvisorError>(text@),
            Err(error) => spec_ping_answer(response@) == Err::<Seq<char>, HyprvisorError>(error),
        },
{
    if !response.is_valid() {
        return Err(HyprvisorError::InvalidResponse);
    }
    match response.message_type {
        MessageType::Response => {},
        _ => {
            return Err(HyprvisorError::InvalidResponse);
        },
    }
    match text_from_bytes(response.payload) {
        Some(text) => Ok(text),
        None => Err(HyprvisorError::ParseError),
    }
}

/// Reads the daemon's answer to a command.
pub fn send_command(response: HyprvisorMessage) -> (result: Result<String, HyprvisorError>)
    ensures
        match result {
            Ok(text) => spec_command_answer(response@) == Ok::<Seq<char>, HyprvisorError>(text@),
            Err(error) => spec_command_answer(response@) == Err::<Seq<char>, HyprvisorError>(
                error,
            ),
        },
{
    if !response.is_valid() {
        return Err(HyprvisorError::InvalidResponse);
    }
    match text_from_bytes(response.payload) {
        Some(text) => Ok(text),
        None => Err(HyprvisorError::ParseError),
    }
}

/// The first entry of `list` from `from` on that has the id `id`.
pub open spec fn spec_first_with_id(list: Seq<HyprWorkspaceInfo>, id: u32, from: int) -> Option<
    HyprWorkspaceInfo,
>
    decreases list.len() - from,
{
    if from < 0 || from >= list.len() {
        None
    } else if list[from].id == id {
        Some(list[from])
    } else {
        spec_first_with_id(list, id, from + 1)
    }
}

/// The entry shown for the id `id`: the first one the list has for it, or
/// the entry of a workspace nobody has opened.
pub open spec fn spec_slot(list: Seq<HyprWorkspaceInfo>, id: u32) -> HyprWorkspaceInfo {
    match spec_first_with_id(list, id, 0) {
        Some(workspace) => workspace,
        None => HyprWorkspaceInfo::spec_default_workspace(id),
    }
}

/// One entry for each id from 1 to `fix`.
pub open spec fn spec_padded(list: Seq<HyprWorkspaceInfo>, fix: u32) -> Seq<HyprWorkspaceInfo> {
    Seq::new(fix as nat, |i: int| spec_slot(list, (i + 1) as u32))
}

/// The entries of `list` with an id above `fix`, in the list's order.
pub open spec fn spec_beyond(list: Seq<HyprWorkspaceInfo>, fix: u32) -> Seq<HyprWorkspaceInfo>
    decreases list.len(),
{
    if list.len() == 0 {
        list
    } else if list.last().id > fix {
        spec_beyond(list.drop_last(), fix).push(list.last())
    } else {
        spec_beyond(list.drop_last(), fix)
    }
}

/// The place of a new entry with the id `id` in a list sorted by id: behind
/// every entry whose id is not greater.
pub open spec fn spec_place(sorted: Seq<HyprWorkspaceInfo>, id: u32, from: int) -> int
    decreases sorted.len() - from,
{
    if from < 0 || from >= sorted.len() || sorted[from].id > id {
        from
    } else {
        spec_place(sorted, id, from + 1)
    }
}

/// `list` sorted by id, entries with the same id in the order they had.
pub open spec fn spec_sort_by_id(list: Seq<HyprWorkspaceInfo>) -> Seq<HyprWorkspaceInfo>
    decreases list.len(),
{
    if list.len() == 0 {
        list
    } else {
        let sorted = spec_sort_by_id(list.drop_last());
        sorted.insert(spec_place(sorted, list.last().id, 0), list.last())
    }
}

/// Whether the ids of a list never go down.
pub open spec fn spec_sorted_by_id(list: Seq<HyprWorkspaceInfo>) -> bool {
    forall|i: int, j: int| 0 <= i <= j < list.len() ==> list[i].id <= list[j].id
}

/// The workspace list as a client shows it that asked for `fix` workspaces.
/// With 0 the list is shown as it came. Else the ids 1 to `fix` come first,
/// each with the entry the list has for it or with the entry of a workspace
/// nobody has opened, and the entries with a higher id follow, sorted by id.
pub open spec fn spec_format_workspaces(list: Seq<HyprWorkspaceInfo>, fix: u32) -> Seq<
    HyprWorkspaceInfo,
> {
    if fix == 0 {
        list
    } else {
        spec_padded(list, fix) + spec_sort_by_id(spec_beyond(list, fix))
    }
}

/// The place of a new entry lies in the list, behind the entries whose id is
/// not greater and in front of those whose id is.
pub proof fn lemma_place(sorted: Seq<HyprWorkspaceInfo>, id: u32, from: int)
    requires
        0 <= from <= sorted.len(),
        spec_sorted_by_id(sorted),
    ensures
        from <= spec_place(sorted, id, from) <= sorted.len(),
        forall|i: int| from <= i < spec_place(sorted, id, from) ==> sorted[i].id <= id,
        forall|i: int| spec_place(sorted, id, from) <= i < sorted.len() ==> sorted[i].id > id,
    decreases sorted.len() - from,
{
    if from < sorted.len() && sorted[from].id <= id {
        lemma_place(sorted, id, from + 1);
    }
}

/// Sorting gives a list whose ids never go down and that holds the same
/// entries as often as the list that was sorted.
pub proof fn lemma_sort_by_id(list: Seq<HyprWorkspaceInfo>)
    ensures
        spec_sorted_by_id(spec_sort_by_id(list)),
        spec_sort_by_id(list).len() == list.len(),
        spec_sort_by_id(list).to_multiset() == list.to_multiset(),
    decreases list.len(),
{
    broadcast use vstd::seq_lib::group_to_multiset_ensures;

    if list.len() > 0 {
        let front = list.drop_last();
        let last = list.last();
        lemma_sort_by_id(front);
        let sorted = spec_sort_by_id(front);
        lemma_place(sorted, last.id, 0);
        let place = spec_place(sorted, last.id, 0);
        let result = sorted.insert(place, last);
        assert(list =~= front.push(last));
        assert(result.to_multiset() =~= sorted.to_multiset().insert(last)) by {
            vstd::seq_lib::to_multiset_insert(sorted, place, last);
        }
        assert forall|i: int, j: int| 0 <= i <= j < result.len() implies result[i].id
            <= result[j].id by {
            let a = if i < place {
                i
            } else {
                i - 1
            };
            let b = if j < place {
                j
            } else {
                j - 1
            };
            if i != place && j != place {
                assert(sorted[a].id <= sorted[b].id);
            }
        }
    }
}

/// Where every workspace of the list has an id from 1 to `fix` and no two
/// have the same, the list shown for `fix` has exactly `fix` entries: the
/// entry at place `id - 1` has the id `id`, each workspace of the list stands
/// at the place of its id as it was received, and every other place holds
/// the entry of a workspace nobody has opened.
pub proof fn lemma_padding(list: Seq<HyprWorkspaceInfo>, fix: u32)
    requires
        fix >= 1,
        forall|i: int| 0 <= i < list.len() ==> 1 <= #[trigger] list[i].id <= fix,
        forall|i: int, j: int| 0 <= i < j < list.len() ==> list[i].id != list[j].id,
    ensures
        spec_format_workspaces(list, fix).len() == fix,
        list.len() <= fix,
        forall|k: int| 0 <= k < fix ==> #[trigger] spec_format_workspaces(list, fix)[k].id == k + 1,
        forall|i: int|
            0 <= i < list.len() ==> spec_format_workspaces(list, fix)[#[trigger] list[i].id - 1]
                == list[i],
        forall|k: int|
            0 <= k < fix && (forall|i: int| 0 <= i < list.len() ==> list[i].id != k + 1)
                ==> #[trigger] spec_format_workspaces(list, fix)[k]
                == HyprWorkspaceInfo::spec_default_workspace((k + 1) as u32),
{
    lemma_beyond_empty(list, fix);
    let shown = spec_format_workspaces(list, fix);
    assert(shown =~= spec_padded(list, fix));
    assert forall|k: int| 0 <= k < fix implies #[trigger] shown[k].id == k + 1 by {
        lemma_first_with_id(list, (k + 1) as u32, 0);
    }
    assert forall|i: int| 0 <= i < list.len() implies shown[#[trigger] list[i].id - 1]
        == list[i] by {
        lemma_first_with_id(list, list[i].id, 0);
    }
    assert forall|k: int|
        0 <= k < fix && (forall|i: int|
            0 <= i < list.len() ==> list[i].id != k + 1) implies #[trigger] shown[k]
        == HyprWorkspaceInfo::spec_default_workspace((k + 1) as u32) by {
        lemma_first_with_id(list, (k + 1) as u32, 0);
    }
    lemma_distinct_ids_bound(list, fix);
}

/// What `spec_first_with_id` finds has the id asked for and stands in the
/// list, in front of every other entry with that id; it finds nothing only
/// where no entry has that id.
pub proof fn lemma_first_with_id(list: Seq<HyprWorkspaceInfo>, id: u32, from: int)
    requires
        0 <= from <= list.len(),
    ensures
        match spec_first_with_id(list, id, from) {
            Some(workspace) => exists|i: int|
                from <= i < list.len() && list[i] == workspace && workspace.id == id && (forall|
                    j: int,
                | from <= j < i ==> list[j].id != id),
            None => forall|i: int| from <= i < list.len() ==> list[i].id != id,
        },
    decreases list.len() - from,
{
    if from < list.len() {
        if list[from].id == id {
            assert(from <= from < list.len() && list[from] == list[from]);
        } else {
            lemma_first_with_id(list, id, from + 1);
            match spec_first_with_id(list, id, from + 1) {
                Some(workspace) => {
                    let i = choose|i: int|
                        from + 1 <= i < list.len() && list[i] == workspace && workspace.id == id
                            && (forall|j: int| from + 1 <= j < i ==> list[j].id != id);
                    assert(from <= i < list.len() && list[i] == workspace && workspace.id == id
                        && (forall|j: int| from <= j < i ==> list[j].id != id));
                },
                None => {},
            }
        }
    }
}

/// A list without an id above `fix` has nothing beyond `fix`.
pub proof fn lemma_beyond_empty(list: Seq<HyprWorkspaceInfo>, fix: u32)
    requires
        forall|i: int| 0 <= i < list.len() ==> #[trigger] list[i].id <= fix,
    ensures
        spec_beyond(list, fix).len() == 0,
        spec_sort_by_id(spec_beyond(list, fix)).len() == 0,
    decreases list.len(),
{
    if list.len() > 0 {
        lemma_beyond_empty(list.drop_last(), fix);
        assert(list.last() == list[list.len() - 1]);
    }
}

/// A list of different ids from 1 to `fix` has at most `fix` entries.
pub proof fn lemma_distinct_ids_bound(list: Seq<HyprWorkspaceInfo>, fix: u32)
    requires
        forall|i: int| 0 <= i < list.len() ==> 1 <= #[trigger] list[i].id <= fix,
        forall|i: int, j: int| 0 <= i < j < list.len() ==> list[i].id != list[j].id,
    ensures
        list.len() <= fix,
{
    let ids = Seq::new(list.len(), |i: int| list[i].id as int);
    assert(ids.no_duplicates());
    ids.unique_seq_to_set();
    let range = Set::new(|id: int| 1 <= id <= fix);
    assert(range =~= vstd::set_lib::set_int_range(1, fix as int + 1));
    vstd::set_lib::lemma_int_range(1, fix as int + 1);
    assert forall|id: int| ids.to_set().contains(id) implies range.contains(id) by {
        let i = choose|i: int| 0 <= i < ids.len() && ids[i] == id;
        assert(list[i].id == id);
    }
    vstd::set_lib::lemma_len_subset(ids.to_set(), range);
}

fn first_with_id(list: &Vec<HyprWorkspaceInfo>, id: u32) -> (found: Option<HyprWorkspaceInfo>)
    ensures
        found == spec_first_with_id(list@, id, 0),
{
    let mut index: usize = 0;
    while index < list.len()
        invariant
            index <= list@.len(),
            spec_first_with_id(list@, id, 0) == spec_first_with_id(list@, id, index as int),
        decreases list.len() - index,
    {
        if list[index].id == id {
            return Some(list[index]);
        }
        index += 1;
    }
    None
}

fn place(sorted: &Vec<HyprWorkspaceInfo>, id: u32) -> (index: usize)
    ensures
        index == spec_place(sorted@, id, 0),
        index <= sorted@.len(),
{
    let mut index: usize = 0;
    while index < sorted.len() && sorted[index].id <= id
        invariant
            index <= sorted@.len(),
            spec_place(sorted@, id, 0) == spec_place(sorted@, id, index as int),
        decreases sorted.len() - index,
    {
        index += 1;
    }
    index
}

/// Pads and sorts the workspace list for a client that asked for `fix`
/// workspaces.
pub fn format_workspaces(list: Vec<HyprWorkspaceInfo>, fix: u32) -> (shown: Vec<HyprWorkspaceInfo>)
    ensures
        shown@ == spec_format_workspaces(list@, fix),
{
    if fix == 0 {
        return list;
    }
    let mut shown: Vec<HyprWorkspaceInfo> = Vec::new();
    let mut id: u32 = 0;
    while id < fix
        invariant
            id <= fix,
            shown@.len() == id,
            forall|i: int| 0 <= i < id ==> shown@[i] == spec_slot(list@, (i + 1) as u32),
        decreases fix - id,
    {
        id += 1;
        let workspace = match first_with_id(&list, id) {
            Some(workspace) => workspace,
            None => HyprWorkspaceInfo::default_workspace(id),
        };
        shown.push(workspace);
    }
    assert(shown@ =~= spec_padded(list@, fix));
    let mut beyond: Vec<HyprWorkspaceInfo> = Vec::new();
    let mut index: usize = 0;
    while index < list.len()
        invariant
            index <= list@.len(),
            beyond@ == spec_sort_by_id(spec_beyond(list@.subrange(0, index as int), fix)),
        decreases list.len() - index,
    {
        let workspace = list[index];
        proof {
            let before = list@.subrange(0, index as int);
            let now = list@.subrange(0, index as int + 1);
            assert(now.drop_last() =~= before);
            assert(now.last() == workspace);
            if workspace.id > fix {
                assert(spec_beyond(now, fix).drop_last() =~= spec_beyond(before, fix));
            }
        }
        if workspace.id > fix {
            let at = place(&beyond, workspace.id);
            beyond.insert(at, workspace);
        }
        index += 1;
    }
    assert(list@.subrange(0, index as int) =~= list@);
    shown.append(&mut beyond);
    shown
}

/// The window as a client shows it that asked for `title_length` bytes of
/// the title.
pub open spec fn spec_format_window(window: WindowView, title_length: u32) -> WindowView {
    WindowView { class: window.class, title: spec_shorten(window.title, title_length as nat) }
}

/// The Wi-Fi snapshot as a client shows it that asked for `ssid_length`
/// bytes of the network's name.
pub open spec fn spec_format_wifi(info: WifiView, ssid_length: u32) -> WifiView {
    WifiView {
        state: info.state,
        ssid: spec_shorten(info.ssid, ssid_length as nat),
        icon: info.icon,
    }
}

/// Shortens the title of a window.
pub fn format_window(window: HyprWindowInfo, title_length: u32) -> (shown: HyprWindowInfo)
    ensures
        shown@ == spec_format_window(window@, title_length),
{
    let title = shorten(window.title.as_str(), title_length);
    HyprWindowInfo { class: window.class, title }
}

/// Shortens the network's name of a Wi-Fi snapshot.
pub fn format_wifi(info: WifiInfo, ssid_length: u32) -> (shown: WifiInfo)
    ensures
        shown@ == spec_format_wifi(info@, ssid_length),
{
    let ssid = shorten(info.ssid.as_str(), ssid_length);
    WifiInfo { state: info.state, ssid, icon: info.icon }
}

/// A snapshot that a client can show with a formatting parameter.
pub trait FormattedInfo: Sized + View {
    /// The snapshot as it is shown with `extra_data`. Without a parameter it
    /// is shown as it came.
    spec fn spec_formatted(snapshot: Self::V, extra_data: Option<u32>) -> Self::V;

    /// Formats the snapshot.
    fn formatted(self, extra_data: &Option<u32>) -> (shown: Self)
        ensures
            shown@ == Self::spec_formatted(self@, *extra_data),
            *extra_data is None ==> shown@ == self@,
    ;
}

impl FormattedInfo for HyprWindowInfo {
    open spec fn spec_formatted(snapshot: WindowView, extra_data: Option<u32>) -> WindowView {
        match extra_data {
            Some(title_length) => spec_format_window(snapshot, title_length),
            None => snapshot,
        }
    }

    fn formatted(self, extra_data: &Option<u32>) -> (shown: HyprWindowInfo) {
        match extra_data {
            Some(title_length) => format_window(self, *title_length),
            None => self,
        }
    }
}

impl FormattedInfo for Vec<HyprWorkspaceInfo> {
    open spec fn spec_formatted(snapshot: Seq<HyprWorkspaceInfo>, extra_data: Option<u32>) -> Seq<
        HyprWorkspaceInfo,
    > {
        match extra_data {
            Some(fix) => spec_format_workspaces(snapshot, fix),
            None => snapshot,
        }
    }

    fn formatted(self, extra_data: &Option<u32>) -> (shown: Vec<HyprWorkspaceInfo>) {
        match extra_data {
            Some(fix) => format_workspaces(self, *fix),
            None => self,
        }
    }
}

impl FormattedInfo for WifiInfo {
    open spec fn spec_formatted(snapshot: WifiView, extra_data: Option<u32>) -> WifiView {
        match extra_data {
            Some(ssid_length) => spec_format_wifi(snapshot, ssid_length),
            None => snapshot,
        }
    }

    fn formatted(self, extra_data: &Option<u32>) -> (shown: WifiInfo) {
        match extra_data {
            Some(ssid_length) => format_wifi(self, *ssid_length),
            None => self,
        }
    }
}

/// A Bluetooth snapshot is shown as it is.
impl FormattedInfo for BluetoothInfo {
    open spec fn spec_formatted(snapshot: BluetoothView, extra_data: Option<u32>) -> BluetoothView {
        snapshot
    }

    fn formatted(self, extra_data: &Option<u32>) -> (shown: BluetoothInfo) {
        self
    }
}

/// A client that names no length gets every title and every network name
/// whole, and one that names no count gets the workspace list as it came.
pub proof fn lemma_no_parameter_no_change(
    window: WindowView,
    info: WifiView,
    workspaces: Seq<HyprWorkspaceInfo>,
)
    ensures
        spec_parse_opts(SubscribeOpts::Window { title_length: None }).1 is None,
        spec_parse_opts(SubscribeOpts::Wifi { ssid_length: None }).1 is None,
        spec_parse_opts(SubscribeOpts::Workspaces { fix_workspace: None }).1 is None,
        HyprWindowInfo::spec_formatted(
            window,
            spec_parse_opts(SubscribeOpts::Window { title_length: None }).1,
        ) == window,
        WifiInfo::spec_formatted(
            info,
            spec_parse_opts(SubscribeOpts::Wifi { ssid_length: None }).1,
        ) == info,
        Vec::<HyprWorkspaceInfo>::spec_formatted(
            workspaces,
            spec_parse_opts(SubscribeOpts::Workspaces { fix_workspace: None }).1,
        ) == workspaces,
        Vec::<HyprWorkspaceInfo>::spec_formatted(workspaces, Some(0)) == workspaces,
{
}

} // verus!
