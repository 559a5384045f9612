//! The workspace feed: one entry per workspace, projected from the window
//! manager's replies.

use vstd::prelude::*;
use crate::error::HyprvisorError;
use crate::hyprland::json::{
    elements_of, json_document, json_elements, json_member, json_signed, json_unsigned, member,
    parse_document, signed_of, unsigned_of,
};

verus! {

#[derive(Clone, Copy, Debug, PartialEq, Eq, Structural)]
pub struct HyprWorkspaceInfo {
    pub id: u32,
    pub occupied: bool,
    pub active: bool,
}

impl HyprWorkspaceInfo {
    pub open spec fn spec_default_workspace(id: u32) -> HyprWorkspaceInfo {
        HyprWorkspaceInfo { id, occupied: false, active: false }
    }

    /// The entry that stands for a workspace nobody has opened.
    #[verifier::when_used_as_spec(spec_default_workspace)]
    pub fn default_workspace(id: u32) -> (workspace: HyprWorkspaceInfo)
        ensures
            workspace == Self::spec_default_workspace(id),
    {
        Self { id, occupied: false, active: false }
    }
}

/// The workspace id that a JSON number stands for: 0 where there is none, and
/// the low 32 bits of a larger number.
pub open spec fn spec_workspace_id(id: Option<u64>) -> u32 {
    match id {
        Some(id) => (id % 0x1_0000_0000) as u32,
        None => 0,
    }
}

/// The entry for a workspace whose reply holds `id` and `windows`, while the
/// workspace `active_id` has the focus. A workspace is occupied when it holds
/// at least one window.
pub open spec fn spec_workspace_from_fields(
    id: Option<u64>,
    windows: Option<i64>,
    active_id: u32,
) -> HyprWorkspaceInfo {
    HyprWorkspaceInfo {
        id: spec_workspace_id(id),
        occupied: windows is Some && windows.unwrap() > 0,
        active: spec_workspace_id(id) == active_id,
    }
}

/// The id of the focused workspace that a reply to `j/activeworkspace`
/// holds.
pub open spec fn spec_active_id(active: serde_json::Value) -> u32 {
    spec_workspace_id(json_unsigned(json_member(active, "id"@)))
}

/// The entry that one element of a reply to `j/workspaces` stands for.
pub open spec fn spec_workspace_of(item: serde_json::Value, active_id: u32) -> HyprWorkspaceInfo {
    spec_workspace_from_fields(
        json_unsigned(json_member(item, "id"@)),
        json_signed(json_member(item, "windows"@)),
        active_id,
    )
}

/// The workspace list that the two replies stand for: `JsonError` where one
/// of them is no JSON, `ParseError` where the list is no array, and else one
/// entry for each element, in the reply's order.
pub open spec fn spec_parse_all_workspaces(raw_data: Seq<u8>, raw_active: Seq<u8>) -> Result<
    Seq<HyprWorkspaceInfo>,
    HyprvisorError,
> {
    match (json_document(raw_active), json_document(raw_data)) {
        (Some(active), Some(all)) => match json_elements(all) {
            Some(items) => Ok(
                Seq::new(items.len(), |i: int| spec_workspace_of(items[i], spec_active_id(active))),
            ),
            None => Err(HyprvisorError::ParseError),
        },
        _ => Err(HyprvisorError::JsonError),
    }
}

/// In the list that two replies stand for, the active entries are those with
/// the id of the focused workspace. So at most one entry is active where the
/// window manager lists no id twice.
pub proof fn lemma_active_entries(raw_data: Seq<u8>, raw_active: Seq<u8>)
    requires
        spec_parse_all_workspaces(raw_data, raw_active) is Ok,
    ensures
        ({
            let list = spec_parse_all_workspaces(raw_data, raw_active).unwrap();
            let active_id = spec_active_id(json_document(raw_active).unwrap());
            &&& forall|i: int| 0 <= i < list.len() ==> (#[trigger] list[i].active <==> list[i].id == active_id)
            &&& forall|i: int, j: int|
                0 <= i < list.len() && 0 <= j < list.len() && list[i].active && list[j].active
                    ==> list[i].id == list[j].id
        }),
{
}

pub fn workspace_id(id: Option<u64>) -> (value: u32)
    ensures
        value == spec_workspace_id(id),
{
    match id {
        Some(id) => (id % 0x1_0000_0000u64) as u32,
        None => 0,
    }
}

/// Builds the entry of one workspace from the numbers its reply holds.
pub fn workspace_from_fields(id: Option<u64>, windows: Option<i64>, active_id: u32) -> (workspace:
    HyprWorkspaceInfo)
    ensures
        workspace == spec_workspace_from_fields(id, windows, active_id),
{
    let id = workspace_id(id);
    let occupied = match windows {
        Some(count) => count > 0,
        None => false,
    };
    HyprWorkspaceInfo { id, occupied, active: id == active_id }
}

/// Reads the id of the focused workspace from a reply to
/// `j/activeworkspace`.
pub fn get_activeworkspace_id(raw_data: &[u8]) -> (result: Result<u32, HyprvisorError>)
    ensures
        result == match json_document(raw_data@) {
            Some(active) => Ok::<u32, HyprvisorError>(spec_active_id(active)),
            None => Err::<u32, HyprvisorError>(HyprvisorError::JsonError),
        },
{
    match parse_document(raw_data) {
        Ok(active) => Ok(workspace_id(unsigned_of(member(&active, "id")))),
        Err(_) => Err(HyprvisorError::JsonError),
    }
}

/// Projects the replies to `j/workspaces` and `j/activeworkspace` to the
/// workspace list.
pub fn parse_all_workspaces(raw_data: &[u8], raw_active: &[u8]) -> (result: Result<
    Vec<HyprWorkspaceInfo>,
    HyprvisorError,
>)
    ensures
        match result {
            Ok(list) => spec_parse_all_workspaces(raw_data@, raw_active@) == Ok::<
                Seq<HyprWorkspaceInfo>,
                HyprvisorError,
            >(list@),
            Err(error) => spec_parse_all_workspaces(raw_data@, raw_active@) == Err::<
                Seq<HyprWorkspaceInfo>,
                HyprvisorError,
            >(error),
        },
{
    let active_id = match get_activeworkspace_id(raw_active) {
        Ok(id) => id,
        Err(error) => {
            return Err(error);
        },
    };
    let all = match parse_document(raw_data) {
        Ok(all) => all,
        Err(_) => {
            return Err(HyprvisorError::JsonError);
        },
    };
    let items = match elements_of(&all) {
        Some(items) => items,
        None => {
            return Err(HyprvisorError::ParseError);
        },
    };
    let mut list: Vec<HyprWorkspaceInfo> = Vec::new();
    let mut index: usize = 0;
    while index < items.len()
        invariant
            index <= items.len(),
            list@.len() == index,
            forall|i: int| 0 <= i < index ==> list@[i] == spec_workspace_of(items@[i], active_id),
        decreases items.len() - index,
    {
        let item = &items[index];
        let workspace = workspace_from_fields(
            unsigned_of(member(item, "id")),
            signed_of(member(item, "windows")),
            active_id,
        );
        list.push(workspace);
        index += 1;
    }
    assert(list@ =~= Seq::new(items@.len(), |i: int| spec_workspace_of(items@[i], active_id)));
    Ok(list)
}

/// Whether two workspace lists hold the same entries in the same order.
pub fn same_workspaces(first: &Vec<HyprWorkspaceInfo>, second: &Vec<HyprWorkspaceInfo>) -> (same:
    bool)
    ensures
        same == (first@ == second@),
{
    if first.len() != second.len() {
        return false;
    }
    let mut index: usize = 0;
    while index < first.len()
        invariant
            first@.len() == second@.len(),
            index <= first@.len(),
            forall|i: int| 0 <= i < index ==> first@[i] == second@[i],
        decreases first.len() - index,
    {
        if first[index] != second[index] {
            return false;
        }
        index += 1;
    }
    assert(first@ =~= second@);
    true
}

} // verus!
