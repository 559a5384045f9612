//! The last window and the last workspace list that were published.
//!
//! Updates are sent only when what the window manager reports differs from
//! what was published last.

use vstd::prelude::*;
use crate::error::HyprvisorError;
use crate::hyprland::window::{HyprWindowInfo, WindowView};
use crate::hyprland::workspace::{same_workspaces, HyprWorkspaceInfo};

verus! {

/// The published state as a mathematical value.
pub struct ListenerView {
    pub window: WindowView,
    pub workspaces: Seq<HyprWorkspaceInfo>,
}

#[derive(Debug)]
pub struct HyprListener {
    pub current_window: HyprWindowInfo,
    pub current_workspace: Vec<HyprWorkspaceInfo>,
}

impl View for HyprListener {
    type V = ListenerView;

    open spec fn view(&self) -> ListenerView {
        ListenerView { window: self.current_window@, workspaces: self.current_workspace@ }
    }
}

/// Whether a sample has to be published: exactly when it differs from what
/// was published last.
pub open spec fn spec_is_news<S>(published: S, sample: S) -> bool {
    published != sample
}

/// A sample that equals the one before it is never published: whatever was
/// published before, after a sample was handled the same sample is no news.
pub proof fn lemma_repeated_sample_is_no_news<S>(published: S, first: S, second: S)
    requires
        first == second,
    ensures
        !spec_is_news(
            if spec_is_news(published, first) {
                first
            } else {
                published
            },
            second,
        ),
{
}

impl HyprListener {
    /// The state before anything was published: no window and no workspace.
    pub fn new() -> (listener: HyprListener)
        ensures
            listener@.window.class == Seq::<char>::empty(),
            listener@.window.title == Seq::<char>::empty(),
            listener@.workspaces == Seq::<HyprWorkspaceInfo>::empty(),
    {
        HyprListener { current_window: HyprWindowInfo::default(), current_workspace: Vec::new() }
    }

    /// Takes note of the focused window that was just looked up. `Ok` means
    /// that it is news and has to be sent; `FalseAlarm` that it is the
    /// window published last.
    pub fn handle_window(&mut self, window: HyprWindowInfo) -> (result: Result<
        (),
        HyprvisorError,
    >)
        ensures
            result is Ok <==> spec_is_news(old(self)@.window, window@),
            result is Err ==> result == Err::<(), HyprvisorError>(HyprvisorError::FalseAlarm),
            final(self)@.window == window@,
            final(self)@.workspaces == old(self)@.workspaces,
    {
        if self.current_window == window {
            return Err(HyprvisorError::FalseAlarm);
        }
        self.current_window = window;
        Ok(())
    }

    /// Takes note of the workspace list that was just looked up. `Ok` means
    /// that it is news and has to be sent; `FalseAlarm` that it is the list
    /// published last.
    pub fn handle_workspaces(&mut self, workspaces: Vec<HyprWorkspaceInfo>) -> (result: Result<
        (),
        HyprvisorError,
    >)
        ensures
            result is Ok <==> spec_is_news(old(self)@.workspaces, workspaces@),
            result is Err ==> result == Err::<(), HyprvisorError>(HyprvisorError::FalseAlarm),
            final(self)@.workspaces == workspaces@,
            final(self)@.window == old(self)@.window,
    {
        if same_workspaces(&self.current_workspace, &workspaces) {
            return Err(HyprvisorError::FalseAlarm);
        }
        self.current_workspace = workspaces;
        Ok(())
    }
}

} // verus!
