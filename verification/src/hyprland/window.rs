//! The focused-window feed.

use vstd::prelude::*;
use crate::error::HyprvisorError;
use crate::hyprland::json::{json_document, json_member, json_text, member, parse_document, text_of};

verus! {

/// A focused window as a mathematical value.
pub struct WindowView {
    pub class: Seq<char>,
    pub title: Seq<char>,
}

#[derive(Debug)]
pub struct HyprWindowInfo {
    pub class: String,
    pub title: String,
}

impl View for HyprWindowInfo {
    type V = WindowView;

    open spec fn view(&self) -> WindowView {
        WindowView { class: self.class@, title: self.title@ }
    }
}

impl Clone for HyprWindowInfo {
    fn clone(&self) -> (copy: HyprWindowInfo)
        ensures
            copy@ == self@,
    {
        HyprWindowInfo { class: self.class.clone(), title: self.title.clone() }
    }
}

impl Default for HyprWindowInfo {
    fn default() -> (window: HyprWindowInfo)
        ensures
            window@ == spec_window_from_fields(None, None),
    {
        HyprWindowInfo { class: String::new(), title: String::new() }
    }
}

impl PartialEq for HyprWindowInfo {
    fn eq(&self, other: &HyprWindowInfo) -> (same: bool) {
        self.class == other.class && self.title == other.title
    }
}

impl vstd::std_specs::cmp::PartialEqSpecImpl for HyprWindowInfo {
    open spec fn obeys_eq_spec() -> bool {
        true
    }

    open spec fn eq_spec(&self, other: &HyprWindowInfo) -> bool {
        self.class@ == other.class@ && self.title@ == other.title@
    }
}

impl Eq for HyprWindowInfo {

}

/// The text of an optional field: empty where the field is absent.
pub open spec fn spec_text_or_empty(text: Option<Seq<char>>) -> Seq<char> {
    match text {
        Some(text) => text,
        None => Seq::empty(),
    }
}

/// The window whose reply holds the fields `class` and `title`.
pub open spec fn spec_window_from_fields(
    class: Option<Seq<char>>,
    title: Option<Seq<char>>,
) -> WindowView {
    WindowView { class: spec_text_or_empty(class), title: spec_text_or_empty(title) }
}

/// The window that a reply to `j/activewindow` stands for: `JsonError` where
/// it is no JSON, and else its `class` and `title` strings, each empty where
/// the reply has no such string.
pub open spec fn spec_parse_window(raw_data: Seq<u8>) -> Result<WindowView, HyprvisorError> {
    match json_document(raw_data) {
        Some(reply) => Ok(
            spec_window_from_fields(
                json_text(json_member(reply, "class"@)),
                json_text(json_member(reply, "title"@)),
            ),
        ),
        None => Err(HyprvisorError::JsonError),
    }
}

/// Builds the window from the two strings its reply holds.
pub fn window_from_fields(class: Option<String>, title: Option<String>) -> (window: HyprWindowInfo)
    ensures
        window@ == spec_window_from_fields(
            match class {
                Some(text) => Some(text@),
                None => None,
            },
            match title {
                Some(text) => Some(text@),
                None => None,
            },
        ),
{
    let class = match class {
        Some(text) => text,
        None => String::new(),
    };
    let title = match title {
        Some(text) => text,
        None => String::new(),
    };
    HyprWindowInfo { class, title }
}

/// Reads the focused window from a reply to `j/activewindow`.
pub fn parse_window(raw_data: &[u8]) -> (result: Result<HyprWindowInfo, HyprvisorError>)
    ensures
        match result {
            Ok(window) => spec_parse_window(raw_data@) == Ok::<WindowView, HyprvisorError>(
                window@,
            ),
            Err(error) => spec_parse_window(raw_data@) == Err::<WindowView, HyprvisorError>(
                error,
            ),
        },
{
    match parse_document(raw_data) {
        Ok(reply) => {
            let class = text_of(member(&reply, "class"));
            let title = text_of(member(&reply, "title"));
            Ok(window_from_fields(class, title))
        },
        Err(_) => Err(HyprvisorError::JsonError),
    }
}

} // verus!
