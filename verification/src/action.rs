//! Routing of inbound interactions by their action identifier.
//!
//! Every control the orchestrator posts carries an identifier in a small
//! namespace. An inbound interaction is routed by matching its identifier
//! against that closed set; anything else is ignored.

use vstd::prelude::*;

use crate::category::CategoryKind;
use crate::text::str_eq;

verus! {

/// The recognized kinds of inbound interaction.
#[derive(Clone, Copy, PartialEq, Eq, Structural, Debug)]
pub enum Action {
    /// A category button was pressed: open the title acquisition workflow.
    OpenCategory(CategoryKind),
    /// The close button was pressed: show a closing notice, then delete.
    CloseThread,
    /// The add-tags button was pressed: open the tag selection dialog.
    AddTags,
    /// The tag selection control itself changed; its chosen values apply.
    TagsSelect,
    /// The tag dialog's dismiss button was pressed: drop the dialog.
    TagsSelectDismiss,
}

/// The identifier carried by each control the orchestrator posts.
pub open spec fn spec_action_id(a: Action) -> Seq<char> {
    match a {
        Action::OpenCategory(CategoryKind::Help) => "assist-help"@,
        Action::OpenCategory(CategoryKind::Question) => "assist-question"@,
        Action::OpenCategory(CategoryKind::Bug) => "assist-bug"@,
        Action::OpenCategory(CategoryKind::Feature) => "assist-feature"@,
        Action::CloseThread => "assist-close-thread"@,
        Action::AddTags => "assist-add-tags"@,
        Action::TagsSelect => "assist-tags-select"@,
        Action::TagsSelectDismiss => "assist-tags-select-dismiss"@,
    }
}

/// The routing map: an identifier in the namespace yields its action,
/// anything else yields nothing (the interaction is ignored).
pub open spec fn spec_parse_action(id: Seq<char>) -> Option<Action> {
    if id == spec_action_id(Action::CloseThread) {
        Some(Action::CloseThread)
    } else if id == spec_action_id(Action::TagsSelectDismiss) {
        Some(Action::TagsSelectDismiss)
    } else if id == spec_action_id(Action::AddTags) {
        Some(Action::AddTags)
    } else if id == spec_action_id(Action::TagsSelect) {
        Some(Action::TagsSelect)
    } else if id == spec_action_id(Action::OpenCategory(CategoryKind::Help)) {
        Some(Action::OpenCategory(CategoryKind::Help))
    } else if id == spec_action_id(Action::OpenCategory(CategoryKind::Question)) {
        Some(Action::OpenCategory(CategoryKind::Question))
    } else if id == spec_action_id(Action::OpenCategory(CategoryKind::Bug)) {
        Some(Action::OpenCategory(CategoryKind::Bug))
    } else if id == spec_action_id(Action::OpenCategory(CategoryKind::Feature)) {
        Some(Action::OpenCategory(CategoryKind::Feature))
    } else {
        None
    }
}

impl Action {
    /// The identifier to put on a control that should trigger this action.
    pub fn id(&self) -> (r: &'static str)
        ensures
            r@ == spec_action_id(*self),
    {
        match self {
            Action::OpenCategory(CategoryKind::Help) => "assist-help",
            Action::OpenCategory(CategoryKind::Question) => "assist-question",
            Action::OpenCategory(CategoryKind::Bug) => "assist-bug",
            Action::OpenCategory(CategoryKind::Feature) => "assist-feature",
            Action::CloseThread => "assist-close-thread",
            Action::AddTags => "assist-add-tags",
            Action::TagsSelect => "assist-tags-select",
            Action::TagsSelectDismiss => "assist-tags-select-dismiss",
        }
    }
}

/// Routes an interaction's identifier to the action it stands for, or
/// `None` for any identifier outside the recognized namespace.
pub fn parse_action(id: &str) -> (r: Option<Action>)
    ensures
        r == spec_parse_action(id@),
{
    if str_eq(id, "assist-close-thread") {
        Some(Action::CloseThread)
    } else if str_eq(id, "assist-tags-select-dismiss") {
        Some(Action::TagsSelectDismiss)
    } else if str_eq(id, "assist-add-tags") {
        Some(Action::AddTags)
    } else if str_eq(id, "assist-tags-select") {
        Some(Action::TagsSelect)
    } else if str_eq(id, "assist-help") {
        Some(Action::OpenCategory(CategoryKind::Help))
    } else if str_eq(id, "assist-question") {
        Some(Action::OpenCategory(CategoryKind::Question))
    } else if str_eq(id, "assist-bug") {
        Some(Action::OpenCategory(CategoryKind::Bug))
    } else if str_eq(id, "assist-feature") {
        Some(Action::OpenCategory(CategoryKind::Feature))
    } else {
        None
    }
}

} // verus!
