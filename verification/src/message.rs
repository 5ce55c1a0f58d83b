//! Plain descriptions of the messages the orchestrator asks the platform to
//! send or edit.
//!
//! The orchestrator never talks to the network itself: it returns values of
//! these types, and the surrounding binary translates them into platform
//! calls. Each type carries exactly the attributes the orchestrator decides;
//! everything else about a message is the platform's own business.

use vstd::prelude::*;

use crate::category::Rgb;

verus! {

/// The visual style of a button.
#[derive(Clone, Copy, PartialEq, Eq, Structural, Debug)]
pub enum ButtonKind {
    /// A prominent clickable button carrying an action identifier.
    Primary,
    /// A muted clickable button carrying an action identifier.
    Secondary,
    /// A button that merely opens a URL.
    Link,
}

/// One button in a message's action row.
#[derive(Clone, PartialEq, Eq, Debug)]
pub struct ButtonSpec {
    pub kind: ButtonKind,
    /// The action identifier a press reports; `None` for link buttons.
    pub custom_id: Option<String>,
    pub label: String,
    /// An emoji shown on the button, if any.
    pub emoji: Option<String>,
    /// The target of a link button; `None` for ordinary buttons.
    pub url: Option<String>,
    pub disabled: bool,
}

/// The footer line of an embed.
#[derive(Clone, PartialEq, Eq, Debug)]
pub struct EmbedFooter {
    pub text: String,
    pub icon_url: Option<String>,
}

/// An embed: the decorated block carrying a workflow message's content.
#[derive(Clone, PartialEq, Eq, Debug)]
pub struct EmbedSpec {
    pub colour: Rgb,
    pub title: String,
    pub description: String,
    /// The rendered value of the tags field, where the embed has one.
    pub tags_field: Option<String>,
    pub footer: Option<EmbedFooter>,
}

/// One selectable entry of a multi-select control.
#[derive(Clone, PartialEq, Eq, Debug)]
pub struct SelectOptionSpec {
    pub value: String,
    pub label: String,
    /// Whether the entry starts out selected when the control is shown.
    pub preselected: bool,
}

/// A multi-select control over a fixed catalog of entries.
#[derive(Clone, PartialEq, Eq, Debug)]
pub struct SelectMenuSpec {
    pub custom_id: String,
    pub placeholder: String,
    pub min_values: u8,
    pub max_values: u8,
    pub options: Vec<SelectOptionSpec>,
}

/// A message to send: content, at most one embed, an action row of buttons,
/// and at most one select control.
#[derive(Clone, PartialEq, Eq, Debug)]
pub struct MessageSpec {
    pub content: String,
    pub embed: Option<EmbedSpec>,
    pub buttons: Vec<ButtonSpec>,
    pub select: Option<SelectMenuSpec>,
}

/// An edit to apply to an already-sent message.
#[derive(Clone, PartialEq, Eq, Debug)]
pub struct EditSpec {
    pub content: String,
    /// Whether existing embeds are hidden by this edit.
    pub suppress_embeds: bool,
    /// A replacement embed, where the edit installs one.
    pub embed: Option<EmbedSpec>,
    /// The replacement action row, where the edit installs one.
    pub buttons: Vec<ButtonSpec>,
}

} // verus!
