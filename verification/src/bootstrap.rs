//! The thread-created bootstrap: deciding whether a fresh thread gets the
//! category-choice prompt, and building that prompt.
//!
//! When the platform reports a new thread, two sibling channels are
//! resolved by name inside the configured community: the support entry
//! point ("help") and the reference document ("faq"). A thread created
//! under the entry point receives the prompt with the four category
//! buttons and a link to the reference channel; a thread created anywhere
//! else receives nothing. A channel that cannot be resolved is a fatal
//! configuration error.

use vstd::prelude::*;

use crate::action::Action;
use crate::action::spec_action_id;
use crate::category::CategoryKind;
use crate::category::spec_colour;
use crate::category::spec_emoji;
use crate::message::ButtonKind;
use crate::message::ButtonSpec;
use crate::message::EmbedSpec;
use crate::message::MessageSpec;
use crate::text::spec_decimal;
use crate::text::str_eq;
use crate::text::u64_to_string;

verus! {

/// A channel of the community, reduced to what the bootstrap reads: its
/// name and its numeric identity.
#[derive(Clone, PartialEq, Eq, Debug)]
pub struct ChannelRef {
    pub name: String,
    pub id: u64,
}

/// A required channel could not be resolved by name: fatal configuration
/// error.
#[derive(Clone, Copy, PartialEq, Eq, Structural, Debug)]
pub enum ConfigError {
    /// No channel named "help" exists in the community.
    MissingHelpChannel,
    /// No channel named "faq" exists in the community.
    MissingFaqChannel,
}

impl ConfigError {
    /// A short description of the error.
    pub fn message(&self) -> (r: &'static str)
        ensures
            *self == ConfigError::MissingHelpChannel ==> r@ == "No #help channel found"@,
            *self == ConfigError::MissingFaqChannel ==> r@ == "No #faq channel found"@,
    {
        match self {
            ConfigError::MissingHelpChannel => "No #help channel found",
            ConfigError::MissingFaqChannel => "No #faq channel found",
        }
    }
}

/// The index of the first channel carrying the given name, starting the
/// search at position `i`; nothing when no such channel follows.
pub open spec fn spec_find_from(chs: Seq<ChannelRef>, name: Seq<char>, i: int) -> Option<int>
    decreases chs.len() - i,
{
    if i < 0 || i >= chs.len() {
        None
    } else if chs[i].name@ == name {
        Some(i)
    } else {
        spec_find_from(chs, name, i + 1)
    }
}

/// The index of the first channel carrying the given name.
pub open spec fn spec_find_named(chs: Seq<ChannelRef>, name: Seq<char>) -> Option<int> {
    spec_find_from(chs, name, 0)
}

/// Finds the first channel with the given name.
pub fn find_channel_by_name(channels: &Vec<ChannelRef>, name: &str) -> (r: Option<usize>)
    ensures
        (match r {
            Some(k) => Some(k as int),
            None => None,
        }) == spec_find_named(channels@, name@),
{
    let mut i: usize = 0;
    while i < channels.len()
        invariant
            i <= channels@.len(),
            spec_find_named(channels@, name@) == spec_find_from(channels@, name@, i as int),
        decreases channels@.len() - i,
    {
        if str_eq(channels[i].name.as_str(), name) {
            return Some(i);
        }
        i += 1;
    }
    None
}

/// One of the four category buttons of the entry prompt.
pub open spec fn spec_is_category_button(b: ButtonSpec, k: CategoryKind, label: Seq<char>) -> bool {
    &&& b.kind == ButtonKind::Primary
    &&& b.custom_id matches Some(c) && c@ == spec_action_id(Action::OpenCategory(k))
    &&& b.label@ == label
    &&& b.emoji matches Some(em) && em@ == spec_emoji(k)
    &&& b.url is None
    &&& !b.disabled
}

/// The category-choice prompt posted into a thread under the entry
/// point: a welcome embed pointing at the reference channel, the four
/// category buttons, and a link button to the reference channel.
pub open spec fn spec_is_help_prompt(m: MessageSpec, faq_id: int) -> bool {
    &&& m.content@ == Seq::<char>::empty()
    &&& m.select is None
    &&& m.embed matches Some(e) && ({
        &&& e.colour == spec_colour(CategoryKind::Help)
        &&& e.title@ == "\u{1f91d} Welcome to Help"@
        &&& e.description@ == "Before you create a help thread, you should read <#"@
            + spec_decimal(faq_id) + "> first."@
        &&& e.tags_field is None
        &&& e.footer is None
    })
    &&& m.buttons@.len() == 5
    &&& spec_is_category_button(m.buttons@[0], CategoryKind::Help, "I need help"@)
    &&& spec_is_category_button(m.buttons@[1], CategoryKind::Question, "I have a question"@)
    &&& spec_is_category_button(m.buttons@[2], CategoryKind::Bug, "I've found a bug or problem"@)
    &&& spec_is_category_button(
        m.buttons@[3],
        CategoryKind::Feature,
        "I have a feature suggestion"@,
    )
    &&& ({
        let b = m.buttons@[4];
        &&& b.kind == ButtonKind::Link
        &&& b.custom_id is None
        &&& b.label@ == "FAQ"@
        &&& b.emoji is None
        &&& b.url matches Some(u) && u@ == "https://discord.com/channels/525056817399726102/"@
            + spec_decimal(faq_id)
        &&& !b.disabled
    })
}

fn category_button(kind: CategoryKind, label: &'static str) -> (b: ButtonSpec)
    ensures
        spec_is_category_button(b, kind, label@),
{
    ButtonSpec {
        kind: ButtonKind::Primary,
        custom_id: Some(String::from_str(Action::OpenCategory(kind).id())),
        label: String::from_str(label),
        emoji: Some(String::from_str(kind.emoji())),
        url: None,
        disabled: false,
    }
}

/// Builds the category-choice prompt, pointing at the given reference
/// channel.
pub fn build_help_prompt(faq_channel_id: u64) -> (m: MessageSpec)
    ensures
        spec_is_help_prompt(m, faq_channel_id as int),
{
    let faq_id = u64_to_string(faq_channel_id);
    let description = String::from_str("Before you create a help thread, you should read <#")
        .concat(faq_id.as_str()).concat("> first.");
    let embed = EmbedSpec {
        colour: CategoryKind::Help.colour(),
        title: String::from_str("\u{1f91d} Welcome to Help"),
        description,
        tags_field: None,
        footer: None,
    };
    let mut buttons: Vec<ButtonSpec> = Vec::new();
    buttons.push(category_button(CategoryKind::Help, "I need help"));
    buttons.push(category_button(CategoryKind::Question, "I have a question"));
    buttons.push(category_button(CategoryKind::Bug, "I've found a bug or problem"));
    buttons.push(category_button(CategoryKind::Feature, "I have a feature suggestion"));
    buttons.push(
        ButtonSpec {
            kind: ButtonKind::Link,
            custom_id: None,
            label: String::from_str("FAQ"),
            emoji: None,
            url: Some(
                String::from_str("https://discord.com/channels/525056817399726102/").concat(
                    faq_id.as_str(),
                ),
            ),
            disabled: false,
        },
    );
    MessageSpec { content: String::new(), embed: Some(embed), buttons, select: None }
}

/// Decides what a fresh thread under the given parent receives.
///
/// Resolving "help" or "faq" can fail, fatally; otherwise the prompt is
/// produced exactly when the parent is the support entry point.
pub fn bootstrap_decision(channels: &Vec<ChannelRef>, parent_id: u64) -> (r: Result<
    Option<MessageSpec>,
    ConfigError,
>)
    ensures
        spec_find_named(channels@, "help"@) is None ==> (r matches Err(e) && e
            == ConfigError::MissingHelpChannel),
        spec_find_named(channels@, "help"@) is Some && spec_find_named(channels@, "faq"@) is None
            ==> (r matches Err(e) && e == ConfigError::MissingFaqChannel),
        spec_find_named(channels@, "help"@) matches Some(h) ==> spec_find_named(
            channels@,
            "faq"@,
        ) matches Some(f) ==> ({
            if parent_id == channels@[h].id {
                r matches Ok(op) && op matches Some(m) && spec_is_help_prompt(
                    m,
                    channels@[f].id as int,
                )
            } else {
                r matches Ok(op) && op is None
            }
        }),
{
    let help_index = match find_channel_by_name(channels, "help") {
        Some(i) => i,
        None => {
            return Err(ConfigError::MissingHelpChannel);
        },
    };
    let faq_index = match find_channel_by_name(channels, "faq") {
        Some(i) => i,
        None => {
            return Err(ConfigError::MissingFaqChannel);
        },
    };
    proof {
        lemma_find_in_range(channels@, "help"@, 0);
        lemma_find_in_range(channels@, "faq"@, 0);
    }
    if parent_id == channels[help_index].id {
        Ok(Some(build_help_prompt(channels[faq_index].id)))
    } else {
        Ok(None)
    }
}

/// A found index lies inside the sequence.
proof fn lemma_find_in_range(chs: Seq<ChannelRef>, name: Seq<char>, i: int)
    requires
        0 <= i,
    ensures
        spec_find_from(chs, name, i) matches Some(k) ==> i <= k < chs.len(),
    decreases chs.len() - i,
{
    if i < chs.len() && chs[i].name@ != name {
        lemma_find_in_range(chs, name, i + 1);
    }
}

} // verus!
