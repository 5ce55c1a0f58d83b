//! The title acquisition workflow and its session state machine.
//!
//! A session starts when a category button is pressed: a private thread is
//! provisioned, the prompt message that carried the buttons is deleted, a
//! pinned prompt asks the user for a short description, and the session
//! waits for exactly one message from that user in the new thread, for at
//! most the fixed deadline. Receiving a message finalizes the thread
//! (state `Active`); receiving none closes it (state `TimedOutClosed`).
//! Those two are the only terminal states, and no session reaches both.

use vstd::prelude::*;

use crate::action::Action;
use crate::category::CategoryKind;
use crate::category::spec_colour;
use crate::category::spec_emoji;
use crate::category::spec_label;
use crate::category::spec_noun;
use crate::message::ButtonKind;
use crate::message::ButtonSpec;
use crate::message::EditSpec;
use crate::message::EmbedFooter;
use crate::message::EmbedSpec;
use crate::message::MessageSpec;
use crate::tags::spec_sentinel;
use crate::tags::no_tags_sentinel;
use crate::text::spec_decimal;
use crate::text::spec_discriminator;
use crate::text::discriminator_string;
use crate::text::u64_to_string;

verus! {

/// How long a session waits for the user's title message, in seconds.
pub const TITLE_WAIT_SECS: u64 = 600;

/// How long a transient closing notice is left visible before the thread
/// behind it is deleted, in seconds.
pub const CLOSING_NOTICE_SECS: u64 = 1;

/// The states one session passes through.
#[derive(Clone, Copy, PartialEq, Eq, Structural, Debug)]
pub enum SessionState {
    /// No thread exists yet: the category button has just been pressed.
    Idle,
    /// The thread exists and the session awaits the user's title message.
    ThreadOpen,
    /// The deadline passed with no qualifying message; the thread is gone.
    TimedOutClosed,
    /// A title arrived in time; the thread is finalized and stays open.
    Active,
}

/// The two states a session can end in.
pub open spec fn is_terminal(s: SessionState) -> bool {
    s == SessionState::TimedOutClosed || s == SessionState::Active
}

/// The session state machine's transition relation.
pub open spec fn spec_step(pre: SessionState, post: SessionState) -> bool {
    ||| (pre == SessionState::Idle && post == SessionState::ThreadOpen)
    ||| (pre == SessionState::ThreadOpen && is_terminal(post))
    ||| (pre == SessionState::Active && post == SessionState::Active)
}

/// The state the title wait resolves to: `Active` exactly when a
/// qualifying message arrived before the deadline.
pub open spec fn spec_outcome_state(got_message: bool) -> SessionState {
    if got_message {
        SessionState::Active
    } else {
        SessionState::TimedOutClosed
    }
}

/// Every session reaches exactly one terminal state: the title wait ends
/// in `TimedOutClosed` or in `Active`, never in both, and each outcome
/// happens for exactly one result of the wait.
pub proof fn lemma_exactly_one_terminal(got_message: bool)
    ensures
        is_terminal(spec_outcome_state(got_message)),
        (spec_outcome_state(got_message) == SessionState::TimedOutClosed) <==> !got_message,
        (spec_outcome_state(got_message) == SessionState::Active) <==> got_message,
{
}

/// Terminal states stay terminal: nothing leaves `TimedOutClosed`, and
/// from `Active` only `Active` is reachable — in particular, no session
/// that reached one terminal state can ever reach the other, and there is
/// no way back to `ThreadOpen`.
pub proof fn lemma_terminal_states_are_final(pre: SessionState, post: SessionState)
    requires
        is_terminal(pre),
        spec_step(pre, post),
    ensures
        post == pre,
        pre == SessionState::Active,
{
}

/// The user identity a session works with, as plain values already
/// extracted from the triggering interaction.
#[derive(Clone, PartialEq, Eq, Debug)]
pub struct UserInfo {
    /// The platform-wide numeric identity, used to mention the user and
    /// to filter the title wait to their messages.
    pub user_id: u64,
    /// The name shown in the community, used to name the thread.
    pub display_name: String,
    /// The account name, credited in the summary footer.
    pub username: String,
    /// The numeric account tag, credited beside the account name.
    pub discriminator: u16,
    /// The user's avatar image, already resolved to a URL.
    pub avatar_url: String,
}

/// The possessive suffix for a display name: a bare apostrophe after a
/// name ending in "s" of either case, "'s" after anything else.
pub open spec fn spec_possessive_suffix(name: Seq<char>) -> Seq<char> {
    if name.len() > 0 && (name.last() == 's' || name.last() == 'S') {
        "'"@
    } else {
        "'s"@
    }
}

/// The possessive rule in both directions: a name whose last character is
/// "s" or "S" takes the bare apostrophe, and only such a name does.
pub proof fn lemma_possessive_rule(name: Seq<char>)
    requires
        name.len() >= 1,
    ensures
        (name.last() == 's' || name.last() == 'S') ==> spec_possessive_suffix(name) == "'"@,
        !(name.last() == 's' || name.last() == 'S') ==> spec_possessive_suffix(name) == "'s"@,
{
}

/// The provisional name of a fresh thread: the category's emoji, the
/// user's display name with its possessive suffix, and "thread".
pub open spec fn spec_thread_name(k: CategoryKind, name: Seq<char>) -> Seq<char> {
    spec_emoji(k) + " "@ + name + spec_possessive_suffix(name) + " thread"@
}

/// Builds the provisional thread name for a fresh session.
pub fn thread_name_for(kind: CategoryKind, display_name: &str) -> (r: String)
    requires
        display_name@.len() >= 1,
    ensures
        r@ == spec_thread_name(kind, display_name@),
{
    let len = display_name.unicode_len();
    let last = display_name.get_char(len - 1);
    let suffix: &'static str = if last == 's' || last == 'S' {
        "'"
    } else {
        "'s"
    };
    let r = String::from_str(kind.emoji()).concat(" ").concat(display_name).concat(suffix).concat(
        " thread",
    );
    proof {
        assert(r@ =~= spec_thread_name(kind, display_name@));
    }
    r
}

/// The fixed action row under a thread's pinned prompt: an add-tags
/// button, disabled until the thread is finalized, and a close button.
pub open spec fn spec_thread_buttons(bs: Seq<ButtonSpec>, add_tags_disabled: bool) -> bool {
    &&& bs.len() == 2
    &&& bs[0].kind == ButtonKind::Secondary
    &&& bs[0].custom_id matches Some(c) && c@ == crate::action::spec_action_id(Action::AddTags)
    &&& bs[0].label@ == "Add tags"@
    &&& bs[0].emoji is None
    &&& bs[0].url is None
    &&& bs[0].disabled == add_tags_disabled
    &&& bs[1].kind == ButtonKind::Secondary
    &&& bs[1].custom_id matches Some(c) && c@ == crate::action::spec_action_id(Action::CloseThread)
    &&& bs[1].label@ == "Close thread"@
    &&& bs[1].emoji is None
    &&& bs[1].url is None
    &&& !bs[1].disabled
}

/// Builds the action row shown under a thread's pinned prompt.
pub fn thread_action_row(add_tags_disabled: bool) -> (r: Vec<ButtonSpec>)
    ensures
        spec_thread_buttons(r@, add_tags_disabled),
{
    let mut r: Vec<ButtonSpec> = Vec::new();
    r.push(
        ButtonSpec {
            kind: ButtonKind::Secondary,
            custom_id: Some(String::from_str(Action::AddTags.id())),
            label: String::from_str("Add tags"),
            emoji: None,
            url: None,
            disabled: add_tags_disabled,
        },
    );
    r.push(
        ButtonSpec {
            kind: ButtonKind::Secondary,
            custom_id: Some(String::from_str(Action::CloseThread.id())),
            label: String::from_str("Close thread"),
            emoji: None,
            url: None,
            disabled: false,
        },
    );
    r
}

/// The bounded wait that follows thread creation: at most one message
/// from the session's user, within the fixed deadline.
#[derive(Clone, Copy, PartialEq, Eq, Structural, Debug)]
pub struct CollectorSpec {
    /// Only messages by this author qualify.
    pub author_id: u64,
    /// The wait ends as soon as this many messages have matched.
    pub limit: u64,
    /// The wait ends at the latest after this many seconds.
    pub timeout_secs: u64,
}

/// Everything a fresh session asks of the platform before its title wait:
/// provision the thread, drop the triggering prompt, post and pin the
/// title prompt, then collect the user's next message in the thread.
pub struct SessionStart {
    /// The session's state while the wait runs.
    pub state: SessionState,
    /// The name of the private thread to create under the channel that
    /// hosted the pressed button.
    pub thread_name: String,
    /// Whether the message carrying the category buttons is deleted, so
    /// the session cannot be triggered twice.
    pub delete_prompt: bool,
    /// The message to post and pin inside the new thread.
    pub title_prompt: MessageSpec,
    /// The bounded wait for the user's title message in the new thread.
    pub wait: CollectorSpec,
}

/// Opens a session: decides the thread name, the pinned title prompt and
/// the parameters of the single-message wait.
pub fn begin_session(kind: CategoryKind, user: &UserInfo) -> (s: SessionStart)
    requires
        user.display_name@.len() >= 1,
    ensures
        s.state == SessionState::ThreadOpen,
        s.thread_name@ == spec_thread_name(kind, user.display_name@),
        s.delete_prompt,
        s.title_prompt.content@ == "<@"@ + spec_decimal(user.user_id as int) + ">"@,
        s.title_prompt.embed matches Some(e) && {
            &&& e.colour == spec_colour(kind)
            &&& e.title@ == "\u{1f3f7}\u{fe0f} Set the thread title"@
            &&& e.description@ == "Provide a **short description** of your "@ + spec_noun(kind)
                + " by typing into the thread."@
            &&& e.tags_field is None
            &&& e.footer matches Some(f) && f.text@
                == "The thread will automatically close if there is no activity within 10 minutes."@
                && f.icon_url is None
        },
        s.title_prompt.select is None,
        spec_thread_buttons(s.title_prompt.buttons@, true),
        s.wait.author_id == user.user_id,
        s.wait.limit == 1,
        s.wait.timeout_secs == TITLE_WAIT_SECS,
{
    let thread_name = thread_name_for(kind, user.display_name.as_str());
    let idstr = u64_to_string(user.user_id);
    let content = String::from_str("<@").concat(idstr.as_str()).concat(">");
    let description = String::from_str("Provide a **short description** of your ").concat(
        kind.noun(),
    ).concat(" by typing into the thread.");
    let embed = EmbedSpec {
        colour: kind.colour(),
        title: String::from_str("\u{1f3f7}\u{fe0f} Set the thread title"),
        description,
        tags_field: None,
        footer: Some(
            EmbedFooter {
                text: String::from_str(
                    "The thread will automatically close if there is no activity within 10 minutes.",
                ),
                icon_url: None,
            },
        ),
    };
    let title_prompt = MessageSpec {
        content,
        embed: Some(embed),
        buttons: thread_action_row(true),
        select: None,
    };
    SessionStart {
        state: SessionState::ThreadOpen,
        thread_name,
        delete_prompt: true,
        title_prompt,
        wait: CollectorSpec {
            author_id: user.user_id,
            limit: 1,
            timeout_secs: TITLE_WAIT_SECS,
        },
    }
}

/// What the platform is asked to do once the title wait has resolved.
pub struct TitleResolution {
    /// The session's terminal state.
    pub state: SessionState,
    /// The thread's final name, where the thread is renamed.
    pub rename_to: Option<String>,
    /// The edit applied to the pinned prompt.
    pub prompt_edit: EditSpec,
    /// Seconds to leave the edit visible before any deletion follows.
    pub delay_secs: u64,
    /// Whether the thread is deleted. True is exactly one delete call;
    /// false is none.
    pub delete_thread: bool,
}

/// The number of thread-delete calls a resolution asks for.
pub open spec fn spec_delete_calls(r: TitleResolution) -> int {
    if r.delete_thread {
        1
    } else {
        0
    }
}

/// Resolves the title wait.
///
/// With no collected message the session times out: the pinned prompt
/// becomes a closing notice with embeds suppressed, and after the fixed
/// delay the thread is deleted — exactly one delete call. With a
/// collected message the session becomes active: the thread is renamed
/// after the message's text, the pinned prompt becomes the summary embed
/// crediting the user, the tags field starts at the sentinel, the
/// add-tags button becomes enabled — and no delete call is made.
pub fn resolve_title_wait(kind: CategoryKind, user: &UserInfo, collected: &Option<String>) -> (r:
    TitleResolution)
    ensures
        r.state == spec_outcome_state(collected is Some),
        is_terminal(r.state),
        spec_step(SessionState::ThreadOpen, r.state),
        collected is None ==> spec_delete_calls(r) == 1,
        collected is Some ==> spec_delete_calls(r) == 0,
        collected is None ==> {
            &&& r.rename_to is None
            &&& r.prompt_edit.content@ == "Closing thread..."@
            &&& r.prompt_edit.suppress_embeds
            &&& r.prompt_edit.embed is None
            &&& r.prompt_edit.buttons@.len() == 0
            &&& r.delay_secs == CLOSING_NOTICE_SECS
        },
        collected matches Some(title) ==> {
            &&& r.rename_to matches Some(n) && n@ == spec_emoji(kind) + " "@ + title@
            &&& r.prompt_edit.content@ == Seq::<char>::empty()
            &&& !r.prompt_edit.suppress_embeds
            &&& r.delay_secs == 0
            &&& spec_thread_buttons(r.prompt_edit.buttons@, false)
            &&& r.prompt_edit.embed matches Some(e) && {
                &&& e.colour == spec_colour(kind)
                &&& e.title@ == spec_emoji(kind) + " "@ + spec_label(kind)
                &&& e.description@ == title@
                &&& e.tags_field matches Some(t) && t@ == spec_sentinel()
                &&& e.footer matches Some(f) && ({
                    &&& f.text@ == "Opened by "@ + user.username@ + "#"@ + spec_discriminator(
                        user.discriminator as int,
                    )
                    &&& f.icon_url matches Some(u) && u@ == user.avatar_url@
                })
            }
        },
{
    match collected {
        None => TitleResolution {
            state: SessionState::TimedOutClosed,
            rename_to: None,
            prompt_edit: EditSpec {
                content: String::from_str("Closing thread..."),
                suppress_embeds: true,
                embed: None,
                buttons: Vec::new(),
            },
            delay_secs: CLOSING_NOTICE_SECS,
            delete_thread: true,
        },
        Some(title) => {
            let rename_to = String::from_str(kind.emoji()).concat(" ").concat(title.as_str());
            let footer_text = String::from_str("Opened by ").concat(user.username.as_str()).concat(
                "#",
            ).concat(discriminator_string(user.discriminator).as_str());
            let embed = EmbedSpec {
                colour: kind.colour(),
                title: String::from_str(kind.emoji()).concat(" ").concat(kind.label()),
                description: title.clone(),
                tags_field: Some(String::from_str(no_tags_sentinel())),
                footer: Some(
                    EmbedFooter { text: footer_text, icon_url: Some(user.avatar_url.clone()) },
                ),
            };
            TitleResolution {
                state: SessionState::Active,
                rename_to: Some(rename_to),
                prompt_edit: EditSpec {
                    content: String::new(),
                    suppress_embeds: false,
                    embed: Some(embed),
                    buttons: thread_action_row(false),
                },
                delay_secs: 0,
                delete_thread: false,
            }
        },
    }
}

/// The suppress-and-delete sequence behind the close button: a closing
/// notice replaces the pressed message with embeds suppressed, stays
/// visible for the fixed delay, and then the thread is deleted.
pub struct ClosePlan {
    /// The edit applied to the message whose button was pressed.
    pub edit: EditSpec,
    /// Seconds to leave the notice visible before the deletion.
    pub delay_secs: u64,
    /// Whether the thread is deleted; always true for this plan.
    pub delete_thread: bool,
}

/// Decides the close-thread sequence.
pub fn close_thread_plan() -> (r: ClosePlan)
    ensures
        r.edit.content@ == "Closing thread..."@,
        r.edit.suppress_embeds,
        r.edit.embed is None,
        r.edit.buttons@.len() == 0,
        r.delay_secs == CLOSING_NOTICE_SECS,
        r.delete_thread,
{
    ClosePlan {
        edit: EditSpec {
            content: String::from_str("Closing thread..."),
            suppress_embeds: true,
            embed: None,
            buttons: Vec::new(),
        },
        delay_secs: CLOSING_NOTICE_SECS,
        delete_thread: true,
    }
}

} // verus!
