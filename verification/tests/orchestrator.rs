use assist::action::{parse_action, Action};
use assist::bootstrap::{bootstrap_decision, build_help_prompt, ChannelRef, ConfigError};
use assist::category::CategoryKind;
use assist::message::{ButtonKind, EmbedFooter, EmbedSpec};
use assist::tags::{
    apply_tag_selection, build_tag_dialog, parse_tags, render_tags, sort_tags_ci, tag_catalog,
};
use assist::text::{discriminator_string, str_ci_le, str_eq, u64_to_string};
use assist::workflow::{
    begin_session, close_thread_plan, resolve_title_wait, thread_name_for, SessionState, UserInfo,
};

fn ana() -> UserInfo {
    UserInfo {
        user_id: 77,
        display_name: "Ana".to_string(),
        username: "Ana".to_string(),
        discriminator: 1,
        avatar_url: "https://cdn.example/avatars/ana.png".to_string(),
    }
}

fn strings(v: &[&str]) -> Vec<String> {
    v.iter().map(|s| s.to_string()).collect()
}

#[test]
fn possessive_plain_name() {
    let name = thread_name_for(CategoryKind::Help, "Bob");
    assert_eq!(name, "\u{1f91d} Bob's thread");
}

#[test]
fn possessive_name_ending_in_s() {
    let name = thread_name_for(CategoryKind::Help, "James");
    assert_eq!(name, "\u{1f91d} James' thread");
}

#[test]
fn possessive_name_ending_in_capital_s() {
    let name = thread_name_for(CategoryKind::Question, "CHRIS");
    assert_eq!(name, "\u{1f64b} CHRIS' thread");
}

#[test]
fn empty_selection_renders_sentinel() {
    let rendered = render_tags(&Vec::new());
    assert_eq!(rendered, "*<no tags>*");
}

#[test]
fn rendering_keeps_selection_order() {
    let rendered = render_tags(&strings(&["Windows", "Linux"]));
    assert_eq!(rendered, "Windows, Linux");
}

#[test]
fn selection_order_beats_alphabetical_order() {
    // Prior tags "Linux, Windows"; the fresh selection event returns
    // ["Windows", "Linux"]; the displayed value follows the event.
    let prior = parse_tags("Linux, Windows");
    assert_eq!(prior, strings(&["Linux", "Windows"]));
    let presorted = sort_tags_ci(&prior);
    assert_eq!(presorted, strings(&["Linux", "Windows"]));
    let update = apply_tag_selection(&summary_embed(), &strings(&["Windows", "Linux"]));
    assert_eq!(update.summary.tags_field.as_deref(), Some("Windows, Linux"));
}

fn summary_embed() -> EmbedSpec {
    EmbedSpec {
        colour: CategoryKind::Bug.colour(),
        title: "\u{1f41e} Bug".to_string(),
        description: "Crashes on launch".to_string(),
        tags_field: Some("*<no tags>*".to_string()),
        footer: Some(EmbedFooter {
            text: "Opened by Ana#0001".to_string(),
            icon_url: Some("https://cdn.example/avatars/ana.png".to_string()),
        }),
    }
}

#[test]
fn second_selection_overwrites_first() {
    let after_a = apply_tag_selection(&summary_embed(), &strings(&["Linux"]));
    let mut embed = summary_embed();
    embed.tags_field = after_a.summary.tags_field.clone();
    let after_b = apply_tag_selection(&embed, &strings(&["Windows"]));
    assert_eq!(after_b.summary.tags_field.as_deref(), Some("Windows"));
}

#[test]
fn tag_update_keeps_everything_else() {
    let update = apply_tag_selection(&summary_embed(), &strings(&["BSD"]));
    assert!(update.delete_dialog);
    assert_eq!(update.ack, "Updated tags.");
    assert_eq!(update.summary.title, "\u{1f41e} Bug");
    assert_eq!(update.summary.description, "Crashes on launch");
    assert_eq!(update.summary.colour, CategoryKind::Bug.colour());
    let footer = update.summary.footer.expect("footer kept");
    assert_eq!(footer.text, "Opened by Ana#0001");
    assert_eq!(
        footer.icon_url.as_deref(),
        Some("https://cdn.example/avatars/ana.png")
    );
    assert_eq!(update.buttons.len(), 2);
    assert!(!update.buttons[0].disabled);
}

#[test]
fn sentinel_parses_to_empty_list() {
    assert!(parse_tags("*<no tags>*").is_empty());
}

#[test]
fn parse_then_render_round_trips() {
    let field = "Windows, Product: Dot One, BSD";
    assert_eq!(render_tags(&parse_tags(field)), field);
}

#[test]
fn presentation_sort_is_case_insensitive() {
    let sorted = sort_tags_ci(&strings(&["Windows", "linux", "BSD"]));
    assert_eq!(sorted, strings(&["BSD", "linux", "Windows"]));
}

#[test]
fn timeout_reaches_timed_out_closed_with_one_delete() {
    let r = resolve_title_wait(CategoryKind::Bug, &ana(), &None);
    assert_eq!(r.state, SessionState::TimedOutClosed);
    assert!(r.delete_thread);
    assert!(r.rename_to.is_none());
    assert_eq!(r.prompt_edit.content, "Closing thread...");
    assert!(r.prompt_edit.suppress_embeds);
    assert_eq!(r.delay_secs, 1);
}

#[test]
fn collected_message_reaches_active_with_no_delete() {
    let r = resolve_title_wait(CategoryKind::Bug, &ana(), &Some("anything".to_string()));
    assert_eq!(r.state, SessionState::Active);
    assert!(!r.delete_thread);
}

#[test]
fn bug_button_opens_ana_session() {
    // Ana clicks the "bug" category button in the support channel.
    assert_eq!(
        parse_action("assist-bug"),
        Some(Action::OpenCategory(CategoryKind::Bug))
    );
    let start = begin_session(CategoryKind::Bug, &ana());
    assert_eq!(start.state, SessionState::ThreadOpen);
    assert_eq!(start.thread_name, "\u{1f41e} Ana's thread");
    assert!(start.delete_prompt);
    let embed = start.title_prompt.embed.expect("prompt embed");
    assert_eq!(
        embed.description,
        "Provide a **short description** of your problem by typing into the thread."
    );
    let add_tags = &start.title_prompt.buttons[0];
    assert_eq!(add_tags.custom_id.as_deref(), Some("assist-add-tags"));
    assert!(add_tags.disabled);
    assert_eq!(start.wait.author_id, 77);
    assert_eq!(start.wait.limit, 1);
    assert_eq!(start.wait.timeout_secs, 600);
}

#[test]
fn ana_message_finalizes_the_thread() {
    let r = resolve_title_wait(
        CategoryKind::Bug,
        &ana(),
        &Some("Crashes on launch".to_string()),
    );
    assert_eq!(r.state, SessionState::Active);
    assert_eq!(r.rename_to.as_deref(), Some("\u{1f41e} Crashes on launch"));
    let embed = r.prompt_edit.embed.expect("summary embed");
    assert_eq!(embed.title, "\u{1f41e} Bug");
    assert_eq!(embed.description, "Crashes on launch");
    assert_eq!(embed.tags_field.as_deref(), Some("*<no tags>*"));
    let footer = embed.footer.expect("summary footer");
    assert_eq!(footer.text, "Opened by Ana#0001");
    assert_eq!(
        footer.icon_url.as_deref(),
        Some("https://cdn.example/avatars/ana.png")
    );
    assert!(!r.prompt_edit.buttons[0].disabled);
    assert_eq!(r.prompt_edit.buttons[1].custom_id.as_deref(), Some("assist-close-thread"));
}

#[test]
fn recognized_identifiers_route_to_their_actions() {
    assert_eq!(parse_action("assist-close-thread"), Some(Action::CloseThread));
    assert_eq!(
        parse_action("assist-tags-select-dismiss"),
        Some(Action::TagsSelectDismiss)
    );
    assert_eq!(parse_action("assist-add-tags"), Some(Action::AddTags));
    assert_eq!(parse_action("assist-tags-select"), Some(Action::TagsSelect));
    assert_eq!(
        parse_action("assist-help"),
        Some(Action::OpenCategory(CategoryKind::Help))
    );
    assert_eq!(
        parse_action("assist-question"),
        Some(Action::OpenCategory(CategoryKind::Question))
    );
    assert_eq!(
        parse_action("assist-feature"),
        Some(Action::OpenCategory(CategoryKind::Feature))
    );
}

#[test]
fn unrecognized_identifiers_are_ignored() {
    assert_eq!(parse_action(""), None);
    assert_eq!(parse_action("assist-"), None);
    assert_eq!(parse_action("assist-unknown"), None);
    assert_eq!(parse_action("close-thread"), None);
    assert_eq!(parse_action("assist-help-extra"), None);
}

#[test]
fn catalog_lists_the_ten_tags_in_order() {
    let catalog = tag_catalog();
    assert_eq!(
        catalog,
        strings(&[
            "Windows",
            "Linux",
            "macOS",
            "BSD",
            "Unix-like",
            "Product: Dot Browser for Desktop",
            "Product: Dot Browser for Android",
            "Product: Dot One",
            "Product: Dot Shield",
            "Product: Other",
        ])
    );
}

#[test]
fn dialog_preselects_exactly_the_prior_tags() {
    let prior = sort_tags_ci(&parse_tags("Linux, Windows"));
    let dialog = build_tag_dialog(CategoryKind::Bug.colour(), &prior);
    let select = dialog.select.expect("selection control");
    assert_eq!(select.custom_id, "assist-tags-select");
    assert_eq!(select.min_values, 0);
    assert_eq!(select.max_values, 10);
    let preselected: Vec<&str> = select
        .options
        .iter()
        .filter(|o| o.preselected)
        .map(|o| o.value.as_str())
        .collect();
    assert_eq!(preselected, vec!["Windows", "Linux"]);
    assert_eq!(dialog.buttons.len(), 1);
    assert_eq!(
        dialog.buttons[0].custom_id.as_deref(),
        Some("assist-tags-select-dismiss")
    );
    assert_eq!(dialog.buttons[0].label, "Dismiss");
}

#[test]
fn close_plan_suppresses_waits_and_deletes() {
    let plan = close_thread_plan();
    assert_eq!(plan.edit.content, "Closing thread...");
    assert!(plan.edit.suppress_embeds);
    assert_eq!(plan.delay_secs, 1);
    assert!(plan.delete_thread);
}

fn community() -> Vec<ChannelRef> {
    vec![
        ChannelRef { name: "general".to_string(), id: 10 },
        ChannelRef { name: "help".to_string(), id: 20 },
        ChannelRef { name: "faq".to_string(), id: 30 },
    ]
}

#[test]
fn thread_under_help_gets_the_prompt() {
    let decision = bootstrap_decision(&community(), 20).expect("resolved");
    let prompt = decision.expect("prompt posted");
    let embed = prompt.embed.expect("welcome embed");
    assert_eq!(embed.title, "\u{1f91d} Welcome to Help");
    assert_eq!(
        embed.description,
        "Before you create a help thread, you should read <#30> first."
    );
    assert_eq!(prompt.buttons.len(), 5);
    assert_eq!(prompt.buttons[0].custom_id.as_deref(), Some("assist-help"));
    assert_eq!(prompt.buttons[0].label, "I need help");
    assert_eq!(prompt.buttons[2].custom_id.as_deref(), Some("assist-bug"));
    assert_eq!(prompt.buttons[2].emoji.as_deref(), Some("\u{1f41e}"));
    assert_eq!(prompt.buttons[4].kind, ButtonKind::Link);
    assert_eq!(
        prompt.buttons[4].url.as_deref(),
        Some("https://discord.com/channels/525056817399726102/30")
    );
}

#[test]
fn thread_elsewhere_gets_nothing() {
    let decision = bootstrap_decision(&community(), 10).expect("resolved");
    assert!(decision.is_none());
}

#[test]
fn missing_help_channel_is_fatal() {
    let channels = vec![ChannelRef { name: "faq".to_string(), id: 30 }];
    let err = bootstrap_decision(&channels, 30).unwrap_err();
    assert_eq!(err, ConfigError::MissingHelpChannel);
    assert_eq!(err.message(), "No #help channel found");
}

#[test]
fn missing_faq_channel_is_fatal() {
    let channels = vec![ChannelRef { name: "help".to_string(), id: 20 }];
    let err = bootstrap_decision(&channels, 20).unwrap_err();
    assert_eq!(err, ConfigError::MissingFaqChannel);
    assert_eq!(err.message(), "No #faq channel found");
}

#[test]
fn help_prompt_uses_the_faq_identity() {
    let prompt = build_help_prompt(123456789);
    assert_eq!(
        prompt.embed.expect("embed").description,
        "Before you create a help thread, you should read <#123456789> first."
    );
}

#[test]
fn decimal_rendering() {
    assert_eq!(u64_to_string(0), "0");
    assert_eq!(u64_to_string(7), "7");
    assert_eq!(u64_to_string(600), "600");
    assert_eq!(u64_to_string(18446744073709551615), "18446744073709551615");
}

#[test]
fn discriminators_are_zero_padded() {
    assert_eq!(discriminator_string(1), "0001");
    assert_eq!(discriminator_string(42), "0042");
    assert_eq!(discriminator_string(607), "0607");
    assert_eq!(discriminator_string(9999), "9999");
}

#[test]
fn single_letter_name_ending_in_s() {
    assert_eq!(thread_name_for(CategoryKind::Help, "s"), "\u{1f91d} s' thread");
}

#[test]
fn single_tag_renders_bare() {
    assert_eq!(render_tags(&strings(&["Linux"])), "Linux");
}

#[test]
fn empty_field_round_trips_as_one_empty_tag() {
    let parsed = parse_tags("");
    assert_eq!(parsed, strings(&[""]));
    assert_eq!(render_tags(&parsed), "");
}

#[test]
fn comma_without_space_does_not_split() {
    assert_eq!(parse_tags("a,b"), strings(&["a,b"]));
}

#[test]
fn trailing_separator_yields_trailing_empty_piece() {
    let parsed = parse_tags("Linux, ");
    assert_eq!(parsed, strings(&["Linux", ""]));
    assert_eq!(render_tags(&parsed), "Linux, ");
}

#[test]
fn string_comparisons() {
    assert!(str_eq("assist-bug", "assist-bug"));
    assert!(!str_eq("assist-bug", "assist-bugs"));
    assert!(str_ci_le("linux", "WINDOWS"));
    assert!(!str_ci_le("windows", "LINUX"));
    assert!(str_ci_le("BSD", "bsd"));
}
