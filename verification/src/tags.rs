//! The tag catalog, the rendering of a tag set, and the tag selection
//! dialog.
//!
//! A finalized thread's summary carries a tags field. Its value is always
//! the full rendering of the most recent selection: the selected values
//! joined with ", " in the order the selection control reported them, or a
//! sentinel when nothing is selected. Each accepted selection overwrites
//! the field completely; nothing ever accumulates across dialog runs.

use vstd::prelude::*;

use crate::category::Rgb;
use crate::message::ButtonKind;
use crate::message::ButtonSpec;
use crate::message::EmbedFooter;
use crate::message::EmbedSpec;
use crate::message::MessageSpec;
use crate::message::SelectMenuSpec;
use crate::message::SelectOptionSpec;
use crate::text::ci_le;
use crate::text::str_ci_le;
use crate::text::str_eq;

verus! {

/// The exact text shown in the tags field when no tag is selected.
pub open spec fn spec_sentinel() -> Seq<char> {
    "*<no tags>*"@
}

/// The exact text shown in the tags field when no tag is selected.
pub fn no_tags_sentinel() -> (r: &'static str)
    ensures
        r@ == spec_sentinel(),
{
    "*<no tags>*"
}

/// The name of the summary embed's tags field.
pub fn tags_field_name() -> (r: &'static str)
    ensures
        r@ == "\u{1f3f7}\u{fe0f} Tags"@,
{
    "\u{1f3f7}\u{fe0f} Tags"
}

/// The fixed catalog of selectable tags, in the order they are offered.
pub open spec fn spec_catalog() -> Seq<Seq<char>> {
    seq![
        "Windows"@,
        "Linux"@,
        "macOS"@,
        "BSD"@,
        "Unix-like"@,
        "Product: Dot Browser for Desktop"@,
        "Product: Dot Browser for Android"@,
        "Product: Dot One"@,
        "Product: Dot Shield"@,
        "Product: Other"@,
    ]
}

/// The fixed catalog of selectable tags, in the order they are offered.
pub fn tag_catalog() -> (r: Vec<String>)
    ensures
        r.deep_view() == spec_catalog(),
{
    let mut v: Vec<String> = Vec::new();
    v.push(String::from_str("Windows"));
    v.push(String::from_str("Linux"));
    v.push(String::from_str("macOS"));
    v.push(String::from_str("BSD"));
    v.push(String::from_str("Unix-like"));
    v.push(String::from_str("Product: Dot Browser for Desktop"));
    v.push(String::from_str("Product: Dot Browser for Android"));
    v.push(String::from_str("Product: Dot One"));
    v.push(String::from_str("Product: Dot Shield"));
    v.push(String::from_str("Product: Other"));
    proof {
        assert(v.deep_view() =~= spec_catalog());
    }
    v
}

/// The strings joined with ", " between consecutive entries.
pub open spec fn spec_join(tags: Seq<Seq<char>>) -> Seq<char>
    decreases tags.len(),
{
    if tags.len() == 0 {
        Seq::empty()
    } else if tags.len() == 1 {
        tags[0]
    } else {
        tags[0] + ", "@ + spec_join(tags.skip(1))
    }
}

/// Joining one more string on the right appends one separator and the
/// string itself.
pub proof fn lemma_join_push(tags: Seq<Seq<char>>, x: Seq<char>)
    requires
        tags.len() >= 1,
    ensures
        spec_join(tags.push(x)) == spec_join(tags) + ", "@ + x,
    decreases tags.len(),
{
    if tags.len() == 1 {
        assert(tags.push(x).skip(1) =~= seq![x]);
        assert(spec_join(seq![x]) == x);
        assert(spec_join(tags.push(x)) == tags.push(x)[0] + ", "@ + spec_join(tags.push(x).skip(1)));
        assert(spec_join(tags) == tags[0]);
    } else {
        lemma_join_push(tags.skip(1), x);
        assert(tags.push(x).skip(1) =~= tags.skip(1).push(x));
        assert(spec_join(tags.push(x)) == tags.push(x)[0] + ", "@ + spec_join(tags.push(x).skip(1)));
        assert(spec_join(tags) == tags[0] + ", "@ + spec_join(tags.skip(1)));
        assert(spec_join(tags.push(x)) =~= spec_join(tags) + ", "@ + x);
    }
}

/// The displayed value of a selection: the sentinel for an empty
/// selection, else the values joined with ", " in the given order.
pub open spec fn spec_render(tags: Seq<Seq<char>>) -> Seq<char> {
    if tags.len() == 0 {
        spec_sentinel()
    } else {
        spec_join(tags)
    }
}

/// Renders a selection for display in the tags field.
///
/// An empty selection yields exactly the sentinel; otherwise the values
/// appear joined with ", ", in the order of the input and nothing else.
pub fn render_tags(tags: &Vec<String>) -> (r: String)
    ensures
        r@ == spec_render(tags.deep_view()),
{
    if tags.len() == 0 {
        return String::from_str(no_tags_sentinel());
    }
    let mut s = tags[0].clone();
    assert(s@ == tags.deep_view()[0]);
    assert(tags.deep_view().take(1) =~= seq![tags.deep_view()[0]]);
    let mut i: usize = 1;
    while i < tags.len()
        invariant
            1 <= i <= tags.len(),
            tags.deep_view().len() == tags.len(),
            s@ == spec_join(tags.deep_view().take(i as int)),
        decreases tags.len() - i,
    {
        s.append(", ");
        s.append(tags[i].as_str());
        proof {
            let dv = tags.deep_view();
            lemma_join_push(dv.take(i as int), dv[i as int]);
            assert(dv.take(i as int).push(dv[i as int]) =~= dv.take(i + 1));
        }
        i += 1;
    }
    proof {
        assert(tags.deep_view().take(tags.len() as int) =~= tags.deep_view());
    }
    s
}

/// True when the string contains the ", " separator anywhere.
pub open spec fn has_separator(s: Seq<char>) -> bool {
    exists|k: int| 0 <= k && k + 2 <= s.len() && #[trigger] s[k] == ',' && s[k + 1] == ' '
}

/// Reads a tags field back into the list of tags it displays.
///
/// The sentinel parses to the empty list. Any other value is cut at every
/// ", ": the pieces are separator-free and joining them with ", " gives
/// back exactly the input, which pins the result down.
pub fn parse_tags(field: &str) -> (r: Vec<String>)
    ensures
        (field@ == spec_sentinel()) <==> r@.len() == 0,
        field@ != spec_sentinel() ==> spec_join(r.deep_view()) == field@,
        forall|p: int| 0 <= p < r.deep_view().len() ==> !has_separator(#[trigger] r.deep_view()[p]),
{
    if str_eq(field, no_tags_sentinel()) {
        return Vec::new();
    }
    proof {
        reveal_strlit(", ");
    }
    let n = field.unicode_len();
    let mut pieces: Vec<String> = Vec::new();
    let mut start: usize = 0;
    let mut i: usize = 0;
    while i < n
        invariant
            n == field@.len(),
            start <= i <= n,
            pieces@.len() == 0 ==> start == 0,
            pieces@.len() >= 1 ==> spec_join(pieces.deep_view()) + ", "@ == field@.take(
                start as int,
            ),
            ", "@ == seq![',', ' '],
            forall|j: int|
                start <= j < i ==> !(#[trigger] field@[j] == ',' && j + 1 < n && field@[j + 1]
                    == ' '),
            forall|p: int|
                0 <= p < pieces.deep_view().len() ==> !has_separator(
                    #[trigger] pieces.deep_view()[p],
                ),
        decreases n - i,
    {
        let is_sep = if field.get_char(i) == ',' {
            i + 1 < n && field.get_char(i + 1) == ' '
        } else {
            false
        };
        if is_sep {
            let piece = String::from_str(field.substring_char(start, i));
            proof {
                let fp = field@.subrange(start as int, i as int);
                assert forall|k: int| 0 <= k && k + 2 <= fp.len() implies !(#[trigger] fp[k]
                    == ',' && fp[k + 1] == ' ') by {
                    assert(fp[k] == field@[start + k]);
                    assert(fp[k + 1] == field@[start + k + 1]);
                }
                assert(!has_separator(fp));
            }
            let ghost old_dv = pieces.deep_view();
            pieces.push(piece);
            proof {
                assert(pieces.deep_view() =~= old_dv.push(piece@));
                if old_dv.len() == 0 {
                    assert(pieces.deep_view() =~= seq![piece@]);
                    assert(spec_join(pieces.deep_view()) == piece@);
                    assert(piece@ =~= field@.take(i as int));
                } else {
                    lemma_join_push(old_dv, piece@);
                    assert(spec_join(pieces.deep_view()) =~= field@.take(start as int) + piece@);
                    assert(field@.take(start as int) + piece@ =~= field@.take(i as int));
                }
                assert(spec_join(pieces.deep_view()) + ", "@ =~= field@.take(i + 2));
            }
            start = i + 2;
            i = i + 2;
        } else {
            i = i + 1;
        }
    }
    let last = String::from_str(field.substring_char(start, n));
    proof {
        let fp = field@.subrange(start as int, n as int);
        assert forall|k: int| 0 <= k && k + 2 <= fp.len() implies !(#[trigger] fp[k] == ','
            && fp[k + 1] == ' ') by {
            assert(fp[k] == field@[start + k]);
            assert(fp[k + 1] == field@[start + k + 1]);
        }
        assert(!has_separator(fp));
    }
    let ghost old_dv = pieces.deep_view();
    pieces.push(last);
    proof {
        assert(pieces.deep_view() =~= old_dv.push(last@));
        if old_dv.len() == 0 {
            assert(pieces.deep_view() =~= seq![last@]);
            assert(spec_join(pieces.deep_view()) == last@);
            assert(last@ =~= field@);
        } else {
            lemma_join_push(old_dv, last@);
            assert(spec_join(pieces.deep_view()) =~= field@.take(start as int) + last@);
            assert(field@.take(start as int) + last@ =~= field@);
        }
    }
    pieces
}

/// True when some entry of `v` holds exactly the characters of `s`.
pub fn contains_str(v: &Vec<String>, s: &str) -> (r: bool)
    ensures
        r == v.deep_view().contains(s@),
{
    let mut i: usize = 0;
    while i < v.len()
        invariant
            i <= v@.len(),
            v.deep_view().len() == v@.len(),
            forall|j: int| 0 <= j < i ==> #[trigger] v.deep_view()[j] != s@,
        decreases v@.len() - i,
    {
        if str_eq(v[i].as_str(), s) {
            proof {
                assert(v.deep_view()[i as int] == s@);
            }
            return true;
        }
        i += 1;
    }
    proof {
        assert(!v.deep_view().contains(s@));
    }
    false
}

/// For each catalog entry, in catalog order, whether it starts out
/// selected: exactly when the prior tag list holds it.
pub fn default_selections(existing: &Vec<String>) -> (r: Vec<bool>)
    ensures
        r@.len() == spec_catalog().len(),
        forall|i: int|
            0 <= i < r@.len() ==> r@[i] == existing.deep_view().contains(
                #[trigger] spec_catalog()[i],
            ),
{
    let catalog = tag_catalog();
    let mut r: Vec<bool> = Vec::new();
    let mut i: usize = 0;
    while i < catalog.len()
        invariant
            catalog.deep_view() == spec_catalog(),
            catalog@.len() == spec_catalog().len(),
            i <= catalog@.len(),
            r@.len() == i,
            forall|j: int|
                0 <= j < i ==> r@[j] == existing.deep_view().contains(#[trigger] spec_catalog()[j]),
        decreases catalog@.len() - i,
    {
        let b = contains_str(existing, catalog[i].as_str());
        proof {
            assert(catalog.deep_view()[i as int] == spec_catalog()[i as int]);
        }
        r.push(b);
        i += 1;
    }
    r
}

/// True when consecutive entries are in case-insensitive order.
pub open spec fn ci_sorted(s: Seq<Seq<char>>) -> bool {
    forall|i: int| 0 <= i && i + 1 < s.len() ==> ci_le(#[trigger] s[i], s[i + 1])
}

fn insert_pos(r: &Vec<String>, x: &String) -> (p: usize)
    ensures
        p <= r@.len(),
        forall|q: int| 0 <= q < p ==> ci_le(#[trigger] r.deep_view()[q], x@),
        p < r@.len() ==> !ci_le(r.deep_view()[p as int], x@),
{
    let mut p: usize = 0;
    while p < r.len()
        invariant
            p <= r@.len(),
            r.deep_view().len() == r@.len(),
            forall|q: int| 0 <= q < p ==> ci_le(#[trigger] r.deep_view()[q], x@),
        decreases r@.len() - p,
    {
        if !str_ci_le(r[p].as_str(), x.as_str()) {
            return p;
        }
        p += 1;
    }
    p
}

/// A list in consecutive case-insensitive order is in that order
/// throughout: any earlier entry compares at or below any later one.
pub proof fn lemma_ci_sorted_throughout(s: Seq<Seq<char>>, i: int, j: int)
    requires
        ci_sorted(s),
        0 <= i <= j < s.len(),
    ensures
        ci_le(s[i], s[j]),
    decreases j - i,
{
    if i == j {
        crate::text::lemma_ci_le_refl(s[i]);
    } else {
        lemma_ci_sorted_throughout(s, i, j - 1);
        crate::text::lemma_ci_le_trans(s[i], s[j - 1], s[j]);
    }
}

/// Reorders a tag list case-insensitively, for presentation only.
///
/// The result holds exactly the input's entries, as a multiset; only
/// their order changes.
pub fn sort_tags_ci(v: &Vec<String>) -> (r: Vec<String>)
    ensures
        ci_sorted(r.deep_view()),
        r.deep_view().to_multiset() == v.deep_view().to_multiset(),
{
    broadcast use vstd::seq_lib::group_to_multiset_ensures;

    let mut r: Vec<String> = Vec::new();
    proof {
        assert(r.deep_view() =~= Seq::<Seq<char>>::empty());
        assert(v.deep_view().take(0) =~= Seq::<Seq<char>>::empty());
    }
    let mut i: usize = 0;
    while i < v.len()
        invariant
            i <= v@.len(),
            v.deep_view().len() == v@.len(),
            ci_sorted(r.deep_view()),
            r.deep_view().to_multiset() == v.deep_view().take(i as int).to_multiset(),
        decreases v@.len() - i,
    {
        broadcast use vstd::seq_lib::group_to_multiset_ensures;

        let x = v[i].clone();
        let p = insert_pos(&r, &x);
        let ghost old_dv = r.deep_view();
        r.insert(p, x);
        proof {
            let ndv = r.deep_view();
            assert(ndv =~= old_dv.insert(p as int, x@));
            assert forall|j: int| 0 <= j && j + 1 < ndv.len() implies ci_le(
                #[trigger] ndv[j],
                ndv[j + 1],
            ) by {
                if j + 1 < p {
                    assert(ndv[j] == old_dv[j] && ndv[j + 1] == old_dv[j + 1]);
                } else if j + 1 == p {
                    assert(ndv[j] == old_dv[j] && ndv[j + 1] == x@);
                } else if j == p {
                    assert(ndv[j] == x@ && ndv[j + 1] == old_dv[j]);
                    crate::text::lemma_ci_le_total(old_dv[j], x@);
                } else {
                    assert(ndv[j] == old_dv[j - 1] && ndv[j + 1] == old_dv[j]);
                }
            }
            assert(ndv.remove(p as int) =~= old_dv);
            assert(ndv.contains(x@)) by {
                assert(ndv[p as int] == x@);
            }
            assert(ndv.to_multiset().remove(x@) =~= old_dv.to_multiset());
            assert(ndv.to_multiset() =~= old_dv.to_multiset().insert(x@));
            assert(v.deep_view().take(i + 1) =~= v.deep_view().take(i as int).push(
                v.deep_view()[i as int],
            ));
            assert(x@ == v.deep_view()[i as int]);
        }
        i += 1;
    }
    proof {
        assert(v.deep_view().take(v@.len() as int) =~= v.deep_view());
    }
    r
}

/// The dialog message offering the tag selection control.
///
/// It carries the thread's colour, the fixed explanatory texts, the
/// multi-select control over the full catalog with the prior tags
/// preselected, and a dismiss button. `existing` is the prior tag list,
/// already parsed from the thread's tags field.
pub fn build_tag_dialog(colour: Rgb, existing: &Vec<String>) -> (m: MessageSpec)
    ensures
        m.content@ == Seq::<char>::empty(),
        m.embed matches Some(e) && {
            &&& e.colour == colour
            &&& e.title@ == "\u{1f3f7}\u{fe0f} Add thread tags"@
            &&& e.description@
                == "Tags help your thread get solved quicker, select a couple from the list below."@
            &&& e.tags_field is None
            &&& e.footer matches Some(f) && f.text@
                == "Tapping outside the selection menu will save your selections."@ && f.icon_url
                is None
        },
        m.select matches Some(s) && {
            &&& s.custom_id@ == crate::action::spec_action_id(crate::action::Action::TagsSelect)
            &&& s.placeholder@ == "No tags selected"@
            &&& s.min_values == 0
            &&& s.max_values == spec_catalog().len()
            &&& s.options@.len() == spec_catalog().len()
            &&& forall|i: int|
                0 <= i < s.options@.len() ==> {
                    &&& (#[trigger] s.options@[i]).value@ == spec_catalog()[i]
                    &&& s.options@[i].label@ == spec_catalog()[i]
                    &&& s.options@[i].preselected == existing.deep_view().contains(
                        spec_catalog()[i],
                    )
                }
        },
        m.buttons@.len() == 1 && {
            let b = m.buttons@[0];
            &&& b.kind == ButtonKind::Secondary
            &&& b.custom_id matches Some(c) && c@ == crate::action::spec_action_id(
                crate::action::Action::TagsSelectDismiss,
            )
            &&& b.label@ == "Dismiss"@
            &&& b.emoji is None
            &&& b.url is None
            &&& !b.disabled
        },
{
    let catalog = tag_catalog();
    let defaults = default_selections(existing);
    let mut options: Vec<SelectOptionSpec> = Vec::new();
    let mut i: usize = 0;
    while i < catalog.len()
        invariant
            catalog.deep_view() == spec_catalog(),
            catalog@.len() == spec_catalog().len(),
            defaults@.len() == spec_catalog().len(),
            forall|j: int|
                0 <= j < defaults@.len() ==> defaults@[j] == existing.deep_view().contains(
                    #[trigger] spec_catalog()[j],
                ),
            i <= catalog@.len(),
            options@.len() == i,
            forall|j: int|
                0 <= j < i ==> {
                    &&& (#[trigger] options@[j]).value@ == spec_catalog()[j]
                    &&& options@[j].label@ == spec_catalog()[j]
                    &&& options@[j].preselected == existing.deep_view().contains(spec_catalog()[j])
                },
        decreases catalog@.len() - i,
    {
        proof {
            assert(catalog.deep_view()[i as int] == spec_catalog()[i as int]);
        }
        options.push(
            SelectOptionSpec {
                value: catalog[i].clone(),
                label: catalog[i].clone(),
                preselected: defaults[i],
            },
        );
        i += 1;
    }
    let select = SelectMenuSpec {
        custom_id: String::from_str(crate::action::Action::TagsSelect.id()),
        placeholder: String::from_str("No tags selected"),
        min_values: 0,
        max_values: 10,
        options,
    };
    let dismiss = ButtonSpec {
        kind: ButtonKind::Secondary,
        custom_id: Some(String::from_str(crate::action::Action::TagsSelectDismiss.id())),
        label: String::from_str("Dismiss"),
        emoji: None,
        url: None,
        disabled: false,
    };
    let mut buttons: Vec<ButtonSpec> = Vec::new();
    buttons.push(dismiss);
    let embed = EmbedSpec {
        colour,
        title: String::from_str("\u{1f3f7}\u{fe0f} Add thread tags"),
        description: String::from_str(
            "Tags help your thread get solved quicker, select a couple from the list below.",
        ),
        tags_field: None,
        footer: Some(
            EmbedFooter {
                text: String::from_str(
                    "Tapping outside the selection menu will save your selections.",
                ),
                icon_url: None,
            },
        ),
    };
    MessageSpec { content: String::new(), embed: Some(embed), buttons, select: Some(select) }
}

/// The summary embed rewritten with a freshly rendered tags field.
///
/// The new field value depends on the accepted selection alone — never on
/// the field it replaces — and every other attribute of the embed is kept.
pub fn updated_summary(embed: &EmbedSpec, selection: &Vec<String>) -> (r: EmbedSpec)
    ensures
        r.colour == embed.colour,
        r.title@ == embed.title@,
        r.description@ == embed.description@,
        r.tags_field matches Some(t) && t@ == spec_render(selection.deep_view()),
        r.footer is Some <==> embed.footer is Some,
        r.footer matches Some(f) ==> embed.footer matches Some(g) && f.text@ == g.text@ && (
        f.icon_url is Some <==> g.icon_url is Some) && (f.icon_url matches Some(u)
            ==> g.icon_url matches Some(w) && u@ == w@),
{
    let footer = match &embed.footer {
        Some(f) => Some(
            EmbedFooter {
                text: f.text.clone(),
                icon_url: match &f.icon_url {
                    Some(u) => Some(u.clone()),
                    None => None,
                },
            },
        ),
        None => None,
    };
    EmbedSpec {
        colour: embed.colour,
        title: embed.title.clone(),
        description: embed.description.clone(),
        tags_field: Some(render_tags(selection)),
        footer,
    }
}

/// Display order is selection order: two tags render with the first one
/// first, however the two compare alphabetically.
pub proof fn lemma_render_keeps_order(a: Seq<char>, b: Seq<char>)
    ensures
        spec_render(seq![a, b]) == a + ", "@ + b,
{
    assert(seq![a, b].skip(1) =~= seq![b]);
    assert(spec_join(seq![b]) == b);
    assert(spec_join(seq![a, b]) == seq![a, b][0] + ", "@ + spec_join(seq![a, b].skip(1)));
}

/// The presentation sort can change no preselection: reordering a tag
/// list (any permutation, the case-insensitive sort included) keeps
/// exactly the same members, so the same catalog entries start selected.
pub proof fn lemma_reorder_keeps_membership(a: Seq<Seq<char>>, b: Seq<Seq<char>>, x: Seq<char>)
    requires
        a.to_multiset() == b.to_multiset(),
    ensures
        a.contains(x) <==> b.contains(x),
{
    broadcast use vstd::seq_lib::group_to_multiset_ensures;

    assert(a.contains(x) <==> a.to_multiset().count(x) > 0);
    assert(b.contains(x) <==> b.to_multiset().count(x) > 0);
}

/// Everything one accepted selection asks of the platform: a private
/// confirmation to the user, the removal of the dialog message, and the
/// rewritten summary with its action row re-rendered.
pub struct TagUpdate {
    /// The private acknowledgment shown to the selecting user.
    pub ack: String,
    /// Whether the dialog message is deleted; always true, the dialog is
    /// spent once a selection is accepted.
    pub delete_dialog: bool,
    /// The summary embed with the freshly rendered tags field.
    pub summary: EmbedSpec,
    /// The action row put back under the summary, add-tags enabled.
    pub buttons: Vec<ButtonSpec>,
}

/// Decides what one accepted selection does.
///
/// The new tags field is rendered from the selection alone, in the order
/// the selection control reported — never merged with, or reordered by,
/// what the field held before.
pub fn apply_tag_selection(embed: &EmbedSpec, selection: &Vec<String>) -> (r: TagUpdate)
    ensures
        r.ack@ == "Updated tags."@,
        r.delete_dialog,
        r.summary.colour == embed.colour,
        r.summary.title@ == embed.title@,
        r.summary.description@ == embed.description@,
        r.summary.tags_field matches Some(t) && t@ == spec_render(selection.deep_view()),
        r.summary.footer is Some <==> embed.footer is Some,
        r.summary.footer matches Some(f) ==> embed.footer matches Some(g) && f.text@ == g.text@
            && (f.icon_url is Some <==> g.icon_url is Some) && (f.icon_url matches Some(u)
            ==> g.icon_url matches Some(w) && u@ == w@),
        crate::workflow::spec_thread_buttons(r.buttons@, false),
{
    TagUpdate {
        ack: String::from_str("Updated tags."),
        delete_dialog: true,
        summary: updated_summary(embed, selection),
        buttons: crate::workflow::thread_action_row(false),
    }
}

/// The tags field value after a run of accepted selections, starting from
/// any prior field value: each selection's rendering replaces the field.
pub open spec fn spec_tags_after(initial: Seq<char>, updates: Seq<Seq<Seq<char>>>) -> Seq<char>
    decreases updates.len(),
{
    if updates.len() == 0 {
        initial
    } else {
        spec_tags_after(spec_render(updates[0]), updates.skip(1))
    }
}

/// Overwrite, never merge: after any non-empty run of accepted
/// selections, the tags field shows exactly the rendering of the last
/// selection, whatever the field held before and whatever came between.
/// In particular, selecting {A} and then {B} displays "B", not "A, B".
pub proof fn lemma_tag_overwrite(initial: Seq<char>, updates: Seq<Seq<Seq<char>>>)
    requires
        updates.len() >= 1,
    ensures
        spec_tags_after(initial, updates) == spec_render(updates.last()),
    decreases updates.len(),
{
    if updates.len() == 1 {
        assert(updates.skip(1).len() == 0);
        assert(spec_tags_after(initial, updates) == spec_tags_after(
            spec_render(updates[0]),
            updates.skip(1),
        ));
        assert(spec_tags_after(spec_render(updates[0]), updates.skip(1)) == spec_render(
            updates[0],
        ));
    } else {
        lemma_tag_overwrite(spec_render(updates[0]), updates.skip(1));
        assert(updates.skip(1).last() == updates.last());
    }
}

} // verus!
