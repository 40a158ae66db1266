//! The leaf elements: those whose body holds attributes only. Each one is
//! planned from its collected slots, after the laws that tie the slots
//! together.

use vstd::prelude::*;
use vstd::string::*;
use crate::text::{str_eq, contains_str, has_substring};
use crate::tree::{ViewItem, ViewBody};
use crate::view_error::{ViewError, ErrorModel, Site, em, error_at};
use crate::registry::{Schema, slot_count};
use crate::attrs::{leaf_scan, no_slots, scan_leaf};
use crate::plan::{Emit, ButtonCtor, Spacing, same_node};

verus! {

/// The slots of a leaf element's items, or the first error among them.
pub open spec fn scanned(schema: Schema, items: Seq<ViewItem>) -> Result<Seq<Option<usize>>, ErrorModel> {
    leaf_scan(schema, items, 0, no_slots(slot_count(schema)))
}

/// An error for the macro invocation as a whole.
pub open spec fn call_err(message: Seq<char>) -> ErrorModel {
    em(Site::CallSite, message)
}

/// The value text of the first attribute item, from position `i` on, whose
/// id is `id`.
pub open spec fn text_by_id_from(items: Seq<ViewItem>, id: usize, i: int) -> Option<Seq<char>>
    decreases items.len() - i,
{
    if i < 0 || i >= items.len() {
        None
    } else {
        match items[i] {
            ViewItem::Attr { id: j, value, .. } => if j == id {
                Some(value.text@)
            } else {
                text_by_id_from(items, id, i + 1)
            },
            _ => text_by_id_from(items, id, i + 1),
        }
    }
}

/// The value text of the attribute with id `id` (empty when there is none).
pub open spec fn text_of(items: Seq<ViewItem>, id: usize) -> Seq<char> {
    match text_by_id_from(items, id, 0) {
        Some(t) => t,
        None => Seq::empty(),
    }
}

/// Finds the value text of the attribute with id `id`; see [`text_of`].
pub fn attr_text<'a>(items: &'a Vec<ViewItem>, id: usize) -> (r: &'a str)
    ensures
        r@ == text_of(items@, id),
{
    let mut i: usize = 0;
    while i < items.len()
        invariant
            i <= items@.len(),
            text_by_id_from(items@, id, 0) == text_by_id_from(items@, id, i as int),
        decreases items@.len() - i,
    {
        match &items[i] {
            ViewItem::Attr { id: j, value, .. } => {
                if *j == id {
                    return value.text.as_str();
                }
            },
            _ => {},
        }
        i = i + 1;
    }
    proof {
        reveal_strlit("");
    }
    ""
}

/// The error for a required attribute that is missing.
pub fn missing(text: &str) -> (e: ViewError)
    ensures
        e@ == call_err(text@),
{
    error_at(Site::CallSite, text)
}

// --- embed field, author, footer, image ---

/// What `field { .. }` plans to.
#[verifier::opaque]
pub open spec fn spec_field(items: Seq<ViewItem>) -> Result<Emit, ErrorModel> {
    match scanned(Schema::Field, items) {
        Err(e) => Err(e),
        Ok(s) => if s[0] is None {
            Err(call_err("field requires `name`"@))
        } else if s[1] is None {
            Err(call_err("field requires `value`"@))
        } else {
            Ok(Emit::Field { name: s[0]->Some_0, value: s[1]->Some_0, inline: s[2] })
        },
    }
}

/// Plans an embed field.
pub fn expand_embed_field(body: &ViewBody) -> (r: Result<Emit, ViewError>)
    ensures
        same_node(r, spec_field(body.items@)),
{
    proof {
        reveal(spec_field);
    }
    let s = scan_leaf(Schema::Field, body)?;
    match (s[0], s[1]) {
        (None, _) => Err(missing("field requires `name`")),
        (_, None) => Err(missing("field requires `value`")),
        (Some(name), Some(value)) => Ok(Emit::Field { name, value, inline: s[2] }),
    }
}

/// What `author { .. }` plans to.
#[verifier::opaque]
pub open spec fn spec_author(items: Seq<ViewItem>) -> Result<Emit, ErrorModel> {
    match scanned(Schema::Author, items) {
        Err(e) => Err(e),
        Ok(s) => if s[0] is None {
            Err(call_err("author requires `name`"@))
        } else {
            Ok(Emit::Author { name: s[0]->Some_0, url: s[1], icon_url: s[2] })
        },
    }
}

/// Plans an embed author.
pub fn expand_embed_author(body: &ViewBody) -> (r: Result<Emit, ViewError>)
    ensures
        same_node(r, spec_author(body.items@)),
{
    proof {
        reveal(spec_author);
    }
    let s = scan_leaf(Schema::Author, body)?;
    match s[0] {
        None => Err(missing("author requires `name`")),
        Some(name) => Ok(Emit::Author { name, url: s[1], icon_url: s[2] }),
    }
}

/// What `footer { .. }` plans to.
#[verifier::opaque]
pub open spec fn spec_footer(items: Seq<ViewItem>) -> Result<Emit, ErrorModel> {
    match scanned(Schema::Footer, items) {
        Err(e) => Err(e),
        Ok(s) => if s[0] is None {
            Err(call_err("footer requires `text`"@))
        } else {
            Ok(Emit::Footer { text: s[0]->Some_0, icon_url: s[1] })
        },
    }
}

/// Plans an embed footer.
pub fn expand_embed_footer(body: &ViewBody) -> (r: Result<Emit, ViewError>)
    ensures
        same_node(r, spec_footer(body.items@)),
{
    proof {
        reveal(spec_footer);
    }
    let s = scan_leaf(Schema::Footer, body)?;
    match s[0] {
        None => Err(missing("footer requires `text`")),
        Some(text) => Ok(Emit::Footer { text, icon_url: s[1] }),
    }
}

/// What an embed `image { .. }` (or `thumbnail { .. }` when `thumbnail`)
/// plans to.
#[verifier::opaque]
pub open spec fn spec_embed_image(items: Seq<ViewItem>, thumbnail: bool) -> Result<Emit, ErrorModel> {
    match scanned(Schema::Image, items) {
        Err(e) => Err(e),
        Ok(s) => if s[0] is None {
            Err(call_err("image requires `url`"@))
        } else {
            Ok(Emit::EmbedImage { url: s[0]->Some_0, description: s[1], thumbnail })
        },
    }
}

/// Plans an embed image or thumbnail.
pub fn expand_embed_image(body: &ViewBody, is_thumbnail: bool) -> (r: Result<Emit, ViewError>)
    ensures
        same_node(r, spec_embed_image(body.items@, is_thumbnail)),
{
    proof {
        reveal(spec_embed_image);
    }
    let s = scan_leaf(Schema::Image, body)?;
    match s[0] {
        None => Err(missing("image requires `url`")),
        Some(url) => Ok(Emit::EmbedImage { url, description: s[1], thumbnail: is_thumbnail }),
    }
}

// --- poll answer, select option ---

/// What `poll_answer { .. }` plans to.
#[verifier::opaque]
pub open spec fn spec_poll_answer(items: Seq<ViewItem>) -> Result<Emit, ErrorModel> {
    match scanned(Schema::PollAnswer, items) {
        Err(e) => Err(e),
        Ok(s) => Ok(Emit::PollAnswer { text: s[0], emoji: s[1] }),
    }
}

/// Plans a poll answer.
pub fn expand_poll_answer(body: &ViewBody) -> (r: Result<Emit, ViewError>)
    ensures
        same_node(r, spec_poll_answer(body.items@)),
{
    proof {
        reveal(spec_poll_answer);
    }
    let s = scan_leaf(Schema::PollAnswer, body)?;
    Ok(Emit::PollAnswer { text: s[0], emoji: s[1] })
}

/// What a select-menu `option { .. }` plans to.
#[verifier::opaque]
pub open spec fn spec_select_option(items: Seq<ViewItem>) -> Result<Emit, ErrorModel> {
    match scanned(Schema::SelectOption, items) {
        Err(e) => Err(e),
        Ok(s) => if s[0] is None {
            Err(call_err("option requires `label`"@))
        } else if s[1] is None {
            Err(call_err("option requires `value`"@))
        } else {
            Ok(
                Emit::SelectOption {
                    label: s[0]->Some_0,
                    value: s[1]->Some_0,
                    description: s[2],
                    emoji: s[3],
                    default: s[4],
                },
            )
        },
    }
}

/// Plans a select-menu option.
pub fn expand_select_menu_option(body: &ViewBody) -> (r: Result<Emit, ViewError>)
    ensures
        same_node(r, spec_select_option(body.items@)),
{
    proof {
        reveal(spec_select_option);
    }
    let s = scan_leaf(Schema::SelectOption, body)?;
    match (s[0], s[1]) {
        (None, _) => Err(missing("option requires `label`")),
        (_, None) => Err(missing("option requires `value`")),
        (Some(label), Some(value)) => Ok(
            Emit::SelectOption { label, value, description: s[2], emoji: s[3], default: s[4] },
        ),
    }
}

// --- v2 leaves: thumbnail, media gallery item, file, separator ---

/// What a v2 `thumbnail { .. }` plans to.
#[verifier::opaque]
pub open spec fn spec_thumbnail(items: Seq<ViewItem>) -> Result<Emit, ErrorModel> {
    match scanned(Schema::Thumbnail, items) {
        Err(e) => Err(e),
        Ok(s) => if s[0] is None {
            Err(call_err("thumbnail requires `media`"@))
        } else {
            Ok(Emit::Thumbnail { media: s[0]->Some_0, description: s[1], spoiler: s[2] })
        },
    }
}

/// Plans a thumbnail.
pub fn expand_thumbnail(body: &ViewBody) -> (r: Result<Emit, ViewError>)
    ensures
        same_node(r, spec_thumbnail(body.items@)),
{
    proof {
        reveal(spec_thumbnail);
    }
    let s = scan_leaf(Schema::Thumbnail, body)?;
    match s[0] {
        None => Err(missing("thumbnail requires `media`")),
        Some(media) => Ok(Emit::Thumbnail { media, description: s[1], spoiler: s[2] }),
    }
}

/// What `media_gallery_item { .. }` plans to.
#[verifier::opaque]
pub open spec fn spec_gallery_item(items: Seq<ViewItem>) -> Result<Emit, ErrorModel> {
    match scanned(Schema::MediaGalleryItem, items) {
        Err(e) => Err(e),
        Ok(s) => if s[0] is None {
            Err(call_err("media_gallery_item requires `media`"@))
        } else {
            Ok(Emit::GalleryItem { media: s[0]->Some_0, description: s[1], spoiler: s[2] })
        },
    }
}

/// Plans a media gallery item.
pub fn expand_media_gallery_item(body: &ViewBody) -> (r: Result<Emit, ViewError>)
    ensures
        same_node(r, spec_gallery_item(body.items@)),
{
    proof {
        reveal(spec_gallery_item);
    }
    let s = scan_leaf(Schema::MediaGalleryItem, body)?;
    match s[0] {
        None => Err(missing("media_gallery_item requires `media`")),
        Some(media) => Ok(Emit::GalleryItem { media, description: s[1], spoiler: s[2] }),
    }
}

/// What `file { .. }` plans to.
#[verifier::opaque]
pub open spec fn spec_file(items: Seq<ViewItem>) -> Result<Emit, ErrorModel> {
    match scanned(Schema::File, items) {
        Err(e) => Err(e),
        Ok(s) => if s[0] is None {
            Err(call_err("file requires `file` (or `media`/`url`)"@))
        } else {
            Ok(Emit::File { media: s[0]->Some_0, spoiler: s[1] })
        },
    }
}

/// Plans a file.
pub fn expand_file(body: &ViewBody) -> (r: Result<Emit, ViewError>)
    ensures
        same_node(r, spec_file(body.items@)),
{
    proof {
        reveal(spec_file);
    }
    let s = scan_leaf(Schema::File, body)?;
    match s[0] {
        None => Err(missing("file requires `file` (or `media`/`url`)")),
        Some(media) => Ok(Emit::File { media, spoiler: s[1] }),
    }
}

/// The spacing a `spacing` attribute with id `id` and value text `t` sets.
pub open spec fn spacing_of(t: Seq<char>, id: usize) -> Spacing {
    if t == "1"@ {
        Spacing::Small
    } else if t == "2"@ {
        Spacing::Large
    } else {
        Spacing::Expr(id)
    }
}

/// What `separator { .. }` plans to.
#[verifier::opaque]
pub open spec fn spec_separator(items: Seq<ViewItem>) -> Result<Emit, ErrorModel> {
    match scanned(Schema::Separator, items) {
        Err(e) => Err(e),
        Ok(s) => Ok(
            Emit::Separator {
                divider: s[0],
                spacing: match s[1] {
                    Some(id) => Some(spacing_of(text_of(items, id), id)),
                    None => None,
                },
            },
        ),
    }
}

/// Plans a separator.
pub fn expand_separator(body: &ViewBody) -> (r: Result<Emit, ViewError>)
    ensures
        same_node(r, spec_separator(body.items@)),
{
    proof {
        reveal(spec_separator);
    }
    let s = scan_leaf(Schema::Separator, body)?;
    let spacing = match s[1] {
        Some(id) => {
            let t = attr_text(&body.items, id);
            if str_eq(t, "1") {
                Some(Spacing::Small)
            } else if str_eq(t, "2") {
                Some(Spacing::Large)
            } else {
                Some(Spacing::Expr(id))
            }
        },
        None => None,
    };
    Ok(Emit::Separator { divider: s[0], spacing })
}

// --- button ---

/// A `style` value text that names the link style.
pub open spec fn is_link_style(t: Seq<char>) -> bool {
    t == "5"@ || has_substring(t, "Link"@)
}

/// A `style` value text that names the premium style.
pub open spec fn is_premium_style(t: Seq<char>) -> bool {
    t == "6"@ || has_substring(t, "Premium"@)
}

/// The laws of a button over its slots (style, label, custom_id, url,
/// sku_id, emoji, disabled), and its plan when they hold.
pub open spec fn button_from_slots(items: Seq<ViewItem>, s: Seq<Option<usize>>) -> Result<Emit, ErrorModel> {
    let style = s[0];
    let label = s[1];
    let custom_id = s[2];
    let url = s[3];
    let sku_id = s[4];
    let emoji = s[5];
    let st = match style {
        Some(id) => text_of(items, id),
        None => Seq::empty(),
    };
    if url is Some && custom_id is Some {
        Err(call_err("link button (`url`) cannot have `custom_id`"@))
    } else if url is Some && sku_id is Some {
        Err(call_err("link button (`url`) cannot have `sku_id`"@))
    } else if sku_id is Some && custom_id is Some {
        Err(call_err("premium button (`sku_id`) cannot have `custom_id`"@))
    } else if sku_id is Some && label is Some {
        Err(call_err("premium button (`sku_id`) cannot have `label`"@))
    } else if sku_id is Some && url is Some {
        Err(call_err("premium button (`sku_id`) cannot have `url`"@))
    } else if sku_id is Some && emoji is Some {
        Err(call_err("premium button (`sku_id`) cannot have `emoji`"@))
    } else if style is Some && is_link_style(st) && custom_id is Some {
        Err(
            em(
                Site::Value(style->Some_0),
                "Link style button cannot have `custom_id` — use `url` instead"@,
            ),
        )
    } else if style is Some && is_premium_style(st) && custom_id is Some {
        Err(em(Site::Value(style->Some_0), "Premium style button cannot have `custom_id`"@))
    } else if style is Some && is_link_style(st) && url is None {
        Err(em(Site::Value(style->Some_0), "Link style button requires `url`"@))
    } else if url is None && sku_id is None && custom_id is None {
        Err(call_err("button requires `custom_id` (or `url` for link, `sku_id` for premium)"@))
    } else {
        let ctor = if url is Some {
            ButtonCtor::Link(url->Some_0)
        } else if sku_id is Some {
            ButtonCtor::Premium(sku_id->Some_0)
        } else {
            ButtonCtor::Custom(custom_id->Some_0)
        };
        Ok(
            Emit::Button {
                ctor,
                style: if url is None && sku_id is None {
                    style
                } else {
                    None
                },
                label,
                emoji,
                disabled: s[6],
            },
        )
    }
}

/// What `button { .. }` plans to.
#[verifier::opaque]
pub open spec fn spec_button(items: Seq<ViewItem>) -> Result<Emit, ErrorModel> {
    match scanned(Schema::Button, items) {
        Err(e) => Err(e),
        Ok(s) => button_from_slots(items, s),
    }
}

/// Plans a button, enforcing the button laws: a link button (`url`) has no
/// `custom_id` or `sku_id`; a premium button (`sku_id`) has no `custom_id`,
/// `label`, `url` or `emoji`; a literal link style needs `url` and no
/// `custom_id`; a literal premium style has no `custom_id`; and a button
/// needs one of `custom_id`, `url`, `sku_id`.
pub fn expand_button(body: &ViewBody) -> (r: Result<Emit, ViewError>)
    ensures
        same_node(r, spec_button(body.items@)),
{
    proof {
        reveal(spec_button);
    }
    let s = scan_leaf(Schema::Button, body)?;
    let style = s[0];
    let label = s[1];
    let custom_id = s[2];
    let url = s[3];
    let sku_id = s[4];
    let emoji = s[5];
    if url.is_some() && custom_id.is_some() {
        return Err(missing("link button (`url`) cannot have `custom_id`"));
    }
    if url.is_some() && sku_id.is_some() {
        return Err(missing("link button (`url`) cannot have `sku_id`"));
    }
    if sku_id.is_some() && custom_id.is_some() {
        return Err(missing("premium button (`sku_id`) cannot have `custom_id`"));
    }
    if sku_id.is_some() && label.is_some() {
        return Err(missing("premium button (`sku_id`) cannot have `label`"));
    }
    if sku_id.is_some() && url.is_some() {
        return Err(missing("premium button (`sku_id`) cannot have `url`"));
    }
    if sku_id.is_some() && emoji.is_some() {
        return Err(missing("premium button (`sku_id`) cannot have `emoji`"));
    }
    if let Some(sid) = style {
        let st = attr_text(&body.items, sid);
        let is_link = str_eq(st, "5") || contains_str(st, "Link");
        let is_premium = str_eq(st, "6") || contains_str(st, "Premium");
        if is_link && custom_id.is_some() {
            return Err(
                error_at(
                    Site::Value(sid),
                    "Link style button cannot have `custom_id` — use `url` instead",
                ),
            );
        }
        if is_premium && custom_id.is_some() {
            return Err(error_at(Site::Value(sid), "Premium style button cannot have `custom_id`"));
        }
        if is_link && url.is_none() {
            return Err(error_at(Site::Value(sid), "Link style button requires `url`"));
        }
    }
    let ctor = match (url, sku_id, custom_id) {
        (Some(u), _, _) => ButtonCtor::Link(u),
        (None, Some(k), _) => ButtonCtor::Premium(k),
        (None, None, Some(c)) => ButtonCtor::Custom(c),
        (None, None, None) => {
            return Err(
                missing("button requires `custom_id` (or `url` for link, `sku_id` for premium)"),
            );
        },
    };
    let style = if url.is_none() && sku_id.is_none() {
        style
    } else {
        None
    };
    Ok(Emit::Button { ctor, style, label, emoji, disabled: s[6] })
}

} // verus!
