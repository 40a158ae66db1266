//! The element registry: for every element of the DSL, the attribute names
//! it accepts and the setter slot each one fills, the names offered as "did
//! you mean" suggestions, and the wording of its errors.

use vstd::prelude::*;

verus! {

/// An element (or root) that takes attributes.
#[derive(Debug, Clone, Copy, PartialEq, Eq, Structural)]
pub enum Schema {
    /// The message root of the legacy family.
    Root,
    /// The `components_v2` root.
    V2Root,
    /// An `embed`.
    Embed,
    /// An embed `field`.
    Field,
    /// An embed `author`.
    Author,
    /// An embed `footer`.
    Footer,
    /// An embed `image` or `thumbnail`.
    Image,
    /// A `poll`.
    Poll,
    /// A `poll_answer`.
    PollAnswer,
    /// A `button`.
    Button,
    /// A `select_menu`.
    SelectMenu,
    /// A select-menu `option`.
    SelectOption,
    /// A `text_display`.
    TextDisplay,
    /// A `thumbnail`.
    Thumbnail,
    /// A `media_gallery_item`.
    MediaGalleryItem,
    /// A `file`.
    File,
    /// A `separator`.
    Separator,
    /// A `container`.
    Container,
    /// An `allowed_mentions`.
    AllowedMentions,
}

/// A list of element names that some parent accepts as children.
#[derive(Debug, Clone, Copy, PartialEq, Eq, Structural)]
pub enum ChildList {
    /// The names of children of an `embed`.
    EmbedChildren,
    /// The names of children of a `poll`.
    PollChildren,
    /// The names of children of an `action_row`.
    ActionRowChildren,
    /// The names of children of a `select_menu`.
    SelectMenuChildren,
    /// The names of children of a `media_gallery`.
    MediaGalleryChildren,
    /// The names of children of a `container`.
    ContainerChildren,
    /// The names of children of a `section`.
    SectionChildren,
    /// The names of elements of the legacy message root.
    RootChildren,
    /// The names of elements of the `components_v2` root.
    V2Children,
    /// The names of elements `component!` builds.
    ComponentElements,
}

/// The attribute names an element accepts, each with the setter slot it fills; aliases share a slot.
pub open spec fn spec_slot_keys(schema: Schema) -> Seq<(&'static str, usize)> {
    match schema {
        Schema::Root => seq![("content", 0usize), ("tts", 1usize), ("nonce", 2usize), ("enforce_nonce", 3usize), ("flags", 4usize), ("sticker_ids", 5usize)],
        Schema::V2Root => seq![("flags", 0usize)],
        Schema::Embed => seq![("title", 0usize), ("description", 1usize), ("url", 2usize), ("timestamp", 3usize), ("colour", 4usize), ("color", 4usize)],
        Schema::Field => seq![("name", 0usize), ("value", 1usize), ("inline", 2usize)],
        Schema::Author => seq![("name", 0usize), ("url", 1usize), ("icon_url", 2usize)],
        Schema::Footer => seq![("text", 0usize), ("icon_url", 1usize)],
        Schema::Image => seq![("url", 0usize), ("description", 1usize)],
        Schema::Poll => seq![("question", 0usize), ("duration", 1usize), ("allow_multiselect", 2usize), ("layout_type", 3usize)],
        Schema::PollAnswer => seq![("text", 0usize), ("emoji", 1usize)],
        Schema::Button => seq![("style", 0usize), ("label", 1usize), ("custom_id", 2usize), ("url", 3usize), ("sku_id", 4usize), ("emoji", 5usize), ("disabled", 6usize)],
        Schema::SelectMenu => seq![("custom_id", 0usize), ("placeholder", 1usize), ("min_values", 2usize), ("max_values", 3usize), ("disabled", 4usize), ("required", 5usize), ("kind", 6usize)],
        Schema::SelectOption => seq![("label", 0usize), ("value", 1usize), ("description", 2usize), ("emoji", 3usize), ("default", 4usize), ("default_selection", 4usize)],
        Schema::TextDisplay => seq![("content", 0usize)],
        Schema::Thumbnail => seq![("media", 0usize), ("url", 0usize), ("description", 1usize), ("spoiler", 2usize)],
        Schema::MediaGalleryItem => seq![("media", 0usize), ("url", 0usize), ("description", 1usize), ("spoiler", 2usize)],
        Schema::File => seq![("file", 0usize), ("media", 0usize), ("url", 0usize), ("spoiler", 1usize)],
        Schema::Separator => seq![("divider", 0usize), ("spacing", 1usize)],
        Schema::Container => seq![("accent_color", 0usize), ("accent_colour", 0usize), ("spoiler", 1usize)],
        Schema::AllowedMentions => seq![],
    }
}

/// The attribute names an element accepts, each with the setter slot it fills; aliases share a slot.
pub fn slot_keys(schema: Schema) -> (r: Vec<(&'static str, usize)>)
    ensures
        r@ == spec_slot_keys(schema),
{
    match schema {
        Schema::Root => vec![("content", 0usize), ("tts", 1usize), ("nonce", 2usize), ("enforce_nonce", 3usize), ("flags", 4usize), ("sticker_ids", 5usize)],
        Schema::V2Root => vec![("flags", 0usize)],
        Schema::Embed => vec![("title", 0usize), ("description", 1usize), ("url", 2usize), ("timestamp", 3usize), ("colour", 4usize), ("color", 4usize)],
        Schema::Field => vec![("name", 0usize), ("value", 1usize), ("inline", 2usize)],
        Schema::Author => vec![("name", 0usize), ("url", 1usize), ("icon_url", 2usize)],
        Schema::Footer => vec![("text", 0usize), ("icon_url", 1usize)],
        Schema::Image => vec![("url", 0usize), ("description", 1usize)],
        Schema::Poll => vec![("question", 0usize), ("duration", 1usize), ("allow_multiselect", 2usize), ("layout_type", 3usize)],
        Schema::PollAnswer => vec![("text", 0usize), ("emoji", 1usize)],
        Schema::Button => vec![("style", 0usize), ("label", 1usize), ("custom_id", 2usize), ("url", 3usize), ("sku_id", 4usize), ("emoji", 5usize), ("disabled", 6usize)],
        Schema::SelectMenu => vec![("custom_id", 0usize), ("placeholder", 1usize), ("min_values", 2usize), ("max_values", 3usize), ("disabled", 4usize), ("required", 5usize), ("kind", 6usize)],
        Schema::SelectOption => vec![("label", 0usize), ("value", 1usize), ("description", 2usize), ("emoji", 3usize), ("default", 4usize), ("default_selection", 4usize)],
        Schema::TextDisplay => vec![("content", 0usize)],
        Schema::Thumbnail => vec![("media", 0usize), ("url", 0usize), ("description", 1usize), ("spoiler", 2usize)],
        Schema::MediaGalleryItem => vec![("media", 0usize), ("url", 0usize), ("description", 1usize), ("spoiler", 2usize)],
        Schema::File => vec![("file", 0usize), ("media", 0usize), ("url", 0usize), ("spoiler", 1usize)],
        Schema::Separator => vec![("divider", 0usize), ("spacing", 1usize)],
        Schema::Container => vec![("accent_color", 0usize), ("accent_colour", 0usize), ("spoiler", 1usize)],
        Schema::AllowedMentions => vec![],
    }
}

/// The attribute names offered as suggestions for an unknown attribute.
pub open spec fn spec_attr_names(schema: Schema) -> Seq<&'static str> {
    match schema {
        Schema::Root => seq!["content", "tts", "nonce", "enforce_nonce", "flags", "sticker_ids"],
        Schema::V2Root => seq!["flags"],
        Schema::Embed => seq!["title", "description", "url", "timestamp", "colour", "color"],
        Schema::Field => seq!["name", "value", "inline"],
        Schema::Author => seq!["name", "url", "icon_url"],
        Schema::Footer => seq!["text", "icon_url"],
        Schema::Image => seq!["url", "description"],
        Schema::Poll => seq!["question", "duration", "allow_multiselect", "layout_type"],
        Schema::PollAnswer => seq!["text", "emoji"],
        Schema::Button => seq!["style", "label", "custom_id", "url", "sku_id", "emoji", "disabled"],
        Schema::SelectMenu => seq!["custom_id", "placeholder", "min_values", "max_values", "disabled", "required", "kind"],
        Schema::SelectOption => seq!["label", "value", "description", "emoji", "default"],
        Schema::TextDisplay => seq!["content"],
        Schema::Thumbnail => seq!["media", "url", "description", "spoiler"],
        Schema::MediaGalleryItem => seq!["media", "url", "description", "spoiler"],
        Schema::File => seq!["file", "media", "url", "spoiler"],
        Schema::Separator => seq!["divider", "spacing"],
        Schema::Container => seq!["accent_color", "accent_colour", "spoiler"],
        Schema::AllowedMentions => seq!["parse", "users", "roles", "replied_user"],
    }
}

/// The attribute names offered as suggestions for an unknown attribute.
pub fn attr_names(schema: Schema) -> (r: Vec<&'static str>)
    ensures
        r@ == spec_attr_names(schema),
{
    match schema {
        Schema::Root => vec!["content", "tts", "nonce", "enforce_nonce", "flags", "sticker_ids"],
        Schema::V2Root => vec!["flags"],
        Schema::Embed => vec!["title", "description", "url", "timestamp", "colour", "color"],
        Schema::Field => vec!["name", "value", "inline"],
        Schema::Author => vec!["name", "url", "icon_url"],
        Schema::Footer => vec!["text", "icon_url"],
        Schema::Image => vec!["url", "description"],
        Schema::Poll => vec!["question", "duration", "allow_multiselect", "layout_type"],
        Schema::PollAnswer => vec!["text", "emoji"],
        Schema::Button => vec!["style", "label", "custom_id", "url", "sku_id", "emoji", "disabled"],
        Schema::SelectMenu => vec!["custom_id", "placeholder", "min_values", "max_values", "disabled", "required", "kind"],
        Schema::SelectOption => vec!["label", "value", "description", "emoji", "default"],
        Schema::TextDisplay => vec!["content"],
        Schema::Thumbnail => vec!["media", "url", "description", "spoiler"],
        Schema::MediaGalleryItem => vec!["media", "url", "description", "spoiler"],
        Schema::File => vec!["file", "media", "url", "spoiler"],
        Schema::Separator => vec!["divider", "spacing"],
        Schema::Container => vec!["accent_color", "accent_colour", "spoiler"],
        Schema::AllowedMentions => vec!["parse", "users", "roles", "replied_user"],
    }
}

/// What a duplicate-attribute error names, per setter slot.
pub open spec fn spec_dup_texts(schema: Schema) -> Seq<&'static str> {
    match schema {
        Schema::Root => seq!["`content`", "`tts`", "`nonce`", "`enforce_nonce`", "`flags`", "`sticker_ids`"],
        Schema::V2Root => seq!["`flags` in components_v2"],
        Schema::Embed => seq!["`title`", "`description`", "`url`", "`timestamp`", "colour/color"],
        Schema::Field => seq!["`name`", "`value`", "`inline`"],
        Schema::Author => seq!["`name`", "`url`", "`icon_url`"],
        Schema::Footer => seq!["`text`", "`icon_url`"],
        Schema::Image => seq!["`url`", "`description`"],
        Schema::Poll => seq!["`question`", "`duration`", "`allow_multiselect`", "`layout_type`"],
        Schema::PollAnswer => seq!["`text`", "`emoji`"],
        Schema::Button => seq!["`style`", "`label`", "`custom_id`", "`url`", "`sku_id`", "`emoji`", "`disabled`"],
        Schema::SelectMenu => seq!["`custom_id`", "`placeholder`", "`min_values`", "`max_values`", "`disabled`", "`required`", "`kind`"],
        Schema::SelectOption => seq!["`label`", "`value`", "`description`", "`emoji`", "`default`"],
        Schema::TextDisplay => seq!["content"],
        Schema::Thumbnail => seq!["`media`", "`description`", "`spoiler`"],
        Schema::MediaGalleryItem => seq!["`media`", "`description`", "`spoiler`"],
        Schema::File => seq!["file/media/url", "`spoiler`"],
        Schema::Separator => seq!["`divider`", "`spacing`"],
        Schema::Container => seq!["accent_color/accent_colour", "`spoiler`"],
        Schema::AllowedMentions => seq![],
    }
}

/// What a duplicate-attribute error names, per setter slot.
pub fn dup_texts(schema: Schema) -> (r: Vec<&'static str>)
    ensures
        r@ == spec_dup_texts(schema),
{
    match schema {
        Schema::Root => vec!["`content`", "`tts`", "`nonce`", "`enforce_nonce`", "`flags`", "`sticker_ids`"],
        Schema::V2Root => vec!["`flags` in components_v2"],
        Schema::Embed => vec!["`title`", "`description`", "`url`", "`timestamp`", "colour/color"],
        Schema::Field => vec!["`name`", "`value`", "`inline`"],
        Schema::Author => vec!["`name`", "`url`", "`icon_url`"],
        Schema::Footer => vec!["`text`", "`icon_url`"],
        Schema::Image => vec!["`url`", "`description`"],
        Schema::Poll => vec!["`question`", "`duration`", "`allow_multiselect`", "`layout_type`"],
        Schema::PollAnswer => vec!["`text`", "`emoji`"],
        Schema::Button => vec!["`style`", "`label`", "`custom_id`", "`url`", "`sku_id`", "`emoji`", "`disabled`"],
        Schema::SelectMenu => vec!["`custom_id`", "`placeholder`", "`min_values`", "`max_values`", "`disabled`", "`required`", "`kind`"],
        Schema::SelectOption => vec!["`label`", "`value`", "`description`", "`emoji`", "`default`"],
        Schema::TextDisplay => vec!["content"],
        Schema::Thumbnail => vec!["`media`", "`description`", "`spoiler`"],
        Schema::MediaGalleryItem => vec!["`media`", "`description`", "`spoiler`"],
        Schema::File => vec!["file/media/url", "`spoiler`"],
        Schema::Separator => vec!["`divider`", "`spacing`"],
        Schema::Container => vec!["accent_color/accent_colour", "`spoiler`"],
        Schema::AllowedMentions => vec![],
    }
}

/// The words before the name in an unknown-attribute error.
pub open spec fn spec_unknown_before(schema: Schema) -> Seq<char> {
    match schema {
        Schema::Root => "unknown root attribute "@,
        Schema::V2Root => "unknown attribute "@,
        Schema::Embed => "unknown embed attribute "@,
        Schema::Field => "unknown field attribute "@,
        Schema::Author => "unknown author attribute "@,
        Schema::Footer => "unknown footer attribute "@,
        Schema::Image => "unknown image attribute "@,
        Schema::Poll => "unknown poll attribute "@,
        Schema::PollAnswer => "unknown poll_answer attribute "@,
        Schema::Button => "unknown button attribute "@,
        Schema::SelectMenu => "unknown select_menu attribute "@,
        Schema::SelectOption => "unknown option attribute "@,
        Schema::TextDisplay => "unknown text_display attribute "@,
        Schema::Thumbnail => "unknown thumbnail attribute "@,
        Schema::MediaGalleryItem => "unknown media_gallery_item attribute "@,
        Schema::File => "unknown file attribute "@,
        Schema::Separator => "unknown separator attribute "@,
        Schema::Container => "unknown container attribute "@,
        Schema::AllowedMentions => "unknown allowed_mentions attribute "@,
    }
}

/// The words before the name in an unknown-attribute error.
pub fn unknown_before(schema: Schema) -> (r: &'static str)
    ensures
        r@ == spec_unknown_before(schema),
{
    match schema {
        Schema::Root => "unknown root attribute ",
        Schema::V2Root => "unknown attribute ",
        Schema::Embed => "unknown embed attribute ",
        Schema::Field => "unknown field attribute ",
        Schema::Author => "unknown author attribute ",
        Schema::Footer => "unknown footer attribute ",
        Schema::Image => "unknown image attribute ",
        Schema::Poll => "unknown poll attribute ",
        Schema::PollAnswer => "unknown poll_answer attribute ",
        Schema::Button => "unknown button attribute ",
        Schema::SelectMenu => "unknown select_menu attribute ",
        Schema::SelectOption => "unknown option attribute ",
        Schema::TextDisplay => "unknown text_display attribute ",
        Schema::Thumbnail => "unknown thumbnail attribute ",
        Schema::MediaGalleryItem => "unknown media_gallery_item attribute ",
        Schema::File => "unknown file attribute ",
        Schema::Separator => "unknown separator attribute ",
        Schema::Container => "unknown container attribute ",
        Schema::AllowedMentions => "unknown allowed_mentions attribute ",
    }
}

/// The words after the name in an unknown-attribute error.
pub open spec fn spec_unknown_after(schema: Schema) -> Seq<char> {
    match schema {
        Schema::Root => ""@,
        Schema::V2Root => " in `components_v2`"@,
        Schema::Embed => ""@,
        Schema::Field => ""@,
        Schema::Author => ""@,
        Schema::Footer => ""@,
        Schema::Image => ""@,
        Schema::Poll => ""@,
        Schema::PollAnswer => ""@,
        Schema::Button => ""@,
        Schema::SelectMenu => ""@,
        Schema::SelectOption => ""@,
        Schema::TextDisplay => ""@,
        Schema::Thumbnail => ""@,
        Schema::MediaGalleryItem => ""@,
        Schema::File => ""@,
        Schema::Separator => ""@,
        Schema::Container => ""@,
        Schema::AllowedMentions => ""@,
    }
}

/// The words after the name in an unknown-attribute error.
pub fn unknown_after(schema: Schema) -> (r: &'static str)
    ensures
        r@ == spec_unknown_after(schema),
{
    match schema {
        Schema::Root => "",
        Schema::V2Root => " in `components_v2`",
        Schema::Embed => "",
        Schema::Field => "",
        Schema::Author => "",
        Schema::Footer => "",
        Schema::Image => "",
        Schema::Poll => "",
        Schema::PollAnswer => "",
        Schema::Button => "",
        Schema::SelectMenu => "",
        Schema::SelectOption => "",
        Schema::TextDisplay => "",
        Schema::Thumbnail => "",
        Schema::MediaGalleryItem => "",
        Schema::File => "",
        Schema::Separator => "",
        Schema::Container => "",
        Schema::AllowedMentions => "",
    }
}

/// What an unknown-attribute error says when no suggestion is close.
pub open spec fn spec_unknown_fallback(schema: Schema) -> Seq<char> {
    match schema {
        Schema::Root => " (known: content, tts, nonce, enforce_nonce, flags, sticker_ids)"@,
        Schema::V2Root => ""@,
        Schema::Embed => ""@,
        Schema::Field => ""@,
        Schema::Author => ""@,
        Schema::Footer => ""@,
        Schema::Image => ""@,
        Schema::Poll => ""@,
        Schema::PollAnswer => ""@,
        Schema::Button => ""@,
        Schema::SelectMenu => ""@,
        Schema::SelectOption => ""@,
        Schema::TextDisplay => ""@,
        Schema::Thumbnail => ""@,
        Schema::MediaGalleryItem => ""@,
        Schema::File => ""@,
        Schema::Separator => ""@,
        Schema::Container => ""@,
        Schema::AllowedMentions => ""@,
    }
}

/// What an unknown-attribute error says when no suggestion is close.
pub fn unknown_fallback(schema: Schema) -> (r: &'static str)
    ensures
        r@ == spec_unknown_fallback(schema),
{
    match schema {
        Schema::Root => " (known: content, tts, nonce, enforce_nonce, flags, sticker_ids)",
        Schema::V2Root => "",
        Schema::Embed => "",
        Schema::Field => "",
        Schema::Author => "",
        Schema::Footer => "",
        Schema::Image => "",
        Schema::Poll => "",
        Schema::PollAnswer => "",
        Schema::Button => "",
        Schema::SelectMenu => "",
        Schema::SelectOption => "",
        Schema::TextDisplay => "",
        Schema::Thumbnail => "",
        Schema::MediaGalleryItem => "",
        Schema::File => "",
        Schema::Separator => "",
        Schema::Container => "",
        Schema::AllowedMentions => "",
    }
}

/// The element's name as its errors spell it.
pub open spec fn spec_word(schema: Schema) -> Seq<char> {
    match schema {
        Schema::Root => "root"@,
        Schema::V2Root => "components_v2"@,
        Schema::Embed => "embed"@,
        Schema::Field => "field"@,
        Schema::Author => "author"@,
        Schema::Footer => "footer"@,
        Schema::Image => "image"@,
        Schema::Poll => "poll"@,
        Schema::PollAnswer => "poll_answer"@,
        Schema::Button => "button"@,
        Schema::SelectMenu => "select_menu"@,
        Schema::SelectOption => "option"@,
        Schema::TextDisplay => "text_display"@,
        Schema::Thumbnail => "thumbnail"@,
        Schema::MediaGalleryItem => "media_gallery_item"@,
        Schema::File => "file"@,
        Schema::Separator => "separator"@,
        Schema::Container => "container"@,
        Schema::AllowedMentions => "allowed_mentions"@,
    }
}

/// The element's name as its errors spell it.
pub fn word(schema: Schema) -> (r: &'static str)
    ensures
        r@ == spec_word(schema),
{
    match schema {
        Schema::Root => "root",
        Schema::V2Root => "components_v2",
        Schema::Embed => "embed",
        Schema::Field => "field",
        Schema::Author => "author",
        Schema::Footer => "footer",
        Schema::Image => "image",
        Schema::Poll => "poll",
        Schema::PollAnswer => "poll_answer",
        Schema::Button => "button",
        Schema::SelectMenu => "select_menu",
        Schema::SelectOption => "option",
        Schema::TextDisplay => "text_display",
        Schema::Thumbnail => "thumbnail",
        Schema::MediaGalleryItem => "media_gallery_item",
        Schema::File => "file",
        Schema::Separator => "separator",
        Schema::Container => "container",
        Schema::AllowedMentions => "allowed_mentions",
    }
}

/// The element names a parent accepts, offered as suggestions for an unknown child.
pub open spec fn spec_child_names(list: ChildList) -> Seq<&'static str> {
    match list {
        ChildList::EmbedChildren => seq!["field", "author", "footer", "image", "thumbnail"],
        ChildList::PollChildren => seq!["poll_answer", "answer"],
        ChildList::ActionRowChildren => seq!["button", "select_menu"],
        ChildList::SelectMenuChildren => seq!["select_menu_option", "option"],
        ChildList::MediaGalleryChildren => seq!["media_gallery_item", "item"],
        ChildList::ContainerChildren => seq!["action_row", "section", "text_display", "media_gallery", "file", "separator"],
        ChildList::SectionChildren => seq!["text_display", "thumbnail", "button"],
        ChildList::RootChildren => seq!["embed", "action_row", "allowed_mentions", "poll", "components_v2"],
        ChildList::V2Children => seq!["action_row", "section", "text_display", "media_gallery", "file", "separator", "container"],
        ChildList::ComponentElements => seq!["action_row", "text_display", "container", "section", "thumbnail", "media_gallery", "file", "separator", "embed", "button", "select_menu", "select_menu_option", "poll", "poll_answer"],
    }
}

/// The element names a parent accepts, offered as suggestions for an unknown child.
pub fn child_names(list: ChildList) -> (r: Vec<&'static str>)
    ensures
        r@ == spec_child_names(list),
{
    match list {
        ChildList::EmbedChildren => vec!["field", "author", "footer", "image", "thumbnail"],
        ChildList::PollChildren => vec!["poll_answer", "answer"],
        ChildList::ActionRowChildren => vec!["button", "select_menu"],
        ChildList::SelectMenuChildren => vec!["select_menu_option", "option"],
        ChildList::MediaGalleryChildren => vec!["media_gallery_item", "item"],
        ChildList::ContainerChildren => vec!["action_row", "section", "text_display", "media_gallery", "file", "separator"],
        ChildList::SectionChildren => vec!["text_display", "thumbnail", "button"],
        ChildList::RootChildren => vec!["embed", "action_row", "allowed_mentions", "poll", "components_v2"],
        ChildList::V2Children => vec!["action_row", "section", "text_display", "media_gallery", "file", "separator", "container"],
        ChildList::ComponentElements => vec!["action_row", "text_display", "container", "section", "thumbnail", "media_gallery", "file", "separator", "embed", "button", "select_menu", "select_menu_option", "poll", "poll_answer"],
    }
}

/// The number of setter slots of an element.
pub open spec fn slot_count(schema: Schema) -> nat {
    spec_dup_texts(schema).len()
}

/// Every slot named in the key table is a slot of the element.
pub proof fn lemma_slot_keys_in_range(schema: Schema)
    ensures
        forall|k: int|
            0 <= k < spec_slot_keys(schema).len() ==> #[trigger] spec_slot_keys(schema)[k].1
                < slot_count(schema),
{
}

} // verus!
