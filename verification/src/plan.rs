//! The plan of an expansion: a flat stream of builder-construction steps,
//! in the order the builder code is written.
//!
//! A node is a header followed by the nodes it announces. A child list is a
//! [`Emit::List`] header followed by `len` steps, each a [`Emit::Splice`] or a
//! child node. Attribute values are referred to by item id.

use vstd::prelude::*;
use crate::view_error::{ViewError, ErrorModel};

verus! {

/// How a button is constructed.
#[derive(Debug, Clone, Copy, PartialEq, Eq, Structural)]
pub enum ButtonCtor {
    /// A link button, from its `url`.
    Link(usize),
    /// A premium button, from its `sku_id`.
    Premium(usize),
    /// A regular button, from its `custom_id`.
    Custom(usize),
}

/// The spacing of a separator.
#[derive(Debug, Clone, Copy, PartialEq, Eq, Structural)]
pub enum Spacing {
    /// Written `1`.
    Small,
    /// Written `2`.
    Large,
    /// Any other expression, passed through.
    Expr(usize),
}

/// The kind of a select menu.
#[derive(Debug, Clone, Copy, PartialEq, Eq, Structural)]
pub enum SelectKind {
    /// A string select, built from its options.
    Text,
    User,
    Role,
    Mentionable,
    Channel,
    /// A `kind` expression passed through as the kind itself.
    Expr(usize),
}

/// One call on an allowed-mentions builder.
#[derive(Debug, Clone, Copy, PartialEq, Eq, Structural)]
pub enum Mention {
    Everyone,
    AllUsers,
    AllRoles,
    Users(usize),
    Roles(usize),
    RepliedUser(usize),
}

/// One step of a plan.
#[derive(Debug, Clone, Copy, PartialEq, Eq)]
pub enum Emit {
    /// A legacy message, followed by `embeds` embed nodes, the allowed-mentions
    /// node when `allowed_mentions`, the poll node when `poll`, then the
    /// components list (no `components` call when it is empty).
    Message {
        content: Option<usize>,
        tts: Option<usize>,
        nonce: Option<usize>,
        enforce_nonce: Option<usize>,
        flags: Option<usize>,
        sticker_ids: Option<usize>,
        embeds: usize,
        allowed_mentions: bool,
        poll: bool,
    },
    /// A components-v2 message (the flag is always set), followed by its
    /// children list.
    V2Message { flags: Option<usize> },
    /// A child list of `len` steps; `spliced` when one of them is a splice,
    /// so the list is assembled, checked and built at runtime.
    List { len: usize, spliced: bool },
    /// The children a splice yields, in its position.
    Splice(usize),
    /// An embed, followed by the announced author, footer, image and
    /// thumbnail nodes, then its fields list when `fields` is set (no
    /// `fields` call when the embed has no field step).
    Embed {
        title: Option<usize>,
        description: Option<usize>,
        url: Option<usize>,
        timestamp: Option<usize>,
        colour: Option<usize>,
        author: bool,
        footer: bool,
        image: bool,
        thumbnail: bool,
        fields: bool,
    },
    /// An embed field `(name, value, inline)`, inline `false` when absent.
    Field { name: usize, value: usize, inline: Option<usize> },
    /// An embed author.
    Author { name: usize, url: Option<usize>, icon_url: Option<usize> },
    /// An embed footer.
    Footer { text: usize, icon_url: Option<usize> },
    /// An embed image, or thumbnail when `thumbnail`.
    EmbedImage { url: usize, description: Option<usize>, thumbnail: bool },
    /// Allowed mentions, followed by `calls` mention steps.
    AllowedMentions { calls: usize },
    /// One allowed-mentions call.
    Mention(Mention),
    /// A poll (duration in hours), followed by `answers` answer nodes.
    Poll {
        question: usize,
        duration: usize,
        allow_multiselect: Option<usize>,
        layout_type: Option<usize>,
        answers: usize,
    },
    /// A poll answer.
    PollAnswer { text: Option<usize>, emoji: Option<usize> },
    /// An action row of buttons, followed by the buttons list.
    ActionRowButtons,
    /// An action row holding one select menu, followed by the menu node.
    ActionRowSelect,
    /// A button; `style` is only set on regular buttons.
    Button {
        ctor: ButtonCtor,
        style: Option<usize>,
        label: Option<usize>,
        emoji: Option<usize>,
        disabled: Option<usize>,
    },
    /// A select menu, followed by `options` option nodes.
    SelectMenu {
        custom_id: usize,
        kind: SelectKind,
        placeholder: Option<usize>,
        min_values: Option<usize>,
        max_values: Option<usize>,
        required: Option<usize>,
        disabled: Option<usize>,
        options: usize,
    },
    /// A string-select option.
    SelectOption {
        label: usize,
        value: usize,
        description: Option<usize>,
        emoji: Option<usize>,
        default: Option<usize>,
    },
    /// A text display, from an attribute value or a bare literal.
    TextDisplay { content: usize },
    /// A thumbnail.
    Thumbnail { media: usize, description: Option<usize>, spoiler: Option<usize> },
    /// A media gallery, followed by its items list.
    MediaGallery,
    /// A media gallery item.
    GalleryItem { media: usize, description: Option<usize>, spoiler: Option<usize> },
    /// A file.
    File { media: usize, spoiler: Option<usize> },
    /// A separator.
    Separator { divider: Option<usize>, spacing: Option<Spacing> },
    /// A container, followed by its children list.
    Container { accent: Option<usize>, spoiler: Option<usize> },
    /// A section, followed by its text-display list, then its accessory node
    /// (a thumbnail or a button).
    Section,
}

/// `r` is the executable counterpart of the single-node outcome `s`.
pub open spec fn same_node(r: Result<Emit, ViewError>, s: Result<Emit, ErrorModel>) -> bool {
    match s {
        Ok(n) => r == Ok::<Emit, ViewError>(n),
        Err(e) => r matches Err(x) && x@ == e,
    }
}

/// `r` is the executable counterpart of the stream outcome `s`.
pub open spec fn same_stream(r: Result<Vec<Emit>, ViewError>, s: Result<Seq<Emit>, ErrorModel>) -> bool {
    match s {
        Ok(v) => r matches Ok(x) && x@ == v,
        Err(e) => r matches Err(x) && x@ == e,
    }
}

} // verus!
