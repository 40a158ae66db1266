//! Runtime child-rule checks for child lists assembled at runtime.
//!
//! Each check mirrors the child rule that the `view!` macro enforces at
//! compile time for literal children, and returns the violated law as a
//! [`ChildRuleError`] instead of building an invalid component tree.
//!
//! The module also re-exports the serenity builder and model types that the
//! macros' generated code names, so call sites need no direct serenity
//! dependency.

use vstd::prelude::*;
use vstd::string::*;

pub use serenity::builder::CreateActionRow;
pub use serenity::builder::CreateAllowedMentions;
pub use serenity::builder::CreateButton;
pub use serenity::builder::CreateEmbed;
pub use serenity::builder::CreateEmbedAuthor;
pub use serenity::builder::CreateEmbedFooter;
pub use serenity::builder::CreateMessage;
pub use serenity::builder::CreatePoll;
pub use serenity::builder::CreatePollAnswer;
pub use serenity::builder::CreateSelectMenu;
pub use serenity::builder::CreateSelectMenuKind;
pub use serenity::builder::CreateSelectMenuOption;
pub use serenity::model::Colour;
pub use serenity::model::Timestamp;
pub use serenity::model::application::ButtonStyle;
pub use serenity::model::channel::MessageFlags;
pub use serenity::model::channel::PollLayoutType;
pub use serenity::model::channel::ReactionType;

verus! {

/// One law of the component child rules, as violated by a child list.
#[derive(Debug, Clone, Copy, PartialEq, Eq, Structural)]
#[non_exhaustive]
pub enum ChildRuleError {
    /// An action row with no button and no select menu.
    ActionRowEmpty,
    /// An action row with more than 5 buttons.
    ActionRowTooManyButtons,
    /// A section with no text display.
    SectionEmpty,
    /// A section with more than 3 text displays.
    SectionTooManyTextDisplays,
    /// A section without its accessory.
    SectionMissingAccessory,
    /// A string select menu with more than 25 options.
    SelectMenuTooManyOptions,
    /// A media gallery with no item.
    MediaGalleryEmpty,
    /// A media gallery with more than 10 items.
    MediaGalleryTooManyItems,
    /// A container with more than 40 direct children.
    ContainerTooManyChildren,
    /// A modal-only `label` among the `components_v2` root children.
    V2RootModalLabel,
    /// A `components_v2` root with no child.
    V2RootEmpty,
    /// A `components_v2` root with more than 40 direct children.
    V2RootTooManyChildren,
}

/// Most buttons an action row holds.
pub const MAX_ROW_BUTTONS: usize = 5;
/// Most text displays a section holds.
pub const MAX_SECTION_TEXTS: usize = 3;
/// Most options a string select menu holds.
pub const MAX_SELECT_OPTIONS: usize = 25;
/// Most items a media gallery holds.
pub const MAX_GALLERY_ITEMS: usize = 10;
/// Most direct children a container or a `components_v2` root holds.
pub const MAX_V2_CHILDREN: usize = 40;

impl ChildRuleError {
    /// The text of the violated law.
    pub open spec fn law_text(self) -> Seq<char> {
        match self {
            ChildRuleError::ActionRowEmpty => "action_row must contain at least one button or a select menu"@,
            ChildRuleError::ActionRowTooManyButtons => "action_row cannot contain more than 5 buttons"@,
            ChildRuleError::SectionEmpty => "section must contain at least one `text_display`"@,
            ChildRuleError::SectionTooManyTextDisplays => "section cannot contain more than 3 text_display components"@,
            ChildRuleError::SectionMissingAccessory => "section requires exactly one accessory (`thumbnail` or `button`)"@,
            ChildRuleError::SelectMenuTooManyOptions => "select menu cannot have more than 25 options"@,
            ChildRuleError::MediaGalleryEmpty => "media_gallery must contain at least one `media_gallery_item`"@,
            ChildRuleError::MediaGalleryTooManyItems => "media_gallery cannot contain more than 10 items"@,
            ChildRuleError::ContainerTooManyChildren => "container cannot contain more than 40 components"@,
            ChildRuleError::V2RootModalLabel => "`label` cannot appear inside `components_v2` — labels are modal-only"@,
            ChildRuleError::V2RootEmpty => "`components_v2` must contain at least one component"@,
            ChildRuleError::V2RootTooManyChildren => "components_v2 cannot contain more than 40 components"@,
        }
    }

    /// The law text as a borrowed string.
    pub fn law(&self) -> (r: &'static str)
        ensures
            r@ == self.law_text(),
    {
        match self {
            ChildRuleError::ActionRowEmpty => "action_row must contain at least one button or a select menu",
            ChildRuleError::ActionRowTooManyButtons => "action_row cannot contain more than 5 buttons",
            ChildRuleError::SectionEmpty => "section must contain at least one `text_display`",
            ChildRuleError::SectionTooManyTextDisplays => "section cannot contain more than 3 text_display components",
            ChildRuleError::SectionMissingAccessory => "section requires exactly one accessory (`thumbnail` or `button`)",
            ChildRuleError::SelectMenuTooManyOptions => "select menu cannot have more than 25 options",
            ChildRuleError::MediaGalleryEmpty => "media_gallery must contain at least one `media_gallery_item`",
            ChildRuleError::MediaGalleryTooManyItems => "media_gallery cannot contain more than 10 items",
            ChildRuleError::ContainerTooManyChildren => "container cannot contain more than 40 components",
            ChildRuleError::V2RootModalLabel => "`label` cannot appear inside `components_v2` — labels are modal-only",
            ChildRuleError::V2RootEmpty => "`components_v2` must contain at least one component",
            ChildRuleError::V2RootTooManyChildren => "components_v2 cannot contain more than 40 components",
        }
    }

    /// The law text as an owned string (what the error prints).
    pub fn to_string(&self) -> (r: String)
        ensures
            r@ == self.law_text(),
    {
        String::from_str(self.law())
    }
}

/// The kind of a `components_v2` root child: the variant of the builder enum
/// that wraps it.
#[derive(Debug, Clone, Copy, PartialEq, Eq, Structural)]
pub enum ComponentKind {
    ActionRow,
    Section,
    TextDisplay,
    MediaGallery,
    File,
    Separator,
    Container,
    /// A modal-only label; never a legal message child.
    Label,
}

/// What [`check_action_row_children`] answers for a button list of length `n`.
pub open spec fn action_row_rule(n: nat) -> Result<(), ChildRuleError> {
    if n == 0 {
        Err(ChildRuleError::ActionRowEmpty)
    } else if n > MAX_ROW_BUTTONS {
        Err(ChildRuleError::ActionRowTooManyButtons)
    } else {
        Ok(())
    }
}

/// What [`check_section_children`] answers for `n` text displays, with or
/// without an accessory.
pub open spec fn section_rule(n: nat, has_accessory: bool) -> Result<(), ChildRuleError> {
    if n == 0 {
        Err(ChildRuleError::SectionEmpty)
    } else if n > MAX_SECTION_TEXTS {
        Err(ChildRuleError::SectionTooManyTextDisplays)
    } else if !has_accessory {
        Err(ChildRuleError::SectionMissingAccessory)
    } else {
        Ok(())
    }
}

/// What [`check_select_menu_options`] answers for `n` options.
pub open spec fn select_menu_rule(n: nat) -> Result<(), ChildRuleError> {
    if n > MAX_SELECT_OPTIONS {
        Err(ChildRuleError::SelectMenuTooManyOptions)
    } else {
        Ok(())
    }
}

/// What [`check_media_gallery_items`] answers for `n` items.
pub open spec fn media_gallery_rule(n: nat) -> Result<(), ChildRuleError> {
    if n == 0 {
        Err(ChildRuleError::MediaGalleryEmpty)
    } else if n > MAX_GALLERY_ITEMS {
        Err(ChildRuleError::MediaGalleryTooManyItems)
    } else {
        Ok(())
    }
}

/// What [`check_container_children`] answers for `n` children.
pub open spec fn container_rule(n: nat) -> Result<(), ChildRuleError> {
    if n > MAX_V2_CHILDREN {
        Err(ChildRuleError::ContainerTooManyChildren)
    } else {
        Ok(())
    }
}

/// What [`check_v2_root_children`] answers for the given child kinds.
pub open spec fn v2_root_rule(kinds: Seq<ComponentKind>) -> Result<(), ChildRuleError> {
    if exists|k: int| 0 <= k < kinds.len() && kinds[k] == ComponentKind::Label {
        Err(ChildRuleError::V2RootModalLabel)
    } else if kinds.len() == 0 {
        Err(ChildRuleError::V2RootEmpty)
    } else if kinds.len() > MAX_V2_CHILDREN {
        Err(ChildRuleError::V2RootTooManyChildren)
    } else {
        Ok(())
    }
}

/// Checks a runtime-assembled action-row button list: an action row holds 1
/// to 5 buttons (a select-menu row is built from its single menu instead).
pub fn check_action_row_children<T>(buttons: &[T]) -> (r: Result<(), ChildRuleError>)
    ensures
        r == action_row_rule(buttons@.len()),
{
    if buttons.len() == 0 {
        return Err(ChildRuleError::ActionRowEmpty);
    }
    if buttons.len() > MAX_ROW_BUTTONS {
        return Err(ChildRuleError::ActionRowTooManyButtons);
    }
    Ok(())
}

/// Checks runtime-assembled section children: 1 to 3 text displays plus
/// exactly one accessory, given as a separate argument.
pub fn check_section_children<T, A>(text_displays: &[T], accessory: Option<&A>) -> (r: Result<
    (),
    ChildRuleError,
>)
    ensures
        r == section_rule(text_displays@.len(), accessory is Some),
{
    if text_displays.len() == 0 {
        return Err(ChildRuleError::SectionEmpty);
    }
    if text_displays.len() > MAX_SECTION_TEXTS {
        return Err(ChildRuleError::SectionTooManyTextDisplays);
    }
    if accessory.is_none() {
        return Err(ChildRuleError::SectionMissingAccessory);
    }
    Ok(())
}

/// Checks runtime-assembled string-select options: at most 25 options, and
/// no minimum.
pub fn check_select_menu_options<T>(options: &[T]) -> (r: Result<(), ChildRuleError>)
    ensures
        r == select_menu_rule(options@.len()),
{
    if options.len() > MAX_SELECT_OPTIONS {
        return Err(ChildRuleError::SelectMenuTooManyOptions);
    }
    Ok(())
}

/// Checks runtime-assembled media-gallery items: 1 to 10 items.
pub fn check_media_gallery_items<T>(items: &[T]) -> (r: Result<(), ChildRuleError>)
    ensures
        r == media_gallery_rule(items@.len()),
{
    if items.len() == 0 {
        return Err(ChildRuleError::MediaGalleryEmpty);
    }
    if items.len() > MAX_GALLERY_ITEMS {
        return Err(ChildRuleError::MediaGalleryTooManyItems);
    }
    Ok(())
}

/// Checks runtime-assembled container children: at most 40 direct children;
/// an empty container is legal.
pub fn check_container_children<T>(children: &[T]) -> (r: Result<(), ChildRuleError>)
    ensures
        r == container_rule(children@.len()),
{
    if children.len() > MAX_V2_CHILDREN {
        return Err(ChildRuleError::ContainerTooManyChildren);
    }
    Ok(())
}

/// Checks runtime-assembled `components_v2` root children: no modal-only
/// label, at least one child, at most 40 direct children.
pub fn check_v2_root_children(children: &[ComponentKind]) -> (r: Result<(), ChildRuleError>)
    ensures
        r == v2_root_rule(children@),
{
    let mut i: usize = 0;
    while i < children.len()
        invariant
            i <= children@.len(),
            forall|k: int| 0 <= k < i ==> children@[k] != ComponentKind::Label,
        decreases children@.len() - i,
    {
        if children[i] == ComponentKind::Label {
            return Err(ChildRuleError::V2RootModalLabel);
        }
        i = i + 1;
    }
    if children.len() == 0 {
        return Err(ChildRuleError::V2RootEmpty);
    }
    if children.len() > MAX_V2_CHILDREN {
        return Err(ChildRuleError::V2RootTooManyChildren);
    }
    Ok(())
}

} // verus!
