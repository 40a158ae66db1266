//! What `view!` and `component!` bodies plan to, and the compile errors the
//! planner reports. Items carry the ids that the expansion refers back to.

use pwr_ext::plan::{ButtonCtor, Emit, SelectKind, Spacing};
use pwr_ext::root::{expand, expand_component, Expansion};
use pwr_ext::tree::{item_start, AttrValue, ItemStart, StartError, TokenKind, ViewBody, ViewInput, ViewItem};
use pwr_ext::view_error::{Site, ViewError};

fn attr(id: usize, key: &str, text: &str) -> ViewItem {
    ViewItem::Attr {
        id,
        key: key.to_string(),
        value: AttrValue { text: text.to_string(), array: None },
    }
}

fn attr_array(id: usize, key: &str, elems: &[&str]) -> ViewItem {
    ViewItem::Attr {
        id,
        key: key.to_string(),
        value: AttrValue {
            text: format!("[{}]", elems.join(", ")),
            array: Some(elems.iter().map(|e| e.to_string()).collect()),
        },
    }
}

fn el(id: usize, name: &str, items: Vec<ViewItem>) -> ViewItem {
    ViewItem::Element { id, name: name.to_string(), body: ViewBody { items } }
}

fn bare(id: usize) -> ViewItem {
    ViewItem::Bare { id }
}

fn splice(id: usize) -> ViewItem {
    ViewItem::Splice { id }
}

fn view(items: Vec<ViewItem>) -> Result<Expansion, ViewError> {
    expand(&ViewInput { items })
}

fn component(items: Vec<ViewItem>) -> Result<Expansion, ViewError> {
    expand_component(&ViewInput { items })
}

fn planned(r: Result<Expansion, ViewError>) -> (Vec<Emit>, bool) {
    match r {
        Ok(x) => (x.plan, x.fallible),
        Err(e) => panic!("unexpected planning error at {:?}: {}", e.site, e.message),
    }
}

fn refused(r: Result<Expansion, ViewError>) -> (Site, String) {
    match r {
        Ok(x) => panic!("expected a planning error, planned {:?}", x.plan),
        Err(e) => (e.site, e.message),
    }
}

fn empty_message() -> Emit {
    Emit::Message {
        content: None,
        tts: None,
        nonce: None,
        enforce_nonce: None,
        flags: None,
        sticker_ids: None,
        embeds: 0,
        allowed_mentions: false,
        poll: false,
    }
}

fn content_message(content: usize) -> Emit {
    Emit::Message {
        content: Some(content),
        tts: None,
        nonce: None,
        enforce_nonce: None,
        flags: None,
        sticker_ids: None,
        embeds: 0,
        allowed_mentions: false,
        poll: false,
    }
}

fn custom_button(custom_id: usize, label: usize) -> Emit {
    Emit::Button {
        ctor: ButtonCtor::Custom(custom_id),
        style: None,
        label: Some(label),
        emoji: None,
        disabled: None,
    }
}

fn text(content: usize) -> Emit {
    Emit::TextDisplay { content }
}

fn buttons(n: usize) -> Vec<ViewItem> {
    (1..=n)
        .map(|k| el(10 * k, "button", vec![attr(10 * k + 1, "custom_id", "\"x\""), attr(10 * k + 2, "label", "\"x\"")]))
        .collect()
}

fn text_displays(first_id: usize, n: usize) -> Vec<ViewItem> {
    (0..n).map(|k| el(first_id + 2 * k, "text_display", vec![bare(first_id + 2 * k + 1)])).collect()
}

#[test]
fn ui_compile_fail() {
    // action_row_mixed
    let (site, message) = refused(view(vec![el(
        1,
        "action_row",
        vec![
            el(2, "button", vec![attr(3, "custom_id", "\"1\""), attr(4, "label", "\"a\"")]),
            el(5, "select_menu", vec![attr(6, "custom_id", "\"2\"")]),
        ],
    )]));
    assert_eq!(site, Site::Item(5));
    assert_eq!(message, "action_row cannot contain both buttons and a select menu");

    // action_row_too_many_buttons
    let (site, message) = refused(view(vec![el(1, "action_row", buttons(6))]));
    assert_eq!(site, Site::Item(60));
    assert_eq!(message, "action_row cannot contain more than 5 buttons");

    // button_link_with_custom_id
    let (site, message) = refused(view(vec![el(
        1,
        "action_row",
        vec![el(
            2,
            "button",
            vec![
                attr(3, "custom_id", "\"1\""),
                attr(4, "url", "\"https://example.test\""),
                attr(5, "label", "\"a\""),
            ],
        )],
    )]));
    assert_eq!(site, Site::CallSite);
    assert_eq!(message, "link button (`url`) cannot have `custom_id`");

    // component_two_elements
    let (site, message) = refused(component(vec![
        el(1, "text_display", vec![bare(2)]),
        el(3, "text_display", vec![bare(4)]),
    ]));
    assert_eq!(site, Site::Item(3));
    assert_eq!(message, "`component!` takes exactly one element");

    // container_nested
    let (site, message) = refused(view(vec![el(
        1,
        "components_v2",
        vec![el(2, "container", vec![el(3, "container", vec![el(4, "text_display", vec![bare(5)])])])],
    )]));
    assert_eq!(site, Site::Item(3));
    assert_eq!(message, "`container` cannot be nested inside another `container`");

    // legacy_v2_mixing_content
    let (site, message) = refused(view(vec![
        attr(1, "content", "\"hi\""),
        el(2, "components_v2", vec![el(3, "text_display", vec![bare(4)])]),
    ]));
    assert_eq!(site, Site::Item(1));
    assert_eq!(
        message,
        "legacy attribute cannot appear alongside `components_v2` — use one family per `view!`"
    );

    // section_missing_accessory
    let (site, message) = refused(view(vec![el(
        1,
        "components_v2",
        vec![el(2, "section", vec![el(3, "text_display", vec![bare(4)])])],
    )]));
    assert_eq!(site, Site::CallSite);
    assert_eq!(message, "section requires exactly one accessory (`thumbnail` or `button`)");

    // section_too_many_text_displays
    let mut section = text_displays(10, 4);
    section.push(el(30, "thumbnail", vec![attr(31, "media", "\"https://example.test/a.png\"")]));
    let (site, message) =
        refused(view(vec![el(1, "components_v2", vec![el(2, "section", section)])]));
    assert_eq!(site, Site::Item(16));
    assert_eq!(message, "section cannot contain more than 3 text_display components");

    // splice_action_row_with_select_menu
    let (site, message) = refused(view(vec![el(
        1,
        "action_row",
        vec![splice(2), el(3, "select_menu", vec![attr(4, "custom_id", "\"s\"")])],
    )]));
    assert_eq!(site, Site::Item(3));
    assert_eq!(message, "action_row cannot contain both buttons and a select menu");

    // splice_alongside_components_v2
    let (site, message) = refused(view(vec![
        el(1, "components_v2", vec![el(2, "text_display", vec![bare(3)])]),
        splice(4),
    ]));
    assert_eq!(site, Site::Item(4));
    assert_eq!(
        message,
        "splice cannot appear alongside `components_v2` — use one family per `view!`"
    );

    // splice_in_button
    let (site, message) = refused(view(vec![el(
        1,
        "action_row",
        vec![el(
            2,
            "button",
            vec![attr(3, "custom_id", "\"b1\""), attr(4, "label", "\"B1\""), splice(5)],
        )],
    )]));
    assert_eq!(site, Site::Item(5));
    assert_eq!(message, "`{ ... }` splice is not allowed in `button`");

    // splice_wrong_item_type: the planner accepts a splice in a row; the
    // element type of the spliced vector is checked by rustc on the
    // generated code, not here.
    let (plan, fallible) = planned(view(vec![el(1, "action_row", vec![splice(2)])]));
    assert!(fallible);
    assert_eq!(
        plan,
        vec![
            empty_message(),
            Emit::List { len: 1, spliced: false },
            Emit::ActionRowButtons,
            Emit::List { len: 1, spliced: true },
            Emit::Splice(2),
        ]
    );
}

#[test]
fn view_empty_is_empty_message() {
    let (plan, fallible) = planned(view(vec![]));
    assert_eq!(plan, vec![empty_message()]);
    assert!(!fallible);
}

#[test]
fn view_content_sets_content() {
    let (plan, fallible) = planned(view(vec![attr(1, "content", "\"hi\"")]));
    assert_eq!(plan, vec![content_message(1)]);
    assert!(!fallible);
}

#[test]
fn view_content_trailing_comma() {
    // The trailing comma is syntax; the parsed body is the same one item.
    let (plan, _) = planned(view(vec![attr(7, "content", "\"hi\"")]));
    assert_eq!(plan, vec![content_message(7)]);
}

#[test]
fn view_content_expression() {
    let (plan, _) = planned(view(vec![attr(1, "content", "text.clone()")]));
    assert_eq!(plan, vec![content_message(1)]);
}

#[test]
fn container_positional_splice_parity() {
    let (plan, fallible) = planned(view(vec![el(
        1,
        "components_v2",
        vec![el(
            2,
            "container",
            vec![el(3, "text_display", vec![bare(4)]), splice(5), el(6, "text_display", vec![bare(7)])],
        )],
    )]));
    assert!(fallible);
    assert_eq!(
        plan,
        vec![
            Emit::V2Message { flags: None },
            Emit::List { len: 1, spliced: false },
            Emit::Container { accent: None, spoiler: None },
            Emit::List { len: 3, spliced: true },
            text(4),
            Emit::Splice(5),
            text(7),
        ]
    );
}

#[test]
fn action_row_positional_splice_parity() {
    let (plan, fallible) = planned(view(vec![el(
        1,
        "action_row",
        vec![
            el(2, "button", vec![attr(3, "custom_id", "\"b1\""), attr(4, "label", "\"B1\"")]),
            splice(5),
            el(6, "button", vec![attr(7, "custom_id", "\"b4\""), attr(8, "label", "\"B4\"")]),
        ],
    )]));
    assert!(fallible);
    assert_eq!(
        plan,
        vec![
            empty_message(),
            Emit::List { len: 1, spliced: false },
            Emit::ActionRowButtons,
            Emit::List { len: 3, spliced: true },
            custom_button(3, 4),
            Emit::Splice(5),
            custom_button(7, 8),
        ]
    );
}

#[test]
fn v2_root_positional_splice_parity() {
    let (plan, fallible) = planned(view(vec![el(
        1,
        "components_v2",
        vec![el(2, "text_display", vec![bare(3)]), splice(4), el(5, "text_display", vec![bare(6)])],
    )]));
    assert!(fallible);
    assert_eq!(
        plan,
        vec![
            Emit::V2Message { flags: None },
            Emit::List { len: 3, spliced: true },
            text(3),
            Emit::Splice(4),
            text(6),
        ]
    );
}

#[test]
fn legacy_root_positional_splice_parity() {
    let (plan, fallible) = planned(view(vec![
        attr(1, "content", "\"hello\""),
        el(
            2,
            "action_row",
            vec![el(3, "button", vec![attr(4, "custom_id", "\"b1\""), attr(5, "label", "\"B1\"")])],
        ),
        splice(6),
    ]));
    assert!(fallible);
    assert_eq!(
        plan,
        vec![
            content_message(1),
            Emit::List { len: 2, spliced: true },
            Emit::ActionRowButtons,
            Emit::List { len: 1, spliced: false },
            custom_button(4, 5),
            Emit::Splice(6),
        ]
    );
}

#[test]
fn section_positional_splice_parity() {
    let (plan, fallible) = planned(view(vec![el(
        1,
        "components_v2",
        vec![el(
            2,
            "section",
            vec![
                el(3, "text_display", vec![bare(4)]),
                splice(5),
                el(6, "text_display", vec![bare(7)]),
                el(8, "thumbnail", vec![attr(9, "media", "\"https://example.test/t.png\"")]),
            ],
        )],
    )]));
    assert!(fallible);
    assert_eq!(
        plan,
        vec![
            Emit::V2Message { flags: None },
            Emit::List { len: 1, spliced: false },
            Emit::Section,
            Emit::List { len: 3, spliced: true },
            text(4),
            Emit::Splice(5),
            text(7),
            Emit::Thumbnail { media: 9, description: None, spoiler: None },
        ]
    );
}

#[test]
fn media_gallery_positional_splice_parity() {
    let (plan, fallible) = planned(view(vec![el(
        1,
        "components_v2",
        vec![el(
            2,
            "media_gallery",
            vec![
                el(3, "media_gallery_item", vec![attr(4, "media", "\"attachment://first.png\"")]),
                splice(5),
                el(6, "media_gallery_item", vec![attr(7, "media", "\"attachment://last.png\"")]),
            ],
        )],
    )]));
    assert!(fallible);
    assert_eq!(
        plan,
        vec![
            Emit::V2Message { flags: None },
            Emit::List { len: 1, spliced: false },
            Emit::MediaGallery,
            Emit::List { len: 3, spliced: true },
            Emit::GalleryItem { media: 4, description: None, spoiler: None },
            Emit::Splice(5),
            Emit::GalleryItem { media: 7, description: None, spoiler: None },
        ]
    );
}

#[test]
fn embed_fields_positional_splice_parity() {
    let (plan, fallible) = planned(view(vec![el(
        1,
        "embed",
        vec![
            attr(2, "title", "\"T\""),
            el(3, "field", vec![attr(4, "name", "\"A\""), attr(5, "value", "\"a\""), attr(6, "inline", "true")]),
            splice(7),
            el(8, "field", vec![attr(9, "name", "\"Z\""), attr(10, "value", "\"z\""), attr(11, "inline", "false")]),
        ],
    )]));
    assert!(fallible);
    assert_eq!(
        plan,
        vec![
            Emit::Message {
                content: None,
                tts: None,
                nonce: None,
                enforce_nonce: None,
                flags: None,
                sticker_ids: None,
                embeds: 1,
                allowed_mentions: false,
                poll: false,
            },
            Emit::Embed {
                title: Some(2),
                description: None,
                url: None,
                timestamp: None,
                colour: None,
                author: false,
                footer: false,
                image: false,
                thumbnail: false,
                fields: true,
            },
            Emit::List { len: 3, spliced: true },
            Emit::Field { name: 4, value: 5, inline: Some(6) },
            Emit::Splice(7),
            Emit::Field { name: 9, value: 10, inline: Some(11) },
        ]
    );
}

#[test]
fn action_row_literal_over_limit_with_splice_is_left_to_the_runtime_check() {
    let mut leading = vec![splice(1)];
    leading.extend(buttons(6));
    let (plan, fallible) = planned(view(vec![el(2, "action_row", leading)]));
    assert!(fallible);
    assert_eq!(plan[3], Emit::List { len: 7, spliced: true });

    let mut trailing = buttons(6);
    trailing.push(splice(1));
    let (plan, fallible) = planned(view(vec![el(2, "action_row", trailing)]));
    assert!(fallible);
    assert_eq!(plan[3], Emit::List { len: 7, spliced: true });
}

#[test]
fn section_literal_over_limit_with_splice_is_left_to_the_runtime_check() {
    let mut items = text_displays(10, 4);
    items.push(splice(40));
    items.push(el(30, "thumbnail", vec![attr(31, "media", "\"https://example.test/t.png\"")]));
    let (plan, fallible) =
        planned(view(vec![el(1, "components_v2", vec![el(2, "section", items)])]));
    assert!(fallible);
    assert_eq!(plan[3], Emit::List { len: 5, spliced: true });
}

#[test]
fn a_view_without_splice_is_infallible() {
    let (_, fallible) = planned(view(vec![el(1, "action_row", buttons(5))]));
    assert!(!fallible);
}

#[test]
fn component_plans_a_single_bare_builder() {
    let (plan, fallible) = planned(component(vec![el(1, "text_display", vec![bare(2)])]));
    assert_eq!(plan, vec![text(2)]);
    assert!(!fallible);

    let (plan, fallible) =
        planned(component(vec![el(1, "action_row", vec![splice(2)])]));
    assert!(fallible);
    assert_eq!(
        plan,
        vec![Emit::ActionRowButtons, Emit::List { len: 1, spliced: true }, Emit::Splice(2)]
    );
}

#[test]
fn component_refuses_an_empty_body_and_a_message_root() {
    let (site, message) = refused(component(vec![]));
    assert_eq!(site, Site::CallSite);
    assert_eq!(
        message,
        "`component!` takes exactly one element, e.g. `component! { action_row { ... } }`"
    );

    let (site, message) = refused(component(vec![el(4, "components_v2", vec![])]));
    assert_eq!(site, Site::Item(4));
    assert!(message.starts_with("`components_v2` is a message root"));
}

#[test]
fn unknown_root_element_suggests_the_nearest_name() {
    let (site, message) = refused(view(vec![el(3, "embd", vec![])]));
    assert_eq!(site, Site::Item(3));
    assert_eq!(message, "unknown element `embd` at message root — did you mean `embed`?");
}

#[test]
fn unknown_attribute_is_refused_at_its_item() {
    let (site, message) =
        refused(view(vec![el(1, "embed", vec![attr(2, "titel", "\"x\"")])]));
    assert_eq!(site, Site::Item(2));
    assert!(message.contains("`titel`"));
    assert!(message.contains("did you mean `title`?"));
}

#[test]
fn duplicate_attribute_is_refused() {
    let (site, _) = refused(view(vec![attr(1, "content", "\"a\""), attr(2, "content", "\"b\"")]));
    assert_eq!(site, Site::Item(2));
}

#[test]
fn button_laws() {
    let row = |button: Vec<ViewItem>| view(vec![el(1, "action_row", vec![el(2, "button", button)])]);

    let (plan, _) = planned(row(vec![attr(3, "url", "\"https://example.test\""), attr(4, "label", "\"Link\"")]));
    assert_eq!(
        plan[4],
        Emit::Button { ctor: ButtonCtor::Link(3), style: None, label: Some(4), emoji: None, disabled: None }
    );

    let (site, message) = refused(row(vec![attr(3, "sku_id", "1"), attr(4, "label", "\"x\"")]));
    assert_eq!(site, Site::CallSite);
    assert_eq!(message, "premium button (`sku_id`) cannot have `label`");

    let (site, message) = refused(row(vec![
        attr(3, "style", "ButtonStyle::Link"),
        attr(4, "custom_id", "\"x\""),
    ]));
    assert_eq!(site, Site::Value(3));
    assert_eq!(message, "Link style button cannot have `custom_id` — use `url` instead");

    let (site, message) = refused(row(vec![attr(3, "style", "5"), attr(4, "label", "\"x\"")]));
    assert_eq!(site, Site::Value(3));
    assert_eq!(message, "Link style button requires `url`");

    let (site, message) = refused(row(vec![attr(3, "label", "\"x\"")]));
    assert_eq!(site, Site::CallSite);
    assert_eq!(
        message,
        "button requires `custom_id` (or `url` for link, `sku_id` for premium)"
    );
}

#[test]
fn separator_spacing_literals() {
    let sep = |value: &str| {
        planned(view(vec![el(
            1,
            "components_v2",
            vec![el(2, "separator", vec![attr(3, "spacing", value)])],
        )]))
        .0
    };
    assert_eq!(sep("1")[2], Emit::Separator { divider: None, spacing: Some(Spacing::Small) });
    assert_eq!(sep("2")[2], Emit::Separator { divider: None, spacing: Some(Spacing::Large) });
    assert_eq!(sep("gap")[2], Emit::Separator { divider: None, spacing: Some(Spacing::Expr(3)) });
}

#[test]
fn select_menu_with_options_plans_a_select_row() {
    let (plan, fallible) = planned(view(vec![el(
        1,
        "action_row",
        vec![el(
            2,
            "select_menu",
            vec![
                attr(3, "custom_id", "\"pick\""),
                attr(4, "placeholder", "\"Choose\""),
                el(5, "option", vec![attr(6, "label", "\"A\""), attr(7, "value", "\"a\"")]),
            ],
        )],
    )]));
    assert!(!fallible);
    assert_eq!(plan[2], Emit::ActionRowSelect);
    match plan[3] {
        Emit::SelectMenu { custom_id, kind, placeholder, options, .. } => {
            assert_eq!(custom_id, 3);
            assert_eq!(kind, SelectKind::Text);
            assert_eq!(placeholder, Some(4));
            assert_eq!(options, 1);
        }
        other => panic!("expected a select menu, planned {:?}", other),
    }
    assert_eq!(
        plan[4],
        Emit::SelectOption { label: 6, value: 7, description: None, emoji: None, default: None }
    );
}

#[test]
fn poll_plans_its_answers() {
    let (plan, _) = planned(view(vec![el(
        1,
        "poll",
        vec![
            attr(2, "question", "\"Best language?\""),
            attr(3, "duration", "24"),
            el(4, "answer", vec![attr(5, "text", "\"Rust\"")]),
        ],
    )]));
    assert_eq!(
        plan[0],
        Emit::Message {
            content: None,
            tts: None,
            nonce: None,
            enforce_nonce: None,
            flags: None,
            sticker_ids: None,
            embeds: 0,
            allowed_mentions: false,
            poll: true,
        }
    );
    assert_eq!(
        plan[1],
        Emit::Poll { question: 2, duration: 3, allow_multiselect: None, layout_type: None, answers: 1 }
    );
    assert_eq!(plan[2], Emit::PollAnswer { text: Some(5), emoji: None });

    let (site, message) = refused(view(vec![el(1, "poll", vec![attr(2, "question", "\"q\"")])]));
    assert_eq!(site, Site::CallSite);
    assert_eq!(message, "poll requires `duration` (hours)");
}

#[test]
fn allowed_mentions_array_values() {
    let (plan, _) = planned(view(vec![el(
        1,
        "allowed_mentions",
        vec![attr_array(2, "parse", &["everyone", "users"])],
    )]));
    assert!(plan.contains(&Emit::Mention(pwr_ext::plan::Mention::Everyone)));
    assert!(plan.contains(&Emit::Mention(pwr_ext::plan::Mention::AllUsers)));
}

#[test]
fn item_grammar_decides_on_two_tokens() {
    assert_eq!(item_start(TokenKind::Str, TokenKind::Other), Ok(ItemStart::Bare));
    assert_eq!(item_start(TokenKind::Brace, TokenKind::Other), Ok(ItemStart::Splice));
    assert_eq!(item_start(TokenKind::Ident, TokenKind::Colon), Ok(ItemStart::Attr));
    assert_eq!(item_start(TokenKind::Ident, TokenKind::Brace), Ok(ItemStart::Element));
    assert_eq!(
        item_start(TokenKind::Ident, TokenKind::Str),
        Err(StartError::NameWithoutColonOrBrace)
    );
    assert_eq!(item_start(TokenKind::Ident, TokenKind::End), Err(StartError::NameWithoutColonOrBrace));
    assert_eq!(item_start(TokenKind::Colon, TokenKind::Other), Err(StartError::Unexpected));
    assert_eq!(
        StartError::NameWithoutColonOrBrace.message(),
        Some("expected `:` after attribute name or `{` after element name")
    );
    assert_eq!(StartError::Unexpected.message(), None);
}

#[test]
fn select_menu_refuses_a_splice() {
    let (site, message) = refused(view(vec![el(
        1,
        "action_row",
        vec![el(2, "select_menu", vec![attr(3, "custom_id", "\"s\""), splice(4)])],
    )]));
    assert_eq!(site, Site::Item(4));
    assert_eq!(message, "`{ ... }` splice is not allowed in `select_menu`");
}

#[test]
fn component_row_is_the_row_a_view_lists() {
    let row = || el(1, "action_row", vec![splice(2), el(3, "button", vec![attr(4, "custom_id", "\"b\"")])]);
    let (alone, alone_fallible) = planned(component(vec![row()]));
    let (in_view, view_fallible) = planned(view(vec![row()]));
    let mut expected = vec![empty_message(), Emit::List { len: 1, spliced: false }];
    expected.extend(alone);
    assert_eq!(in_view, expected);
    assert_eq!(alone_fallible, view_fallible);
}

#[test]
fn component_v2_element_is_the_child_a_v2_view_lists() {
    let child = || {
        el(
            2,
            "container",
            vec![attr(3, "accent_color", "0xFF0000"), el(4, "text_display", vec![bare(5)])],
        )
    };
    let (alone, alone_fallible) = planned(component(vec![child()]));
    let (in_view, view_fallible) = planned(view(vec![el(1, "components_v2", vec![child()])]));
    let mut expected = vec![Emit::V2Message { flags: None }, Emit::List { len: 1, spliced: false }];
    expected.extend(alone);
    assert_eq!(in_view, expected);
    assert_eq!(alone_fallible, view_fallible);
    assert!(!alone_fallible);
}
