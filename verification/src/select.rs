//! Select menus: options, the option-count law, and the menu kind.

use vstd::prelude::*;
use vstd::string::*;
use crate::text::{str_eq, contains_str, has_substring};
use crate::tree::{ViewItem, ViewBody};
use crate::view_error::{ViewError, ErrorModel, Site, em, error_at, error_quoting, quoting, unknown_error,
    unknown_message, splice_message, splice_not_allowed};
use crate::registry::{Schema, ChildList, slot_count, spec_child_names, child_names};
use crate::attrs::{attr_step, no_slots, empty_slots, collect_attr, bare_error, bare_literal};
use crate::leaf::{text_of, attr_text, call_err, missing, spec_select_option, expand_select_menu_option};
use crate::plan::{Emit, SelectKind, same_stream};
use crate::view_support::MAX_SELECT_OPTIONS;

verus! {

/// The element name a select menu was written with.
#[derive(Debug, Clone, Copy, PartialEq, Eq, Structural)]
pub enum SelectElement {
    /// `select_menu`: the kind comes from `kind`, or from the options.
    SelectMenu,
    /// `string_select`
    StringSelect,
    /// `user_select`
    UserSelect,
    /// `role_select`
    RoleSelect,
    /// `mentionable_select`
    MentionableSelect,
    /// `channel_select`
    ChannelSelect,
}

/// The `kind` value texts that name the string kind.
pub open spec fn names_string_kind(t: Seq<char>) -> bool {
    t == "string"@ || t == "\"string\""@ || t == "String"@
}

/// The `kind` value texts that name the user kind.
pub open spec fn names_user_kind(t: Seq<char>) -> bool {
    t == "user"@ || t == "\"user\""@ || t == "User"@
}

/// The `kind` value texts that name the role kind.
pub open spec fn names_role_kind(t: Seq<char>) -> bool {
    t == "role"@ || t == "\"role\""@ || t == "Role"@
}

/// The `kind` value texts that name the mentionable kind.
pub open spec fn names_mentionable_kind(t: Seq<char>) -> bool {
    t == "mentionable"@ || t == "\"mentionable\""@ || t == "Mentionable"@
}

/// The `kind` value texts that name the channel kind.
pub open spec fn names_channel_kind(t: Seq<char>) -> bool {
    t == "channel"@ || t == "\"channel\""@ || t == "Channel"@
}

/// An option is refused in a typed select whose `kind` so far names
/// something other than a string select.
pub open spec fn option_refused(elem: SelectElement, items: Seq<ViewItem>, slots: Seq<Option<usize>>) -> bool {
    &&& elem != SelectElement::SelectMenu
    &&& elem != SelectElement::StringSelect
    &&& slots[6] is Some
    &&& text_of(items, slots[6]->Some_0) != "string"@
    &&& !has_substring(text_of(items, slots[6]->Some_0), "String"@)
}

/// The element names of an option.
pub open spec fn is_option_name(n: Seq<char>) -> bool {
    n == "select_menu_option"@ || n == "option"@
}

/// Scanning a select menu's items from position `i`, with the slots, the
/// option nodes and the option count so far.
pub open spec fn select_scan(
    elem: SelectElement,
    items: Seq<ViewItem>,
    i: int,
    slots: Seq<Option<usize>>,
    opts: Seq<Emit>,
    n: nat,
) -> Result<(Seq<Option<usize>>, Seq<Emit>, nat), ErrorModel>
    decreases items.len() - i,
{
    if i < 0 || i >= items.len() {
        Ok((slots, opts, n))
    } else {
        match items[i] {
            ViewItem::Attr { id, key, .. } => match attr_step(Schema::SelectMenu, slots, id, key@) {
                Ok(s2) => select_scan(elem, items, i + 1, s2, opts, n),
                Err(e) => Err(e),
            },
            ViewItem::Element { id, name, body } => if is_option_name(name@) {
                if option_refused(elem, items, slots) {
                    Err(
                        em(
                            Site::Item(id),
                            quoting(""@, name@, " only allowed for string select (kind=string)"@),
                        ),
                    )
                } else if n >= MAX_SELECT_OPTIONS {
                    Err(em(Site::Item(id), "select menu cannot have more than 25 options"@))
                } else {
                    match spec_select_option(body.items@) {
                        Ok(o) => select_scan(elem, items, i + 1, slots, opts.push(o), n + 1),
                        Err(e) => Err(e),
                    }
                }
            } else {
                Err(
                    em(
                        Site::Item(id),
                        unknown_message(
                            "unknown select_menu child "@,
                            name@,
                            ""@,
                            spec_child_names(ChildList::SelectMenuChildren),
                            ""@,
                        ),
                    ),
                )
            },
            ViewItem::Splice { id } => Err(em(Site::Item(id), splice_message("`select_menu`"@))),
            ViewItem::Bare { id } => Err(bare_error(Schema::SelectMenu, id)),
        }
    }
}

/// The error for options in a select of kind `what` ("user", ...).
pub open spec fn options_refused_message(what: Seq<char>) -> Seq<char> {
    what + " select cannot have options"@
}

/// The kind of a select menu, or the error that its options or its missing
/// `kind` cause.
pub open spec fn select_kind(
    elem: SelectElement,
    items: Seq<ViewItem>,
    kind: Option<usize>,
    n: nat,
) -> Result<SelectKind, ErrorModel> {
    match elem {
        SelectElement::StringSelect => Ok(SelectKind::Text),
        SelectElement::UserSelect => if n > 0 {
            Err(call_err(options_refused_message("user"@)))
        } else {
            Ok(SelectKind::User)
        },
        SelectElement::RoleSelect => if n > 0 {
            Err(call_err(options_refused_message("role"@)))
        } else {
            Ok(SelectKind::Role)
        },
        SelectElement::MentionableSelect => if n > 0 {
            Err(call_err(options_refused_message("mentionable"@)))
        } else {
            Ok(SelectKind::Mentionable)
        },
        SelectElement::ChannelSelect => if n > 0 {
            Err(call_err(options_refused_message("channel"@)))
        } else {
            Ok(SelectKind::Channel)
        },
        SelectElement::SelectMenu => match kind {
            Some(k) => {
                let t = text_of(items, k);
                if names_string_kind(t) {
                    Ok(SelectKind::Text)
                } else if names_user_kind(t) {
                    if n > 0 {
                        Err(em(Site::Value(k), options_refused_message("user"@)))
                    } else {
                        Ok(SelectKind::User)
                    }
                } else if names_role_kind(t) {
                    if n > 0 {
                        Err(em(Site::Value(k), options_refused_message("role"@)))
                    } else {
                        Ok(SelectKind::Role)
                    }
                } else if names_mentionable_kind(t) {
                    if n > 0 {
                        Err(em(Site::Value(k), options_refused_message("mentionable"@)))
                    } else {
                        Ok(SelectKind::Mentionable)
                    }
                } else if names_channel_kind(t) {
                    if n > 0 {
                        Err(em(Site::Value(k), options_refused_message("channel"@)))
                    } else {
                        Ok(SelectKind::Channel)
                    }
                } else {
                    Ok(SelectKind::Expr(k))
                }
            },
            None => if n > 0 {
                Ok(SelectKind::Text)
            } else {
                Err(call_err("select_menu requires `kind` or options (for string select)"@))
            },
        },
    }
}

/// What a select menu plans to: the menu node, followed by its option nodes
/// when it is a string select.
#[verifier::opaque]
pub open spec fn spec_select_menu(elem: SelectElement, items: Seq<ViewItem>) -> Result<Seq<Emit>, ErrorModel> {
    match select_scan(elem, items, 0, no_slots(slot_count(Schema::SelectMenu)), Seq::empty(), 0) {
        Err(e) => Err(e),
        Ok((s, opts, n)) => if s[0] is None {
            Err(call_err("select_menu requires `custom_id`"@))
        } else {
            match select_kind(elem, items, s[6], n) {
                Err(e) => Err(e),
                Ok(kind) => {
                    let shown = kind == SelectKind::Text;
                    Ok(
                        seq![
                            Emit::SelectMenu {
                                custom_id: s[0]->Some_0,
                                kind,
                                placeholder: s[1],
                                min_values: s[2],
                                max_values: s[3],
                                required: s[5],
                                disabled: s[4],
                                options: if shown {
                                    n as usize
                                } else {
                                    0
                                },
                            },
                        ] + if shown {
                            opts
                        } else {
                            Seq::empty()
                        },
                    )
                },
            }
        },
    }
}

fn kind_is(t: &str, a: &str, b: &str, c: &str) -> (r: bool)
    ensures
        r == (t@ == a@ || t@ == b@ || t@ == c@),
{
    str_eq(t, a) || str_eq(t, b) || str_eq(t, c)
}

fn options_refused(site: Site, what: &str) -> (e: ViewError)
    ensures
        e@ == em(site, options_refused_message(what@)),
{
    ViewError { site, message: String::from_str(what).concat(" select cannot have options") }
}

/// Decides [`select_kind`].
fn resolve_select_kind(elem: SelectElement, items: &Vec<ViewItem>, kind: Option<usize>, n: usize) -> (r:
    Result<SelectKind, ViewError>)
    ensures
        match select_kind(elem, items@, kind, n as nat) {
            Ok(k) => r == Ok::<SelectKind, ViewError>(k),
            Err(e) => r matches Err(x) && x@ == e,
        },
{
    match elem {
        SelectElement::StringSelect => Ok(SelectKind::Text),
        SelectElement::UserSelect => if n > 0 {
            Err(options_refused(Site::CallSite, "user"))
        } else {
            Ok(SelectKind::User)
        },
        SelectElement::RoleSelect => if n > 0 {
            Err(options_refused(Site::CallSite, "role"))
        } else {
            Ok(SelectKind::Role)
        },
        SelectElement::MentionableSelect => if n > 0 {
            Err(options_refused(Site::CallSite, "mentionable"))
        } else {
            Ok(SelectKind::Mentionable)
        },
        SelectElement::ChannelSelect => if n > 0 {
            Err(options_refused(Site::CallSite, "channel"))
        } else {
            Ok(SelectKind::Channel)
        },
        SelectElement::SelectMenu => match kind {
            Some(k) => {
                let t = attr_text(items, k);
                if kind_is(t, "string", "\"string\"", "String") {
                    Ok(SelectKind::Text)
                } else if kind_is(t, "user", "\"user\"", "User") {
                    if n > 0 {
                        Err(options_refused(Site::Value(k), "user"))
                    } else {
                        Ok(SelectKind::User)
                    }
                } else if kind_is(t, "role", "\"role\"", "Role") {
                    if n > 0 {
                        Err(options_refused(Site::Value(k), "role"))
                    } else {
                        Ok(SelectKind::Role)
                    }
                } else if kind_is(t, "mentionable", "\"mentionable\"", "Mentionable") {
                    if n > 0 {
                        Err(options_refused(Site::Value(k), "mentionable"))
                    } else {
                        Ok(SelectKind::Mentionable)
                    }
                } else if kind_is(t, "channel", "\"channel\"", "Channel") {
                    if n > 0 {
                        Err(options_refused(Site::Value(k), "channel"))
                    } else {
                        Ok(SelectKind::Channel)
                    }
                } else {
                    Ok(SelectKind::Expr(k))
                }
            },
            None => if n > 0 {
                Ok(SelectKind::Text)
            } else {
                Err(missing("select_menu requires `kind` or options (for string select)"))
            },
        },
    }
}

/// Plans a select menu written as `elem`: its attributes, its options (at
/// most 25, and only in a string select), and its kind.
pub fn expand_select_menu(body: &ViewBody, elem: SelectElement) -> (r: Result<Vec<Emit>, ViewError>)
    ensures
        same_stream(r, spec_select_menu(elem, body.items@)),
{
    proof {
        reveal(spec_select_menu);
    }
    let items = &body.items;
    let mut slots = empty_slots(Schema::SelectMenu);
    let mut opts: Vec<Emit> = Vec::new();
    let mut n: usize = 0;
    let mut i: usize = 0;
    while i < items.len()
        invariant
            i <= items@.len(),
            items == &body.items,
            slots@.len() == slot_count(Schema::SelectMenu),
            n <= MAX_SELECT_OPTIONS,
            select_scan(
                elem,
                items@,
                0,
                no_slots(slot_count(Schema::SelectMenu)),
                Seq::empty(),
                0,
            ) == select_scan(elem, items@, i as int, slots@, opts@, n as nat),
        decreases items@.len() - i,
    {
        proof {
            reveal(spec_select_menu);
        }
        match &items[i] {
            ViewItem::Attr { id, key, .. } => {
                let ghost old_slots = slots@;
                let r = collect_attr(Schema::SelectMenu, &mut slots, *id, key.as_str());
                if r.is_err() {
                    assert(attr_step(Schema::SelectMenu, old_slots, *id, key@) is Err);
                    assert(select_scan(elem, items@, i as int, old_slots, opts@, n as nat) is Err);
                    assert(spec_select_menu(elem, items@) is Err);
                }
r?;
            },
            ViewItem::Element { id, name, body } => {
                if str_eq(name.as_str(), "select_menu_option") || str_eq(name.as_str(), "option") {
                    let refused = match slots[6] {
                        Some(k) => elem != SelectElement::SelectMenu && elem
                            != SelectElement::StringSelect && {
                            let t = attr_text(items, k);
                            !str_eq(t, "string") && !contains_str(t, "String")
                        },
                        None => false,
                    };
                    if refused {
                        return Err(
                            error_quoting(
                                Site::Item(*id),
                                "",
                                name.as_str(),
                                " only allowed for string select (kind=string)",
                            ),
                        );
                    }
                    if n >= MAX_SELECT_OPTIONS {
                        return Err(
                            error_at(Site::Item(*id), "select menu cannot have more than 25 options"),
                        );
                    }
                    let o = expand_select_menu_option(body)?;
                    opts.push(o);
                    n = n + 1;
                } else {
                    let names = child_names(ChildList::SelectMenuChildren);
                    return Err(
                        unknown_error(
                            Site::Item(*id),
                            "unknown select_menu child ",
                            name.as_str(),
                            "",
                            names.as_slice(),
                            "",
                        ),
                    );
                }
            },
            ViewItem::Splice { id } => {
                return Err(splice_not_allowed("`select_menu`", *id));
            },
            ViewItem::Bare { id } => {
                return Err(bare_literal(Schema::SelectMenu, *id));
            },
        }
        i = i + 1;
    }
    let custom_id = match slots[0] {
        Some(c) => c,
        None => {
            return Err(missing("select_menu requires `custom_id`"));
        },
    };
    let kind = resolve_select_kind(elem, items, slots[6], n)?;
    let shown = kind == SelectKind::Text;
    let mut out: Vec<Emit> = Vec::new();
    out.push(
        Emit::SelectMenu {
            custom_id,
            kind,
            placeholder: slots[1],
            min_values: slots[2],
            max_values: slots[3],
            required: slots[5],
            disabled: slots[4],
            options: if shown {
                n
            } else {
                0
            },
        },
    );
    if shown {
        out.append(&mut opts);
    }
    Ok(out)
}

} // verus!

verus! {

/// The select-menu element a child name of an action row stands for.
pub open spec fn select_element_of(n: Seq<char>) -> Option<SelectElement> {
    if n == "select_menu"@ {
        Some(SelectElement::SelectMenu)
    } else if n == "string_select"@ {
        Some(SelectElement::StringSelect)
    } else if n == "user_select"@ {
        Some(SelectElement::UserSelect)
    } else if n == "role_select"@ {
        Some(SelectElement::RoleSelect)
    } else if n == "mentionable_select"@ {
        Some(SelectElement::MentionableSelect)
    } else if n == "channel_select"@ {
        Some(SelectElement::ChannelSelect)
    } else {
        None
    }
}

/// Decides [`select_element_of`].
pub fn select_element(n: &str) -> (r: Option<SelectElement>)
    ensures
        r == select_element_of(n@),
{
    if str_eq(n, "select_menu") {
        Some(SelectElement::SelectMenu)
    } else if str_eq(n, "string_select") {
        Some(SelectElement::StringSelect)
    } else if str_eq(n, "user_select") {
        Some(SelectElement::UserSelect)
    } else if str_eq(n, "role_select") {
        Some(SelectElement::RoleSelect)
    } else if str_eq(n, "mentionable_select") {
        Some(SelectElement::MentionableSelect)
    } else if str_eq(n, "channel_select") {
        Some(SelectElement::ChannelSelect)
    } else {
        None
    }
}

} // verus!
