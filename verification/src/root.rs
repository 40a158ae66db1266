//! The roots: the legacy message root, the `view!` family decision, and
//! `component!`.

use vstd::prelude::*;
use vstd::string::*;
use crate::text::str_eq;
use crate::tree::{ViewItem, ViewBody, ViewInput, spec_any_splice, any_splice};
use crate::view_error::{ViewError, ErrorModel, Site, em, error_at, error_quoting, quoting,
    unknown_error, unknown_message};
use crate::registry::{Schema, ChildList, slot_count, spec_child_names, child_names};
use crate::attrs::{attr_step, no_slots, empty_slots, collect_attr};
use crate::leaf::{call_err, missing, spec_thumbnail, expand_thumbnail, spec_file, expand_file,
    spec_separator, expand_separator, spec_button, expand_button, spec_select_option,
    expand_select_menu_option, spec_poll_answer, expand_poll_answer};
use crate::select::{SelectElement, spec_select_menu, expand_select_menu};
use crate::action_row::{spec_action_row, expand_action_row};
use crate::embed::{spec_embed, expand_embed, spec_poll, expand_poll, spec_allowed_mentions,
    expand_allowed_mentions, dup_child_error, list_if_any};
use crate::v2::{ListScan, list_start, list_push, list_splice, as_stream, spec_text_display,
    expand_text_display, spec_media_gallery, expand_media_gallery, spec_section, expand_section,
    spec_container, expand_container, spec_v2_root, expand_v2_root};
use crate::plan::{Emit, same_stream};

verus! {

// --- legacy root ---

/// What the legacy root has collected so far.
pub struct RootScan {
    pub slots: Seq<Option<usize>>,
    /// The embed nodes, in order.
    pub embeds: Seq<Emit>,
    pub ne: nat,
    /// The message components: action rows and splices.
    pub comps: ListScan,
    pub mentions: Option<Seq<Emit>>,
    pub poll: Option<Seq<Emit>>,
}

/// Nothing collected.
pub open spec fn root_start() -> RootScan {
    RootScan {
        slots: no_slots(slot_count(Schema::Root)),
        embeds: Seq::empty(),
        ne: 0,
        comps: list_start(),
        mentions: None,
        poll: None,
    }
}

/// The components-v2 elements, which the legacy family refuses.
pub open spec fn is_v2_only_element(n: Seq<char>) -> bool {
    n == "container"@ || n == "section"@ || n == "text_display"@ || n == "media_gallery"@ || n
        == "file"@ || n == "separator"@ || n == "thumbnail"@ || n == "media_gallery_item"@
}

/// Scanning the legacy root's items from position `i`.
pub open spec fn root_scan(items: Seq<ViewItem>, i: int, st: RootScan) -> Result<RootScan, ErrorModel>
    decreases items.len() - i,
{
    if i < 0 || i >= items.len() {
        Ok(st)
    } else {
        match items[i] {
            ViewItem::Attr { id, key, .. } => match attr_step(Schema::Root, st.slots, id, key@) {
                Ok(s2) => root_scan(items, i + 1, RootScan { slots: s2, ..st }),
                Err(e) => Err(e),
            },
            ViewItem::Element { id, name, body } => if name@ == "embed"@ {
                match spec_embed(body.items@) {
                    Ok(e) => root_scan(
                        items,
                        i + 1,
                        RootScan { embeds: st.embeds + e, ne: st.ne + 1, ..st },
                    ),
                    Err(e) => Err(e),
                }
            } else if name@ == "action_row"@ {
                match spec_action_row(body.items@) {
                    Ok(a) => root_scan(items, i + 1, RootScan { comps: list_push(st.comps, a), ..st }),
                    Err(e) => Err(e),
                }
            } else if name@ == "allowed_mentions"@ {
                if st.mentions is Some {
                    Err(dup_child_error(id, "allowed_mentions"@))
                } else {
                    match spec_allowed_mentions(body.items@) {
                        Ok(m) => root_scan(items, i + 1, RootScan { mentions: Some(m), ..st }),
                        Err(e) => Err(e),
                    }
                }
            } else if name@ == "poll"@ {
                if st.poll is Some {
                    Err(dup_child_error(id, "poll"@))
                } else {
                    match spec_poll(body.items@) {
                        Ok(p) => root_scan(items, i + 1, RootScan { poll: Some(p), ..st }),
                        Err(e) => Err(e),
                    }
                }
            } else if is_v2_only_element(name@) {
                Err(
                    em(
                        Site::Item(id),
                        quoting(
                            "v2 element "@,
                            name@,
                            " cannot appear in legacy family — wrap v2 content in `components_v2 { ... }`"@,
                        ),
                    ),
                )
            } else {
                Err(
                    em(
                        Site::Item(id),
                        unknown_message(
                            "unknown element "@,
                            name@,
                            " at message root"@,
                            spec_child_names(ChildList::RootChildren),
                            ""@,
                        ),
                    ),
                )
            },
            ViewItem::Splice { id } => root_scan(
                items,
                i + 1,
                RootScan { comps: list_splice(st.comps, id), ..st },
            ),
            ViewItem::Bare { id } => Err(
                em(
                    Site::Item(id),
                    "bare string not allowed at message root — only inside `text_display { \"...\" }`"@,
                ),
            ),
        }
    }
}

/// An optional part's nodes, or nothing.
pub open spec fn opt_part(o: Option<Seq<Emit>>) -> Seq<Emit> {
    match o {
        Some(s) => s,
        None => Seq::empty(),
    }
}

/// What the legacy root plans to: the message node, its embeds, its allowed
/// mentions and poll when given, then its components list when non-empty.
#[verifier::opaque]
pub open spec fn spec_legacy_root(items: Seq<ViewItem>) -> Result<Seq<Emit>, ErrorModel> {
    match root_scan(items, 0, root_start()) {
        Err(e) => Err(e),
        Ok(st) => Ok(
            seq![
                Emit::Message {
                    content: st.slots[0],
                    tts: st.slots[1],
                    nonce: st.slots[2],
                    enforce_nonce: st.slots[3],
                    flags: st.slots[4],
                    sticker_ids: st.slots[5],
                    embeds: st.ne as usize,
                    allowed_mentions: st.mentions is Some,
                    poll: st.poll is Some,
                },
            ] + st.embeds + opt_part(st.mentions) + opt_part(st.poll) + list_if_any(
                st.comps.steps,
                st.comps.n,
                st.comps.spliced,
            ),
        ),
    }
}

fn dup_part(id: usize, what: &str) -> (e: ViewError)
    ensures
        e@ == dup_child_error(id, what@),
{
    error_quoting(Site::Item(id), "duplicate ", what, "")
}

fn is_v2_only(n: &str) -> (r: bool)
    ensures
        r == is_v2_only_element(n@),
{
    str_eq(n, "container") || str_eq(n, "section") || str_eq(n, "text_display") || str_eq(
        n,
        "media_gallery",
    ) || str_eq(n, "file") || str_eq(n, "separator") || str_eq(n, "thumbnail") || str_eq(
        n,
        "media_gallery_item",
    )
}

/// Plans the legacy message root.
pub fn expand_legacy_root(items: &Vec<ViewItem>) -> (r: Result<Vec<Emit>, ViewError>)
    ensures
        same_stream(r, spec_legacy_root(items@)),
{
    proof {
        reveal(spec_legacy_root);
    }
    let mut slots = empty_slots(Schema::Root);
    let mut embeds: Vec<Emit> = Vec::new();
    let mut ne: usize = 0;
    let mut steps: Vec<Emit> = Vec::new();
    let mut nc: usize = 0;
    let mut spliced = false;
    let mut has_mentions = false;
    let mut mentions: Vec<Emit> = Vec::new();
    let mut has_poll = false;
    let mut poll: Vec<Emit> = Vec::new();
    let mut i: usize = 0;
    while i < items.len()
        invariant
            i <= items@.len(),
            ne <= i,
            nc <= i,
            slots@.len() == slot_count(Schema::Root),
            root_scan(items@, 0, root_start()) == root_scan(
                items@,
                i as int,
                RootScan {
                    slots: slots@,
                    embeds: embeds@,
                    ne: ne as nat,
                    comps: ListScan { steps: steps@, n: nc as nat, spliced },
                    mentions: if has_mentions {
                        Some(mentions@)
                    } else {
                        None
                    },
                    poll: if has_poll {
                        Some(poll@)
                    } else {
                        None
                    },
                },
            ),
        decreases items@.len() - i,
    {
        proof {
            reveal(spec_legacy_root);
        }
        match &items[i] {
            ViewItem::Attr { id, key, .. } => {
                collect_attr(Schema::Root, &mut slots, *id, key.as_str())?;
            },
            ViewItem::Element { id, name, body } => {
                let n = name.as_str();
                if str_eq(n, "embed") {
                    let mut e = expand_embed(body)?;
                    embeds.append(&mut e);
                    ne = ne + 1;
                } else if str_eq(n, "action_row") {
                    let mut a = expand_action_row(body)?;
                    steps.append(&mut a);
                    nc = nc + 1;
                } else if str_eq(n, "allowed_mentions") {
                    if has_mentions {
                        return Err(dup_part(*id, "allowed_mentions"));
                    }
                    mentions = expand_allowed_mentions(body)?;
                    has_mentions = true;
                } else if str_eq(n, "poll") {
                    if has_poll {
                        return Err(dup_part(*id, "poll"));
                    }
                    poll = expand_poll(body)?;
                    has_poll = true;
                } else if is_v2_only(n) {
                    return Err(
                        error_quoting(
                            Site::Item(*id),
                            "v2 element ",
                            n,
                            " cannot appear in legacy family — wrap v2 content in `components_v2 { ... }`",
                        ),
                    );
                } else {
                    let names = child_names(ChildList::RootChildren);
                    return Err(
                        unknown_error(
                            Site::Item(*id),
                            "unknown element ",
                            n,
                            " at message root",
                            names.as_slice(),
                            "",
                        ),
                    );
                }
            },
            ViewItem::Splice { id } => {
                steps.push(Emit::Splice(*id));
                nc = nc + 1;
                spliced = true;
            },
            ViewItem::Bare { id } => {
                return Err(
                    error_at(
                        Site::Item(*id),
                        "bare string not allowed at message root — only inside `text_display { \"...\" }`",
                    ),
                );
            },
        }
        i = i + 1;
    }
    let mut out: Vec<Emit> = Vec::new();
    out.push(
        Emit::Message {
            content: slots[0],
            tts: slots[1],
            nonce: slots[2],
            enforce_nonce: slots[3],
            flags: slots[4],
            sticker_ids: slots[5],
            embeds: ne,
            allowed_mentions: has_mentions,
            poll: has_poll,
        },
    );
    let ghost head = out@;
    let ghost e = embeds@;
    let ghost m = if has_mentions {
        Some(mentions@)
    } else {
        None::<Seq<Emit>>
    };
    let ghost p = if has_poll {
        Some(poll@)
    } else {
        None::<Seq<Emit>>
    };
    let ghost c = steps@;
    out.append(&mut embeds);
    if has_mentions {
        out.append(&mut mentions);
    }
    if has_poll {
        out.append(&mut poll);
    }
    if nc > 0 {
        out.push(Emit::List { len: nc, spliced });
        out.append(&mut steps);
    }
    assert(out@ =~= head + e + opt_part(m) + opt_part(p) + list_if_any(c, nc as nat, spliced));
    Ok(out)
}

} // verus!

verus! {

// --- view! ---

/// The plan of a whole `view!` or `component!`, and whether the expansion
/// returns `Result` (it does exactly when the body holds a splice).
pub struct Expansion {
    pub plan: Vec<Emit>,
    pub fallible: bool,
}

/// `r` is the executable counterpart of the outcome `s`.
pub open spec fn same_expansion(r: Result<Expansion, ViewError>, s: Result<(Seq<Emit>, bool), ErrorModel>) -> bool {
    match s {
        Ok((p, f)) => r matches Ok(x) && x.plan@ == p && x.fallible == f,
        Err(e) => r matches Err(x) && x@ == e,
    }
}

/// The item is a `components_v2` element.
pub open spec fn is_v2_root_item(it: ViewItem) -> bool {
    it matches ViewItem::Element { name, .. } && name@ == "components_v2"@
}

/// Some item is a `components_v2` element.
pub open spec fn has_v2_root(items: Seq<ViewItem>) -> bool {
    exists|k: int| 0 <= k < items.len() && is_v2_root_item(#[trigger] items[k])
}

/// The position of the first item, from `i` on, that is not a
/// `components_v2` element.
pub open spec fn first_foreign(items: Seq<ViewItem>, i: int) -> Option<int>
    decreases items.len() - i,
{
    if i < 0 || i >= items.len() {
        None
    } else if !is_v2_root_item(items[i]) {
        Some(i)
    } else {
        first_foreign(items, i + 1)
    }
}

/// The error for an item of the legacy family beside a `components_v2`
/// root.
pub open spec fn mixing_error(it: ViewItem) -> ErrorModel {
    match it {
        ViewItem::Attr { id, .. } => em(
            Site::Item(id),
            "legacy attribute cannot appear alongside `components_v2` — use one family per `view!`"@,
        ),
        ViewItem::Element { id, name, .. } => em(
            Site::Item(id),
            quoting(
                "legacy element "@,
                name@,
                " cannot appear alongside `components_v2` — use one family per `view!`"@,
            ),
        ),
        ViewItem::Bare { id } => em(
            Site::Item(id),
            "bare string cannot appear alongside `components_v2`"@,
        ),
        ViewItem::Splice { id } => em(
            Site::Item(id),
            "splice cannot appear alongside `components_v2` — use one family per `view!`"@,
        ),
    }
}

/// What `view!` expands to. A `components_v2` element selects the v2
/// family: it must then stand alone, exactly once. Otherwise the items form
/// a legacy message. The expansion returns `Result` when the planned body
/// holds a splice.
pub open spec fn spec_view(items: Seq<ViewItem>) -> Result<(Seq<Emit>, bool), ErrorModel> {
    if has_v2_root(items) {
        match first_foreign(items, 0) {
            Some(k) => Err(mixing_error(items[k])),
            None => if items.len() != 1 {
                Err(call_err("expected exactly one `components_v2` element in v2 family"@))
            } else {
                let body = items[0]->Element_body;
                match spec_v2_root(body.items@) {
                    Ok(p) => Ok((p, spec_any_splice(body.items@))),
                    Err(e) => Err(e),
                }
            },
        }
    } else {
        match spec_legacy_root(items) {
            Ok(p) => Ok((p, spec_any_splice(items))),
            Err(e) => Err(e),
        }
    }
}

fn is_v2_root_element(it: &ViewItem) -> (r: bool)
    ensures
        r == is_v2_root_item(*it),
{
    match it {
        ViewItem::Element { name, .. } => str_eq(name.as_str(), "components_v2"),
        _ => false,
    }
}

fn mixing(it: &ViewItem) -> (e: ViewError)
    ensures
        e@ == mixing_error(*it),
{
    match it {
        ViewItem::Attr { id, .. } => error_at(
            Site::Item(*id),
            "legacy attribute cannot appear alongside `components_v2` — use one family per `view!`",
        ),
        ViewItem::Element { id, name, .. } => error_quoting(
            Site::Item(*id),
            "legacy element ",
            name.as_str(),
            " cannot appear alongside `components_v2` — use one family per `view!`",
        ),
        ViewItem::Bare { id } => error_at(
            Site::Item(*id),
            "bare string cannot appear alongside `components_v2`",
        ),
        ViewItem::Splice { id } => error_at(
            Site::Item(*id),
            "splice cannot appear alongside `components_v2` — use one family per `view!`",
        ),
    }
}

fn find_v2_root(items: &Vec<ViewItem>) -> (r: bool)
    ensures
        r == has_v2_root(items@),
{
    let mut i: usize = 0;
    while i < items.len()
        invariant
            i <= items@.len(),
            forall|k: int| 0 <= k < i ==> !is_v2_root_item(#[trigger] items@[k]),
        decreases items@.len() - i,
    {
        if is_v2_root_element(&items[i]) {
            return true;
        }
        i = i + 1;
    }
    false
}

fn find_foreign(items: &Vec<ViewItem>) -> (r: Option<usize>)
    ensures
        r matches Some(j) ==> first_foreign(items@, 0) == Some(j as int) && j < items@.len(),
        r is None ==> first_foreign(items@, 0) is None,
{
    let mut j: usize = 0;
    while j < items.len()
        invariant
            j <= items@.len(),
            first_foreign(items@, 0) == first_foreign(items@, j as int),
        decreases items@.len() - j,
    {
        if !is_v2_root_element(&items[j]) {
            return Some(j);
        }
        j = j + 1;
    }
    None
}

/// Plans a `view!` invocation: decides the family, keeps the families
/// apart, and plans the message.
pub fn expand(input: &ViewInput) -> (r: Result<Expansion, ViewError>)
    ensures
        same_expansion(r, spec_view(input.items@)),
{
    let items = &input.items;
    if find_v2_root(items) {
        if let Some(j) = find_foreign(items) {
            return Err(mixing(&items[j]));
        }
        if items.len() != 1 {
            return Err(missing("expected exactly one `components_v2` element in v2 family"));
        }
        match &items[0] {
            ViewItem::Element { body, .. } => {
                let plan = expand_v2_root(body)?;
                let fallible = any_splice(&body.items);
                Ok(Expansion { plan, fallible })
            },
            _ => {
                assert(!is_v2_root_item(items@[0]));
                Err(missing(""))
            },
        }
    } else {
        let plan = expand_legacy_root(items)?;
        let fallible = any_splice(items);
        Ok(Expansion { plan, fallible })
    }
}

// --- component! ---

/// Scanning the root of `component!` from position `i`: exactly one element
/// and nothing else; `found` is the position of the element seen so far.
pub open spec fn component_scan(items: Seq<ViewItem>, i: int, found: Option<int>) -> Result<Option<int>, ErrorModel>
    decreases items.len() - i,
{
    if i < 0 || i >= items.len() {
        Ok(found)
    } else {
        match items[i] {
            ViewItem::Element { id, .. } => if found is Some {
                Err(em(Site::Item(id), "`component!` takes exactly one element"@))
            } else {
                component_scan(items, i + 1, Some(i))
            },
            ViewItem::Attr { id, .. } => Err(
                em(
                    Site::Item(id),
                    "root attributes are not allowed in `component!` — attributes go inside the element body"@,
                ),
            ),
            ViewItem::Bare { id } => Err(
                em(
                    Site::Item(id),
                    "bare strings are not allowed at the root of `component!` — use `text_display { \"...\" }`"@,
                ),
            ),
            ViewItem::Splice { id } => Err(
                em(
                    Site::Item(id),
                    "splices are not allowed at the root of `component!` — put them inside the element body"@,
                ),
            ),
        }
    }
}

/// What the single element `n` (item `id`) of `component!` plans to.
#[verifier::opaque]
pub open spec fn spec_component_element(n: Seq<char>, id: usize, items: Seq<ViewItem>) -> Result<
    Seq<Emit>,
    ErrorModel,
> {
    if n == "action_row"@ {
        spec_action_row(items)
    } else if n == "text_display"@ {
        as_stream(spec_text_display(items))
    } else if n == "container"@ {
        spec_container(items)
    } else if n == "section"@ {
        spec_section(items)
    } else if n == "thumbnail"@ {
        as_stream(spec_thumbnail(items))
    } else if n == "media_gallery"@ {
        spec_media_gallery(items)
    } else if n == "file"@ {
        as_stream(spec_file(items))
    } else if n == "separator"@ {
        as_stream(spec_separator(items))
    } else if n == "embed"@ {
        spec_embed(items)
    } else if n == "button"@ {
        as_stream(spec_button(items))
    } else if n == "select_menu"@ {
        spec_select_menu(SelectElement::SelectMenu, items)
    } else if n == "select_menu_option"@ {
        as_stream(spec_select_option(items))
    } else if n == "poll"@ {
        spec_poll(items)
    } else if n == "poll_answer"@ {
        as_stream(spec_poll_answer(items))
    } else if n == "components_v2"@ {
        Err(
            em(
                Site::Item(id),
                "`components_v2` is a message root — use `view!` to build a full message; `component!` emits a single bare builder"@,
            ),
        )
    } else {
        Err(
            em(
                Site::Item(id),
                unknown_message(
                    "unknown element "@,
                    n,
                    " in `component!`"@,
                    spec_child_names(ChildList::ComponentElements),
                    ""@,
                ),
            ),
        )
    }
}

/// What `component!` expands to: the bare builder of its single element,
/// returning `Result` when the element's body holds a splice.
pub open spec fn spec_component(items: Seq<ViewItem>) -> Result<(Seq<Emit>, bool), ErrorModel> {
    match component_scan(items, 0, None) {
        Err(e) => Err(e),
        Ok(None) => Err(
            call_err(
                "`component!` takes exactly one element, e.g. `component! { action_row { ... } }`"@,
            ),
        ),
        Ok(Some(k)) => match items[k] {
            ViewItem::Element { id, name, body } => match spec_component_element(
                name@,
                id,
                body.items@,
            ) {
                Ok(p) => Ok((p, spec_any_splice(body.items@))),
                Err(e) => Err(e),
            },
            _ => Err(call_err(Seq::empty())),
        },
    }
}

fn single(r: Result<Emit, ViewError>) -> (s: Result<Vec<Emit>, ViewError>)
    ensures
        r matches Ok(e) ==> s matches Ok(v) && v@ == seq![e],
        r matches Err(e) ==> s matches Err(x) && x == e,
{
    match r {
        Ok(e) => {
            let mut v: Vec<Emit> = Vec::new();
            v.push(e);
            assert(v@ =~= seq![e]);
            Ok(v)
        },
        Err(e) => Err(e),
    }
}

fn expand_component_element(n: &str, id: usize, body: &ViewBody) -> (r: Result<Vec<Emit>, ViewError>)
    ensures
        same_stream(r, spec_component_element(n@, id, body.items@)),
{
    proof {
        reveal(spec_component_element);
    }
    if str_eq(n, "action_row") {
        expand_action_row(body)
    } else if str_eq(n, "text_display") {
        single(expand_text_display(body))
    } else if str_eq(n, "container") {
        expand_container(body)
    } else if str_eq(n, "section") {
        expand_section(body)
    } else if str_eq(n, "thumbnail") {
        single(expand_thumbnail(body))
    } else if str_eq(n, "media_gallery") {
        expand_media_gallery(body)
    } else if str_eq(n, "file") {
        single(expand_file(body))
    } else if str_eq(n, "separator") {
        single(expand_separator(body))
    } else if str_eq(n, "embed") {
        expand_embed(body)
    } else if str_eq(n, "button") {
        single(expand_button(body))
    } else if str_eq(n, "select_menu") {
        expand_select_menu(body, SelectElement::SelectMenu)
    } else if str_eq(n, "select_menu_option") {
        single(expand_select_menu_option(body))
    } else if str_eq(n, "poll") {
        expand_poll(body)
    } else if str_eq(n, "poll_answer") {
        single(expand_poll_answer(body))
    } else if str_eq(n, "components_v2") {
        Err(
            error_at(
                Site::Item(id),
                "`components_v2` is a message root — use `view!` to build a full message; `component!` emits a single bare builder",
            ),
        )
    } else {
        let names = child_names(ChildList::ComponentElements);
        Err(unknown_error(Site::Item(id), "unknown element ", n, " in `component!`", names.as_slice(), ""))
    }
}

/// The position of the single element at the root of `component!`, or
/// the first error of the root.
fn find_component_element(items: &Vec<ViewItem>) -> (r: Result<usize, ViewError>)
    ensures
        r matches Ok(k) ==> component_scan(items@, 0, None) == Ok::<Option<int>, ErrorModel>(
            Some(k as int),
        ) && k < items@.len(),
        r matches Err(x) ==> match component_scan(items@, 0, None) {
            Ok(Some(k)) => false,
            Ok(None) => x@ == call_err(
                "`component!` takes exactly one element, e.g. `component! { action_row { ... } }`"@,
            ),
            Err(e) => x@ == e,
        },
{
    let mut found: Option<usize> = None;
    let mut i: usize = 0;
    while i < items.len()
        invariant
            i <= items@.len(),
            found matches Some(k) ==> k < i,
            component_scan(items@, 0, None) == component_scan(
                items@,
                i as int,
                match found {
                    Some(k) => Some(k as int),
                    None => None,
                },
            ),
        decreases items@.len() - i,
    {
        match &items[i] {
            ViewItem::Element { id, .. } => {
                if found.is_some() {
                    return Err(error_at(Site::Item(*id), "`component!` takes exactly one element"));
                }
                found = Some(i);
            },
            ViewItem::Attr { id, .. } => {
                return Err(
                    error_at(
                        Site::Item(*id),
                        "root attributes are not allowed in `component!` — attributes go inside the element body",
                    ),
                );
            },
            ViewItem::Bare { id } => {
                return Err(
                    error_at(
                        Site::Item(*id),
                        "bare strings are not allowed at the root of `component!` — use `text_display { \"...\" }`",
                    ),
                );
            },
            ViewItem::Splice { id } => {
                return Err(
                    error_at(
                        Site::Item(*id),
                        "splices are not allowed at the root of `component!` — put them inside the element body",
                    ),
                );
            },
        }
        i = i + 1;
    }
    match found {
        Some(k) => Ok(k),
        None => Err(
            missing(
                "`component!` takes exactly one element, e.g. `component! { action_row { ... } }`",
            ),
        ),
    }
}

/// Plans a `component!` invocation.
pub fn expand_component(input: &ViewInput) -> (r: Result<Expansion, ViewError>)
    ensures
        same_expansion(r, spec_component(input.items@)),
{
    let items = &input.items;
    let k = find_component_element(items)?;
    match &items[k] {
        ViewItem::Element { id, name, body } => {
            let plan = expand_component_element(name.as_str(), *id, body)?;
            let fallible = any_splice(&body.items);
            Ok(Expansion { plan, fallible })
        },
        _ => {
            proof {
                lemma_component_scan_finds_element(items@, 0, None);
            }
            Err(missing(""))
        },
    }
}

/// The position that [`component_scan`] reports holds an element.
pub proof fn lemma_component_scan_finds_element(items: Seq<ViewItem>, i: int, found: Option<int>)
    requires
        found matches Some(k) ==> 0 <= k < items.len() && items[k] is Element,
    ensures
        component_scan(items, i, found) matches Ok(Some(k)) ==> 0 <= k < items.len()
            && items[k] is Element,
    decreases items.len() - i,
{
    if 0 <= i < items.len() {
        match items[i] {
            ViewItem::Element { .. } => {
                if found is None {
                    lemma_component_scan_finds_element(items, i + 1, Some(i));
                }
            },
            _ => {},
        }
    }
}

} // verus!
