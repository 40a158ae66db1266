//! Components-v2 elements: text displays, media galleries, sections,
//! containers, and the `components_v2` root.

use vstd::prelude::*;
use vstd::string::*;
use crate::text::str_eq;
use crate::tree::{ViewItem, ViewBody, spec_any_splice, any_splice};
use crate::view_error::{ViewError, ErrorModel, Site, em, error_at, error_quoting, quoting,
    unknown_error, unknown_message, splice_message};
use crate::registry::{Schema, ChildList, slot_count, spec_child_names, child_names};
use crate::attrs::{attr_step, no_slots, empty_slots, collect_attr, leaf_element_error,
    leaf_element, spec_splice_place, leaf_splice, unknown_attr_error, unknown_attr};
use crate::leaf::{call_err, missing, spec_thumbnail, expand_thumbnail, spec_gallery_item,
    expand_media_gallery_item, spec_file, expand_file, spec_separator, expand_separator, spec_button,
    expand_button};
use crate::action_row::{spec_action_row, expand_action_row};
use crate::plan::{Emit, same_node, same_stream};
use crate::view_support::{MAX_SECTION_TEXTS, MAX_GALLERY_ITEMS};

verus! {

/// A single node as a stream.
pub open spec fn as_stream(r: Result<Emit, ErrorModel>) -> Result<Seq<Emit>, ErrorModel> {
    match r {
        Ok(e) => Ok(seq![e]),
        Err(e) => Err(e),
    }
}

fn node_stream(r: Result<Emit, ViewError>) -> (s: Result<Vec<Emit>, ViewError>)
    ensures
        r matches Ok(e) ==> s matches Ok(v) && v@ == seq![e],
        r matches Err(e) ==> s matches Err(x) && x == e,
{
    match r {
        Ok(e) => {
            let mut v: Vec<Emit> = Vec::new();
            v.push(e);
            assert(v@ =~= seq![e]);
            Ok(v)
        },
        Err(e) => Err(e),
    }
}

// --- text display ---

/// Scanning a text display's items from position `i`, with the content
/// attribute and the bare literal seen so far.
pub open spec fn text_scan(items: Seq<ViewItem>, i: int, content: Option<usize>, bare: Option<usize>) -> Result<
    (Option<usize>, Option<usize>),
    ErrorModel,
>
    decreases items.len() - i,
{
    if i < 0 || i >= items.len() {
        Ok((content, bare))
    } else {
        match items[i] {
            ViewItem::Attr { id, key, .. } => if key@ == "content"@ {
                if content is Some || bare is Some {
                    Err(em(Site::Item(id), "duplicate content"@))
                } else {
                    text_scan(items, i + 1, Some(id), bare)
                }
            } else {
                Err(unknown_attr_error(Schema::TextDisplay, id, key@))
            },
            ViewItem::Splice { id } => Err(
                em(Site::Item(id), splice_message(spec_splice_place(Schema::TextDisplay))),
            ),
            ViewItem::Bare { id } => if content is Some || bare is Some {
                Err(em(Site::Item(id), "duplicate content"@))
            } else {
                text_scan(items, i + 1, content, Some(id))
            },
            ViewItem::Element { id, name, .. } => Err(
                leaf_element_error(Schema::TextDisplay, id, name@),
            ),
        }
    }
}

/// What `text_display { .. }` plans to: its content is a single bare
/// literal, or one `content` attribute.
#[verifier::opaque]
pub open spec fn spec_text_display(items: Seq<ViewItem>) -> Result<Emit, ErrorModel> {
    if items.len() == 1 && items[0] is Bare {
        Ok(Emit::TextDisplay { content: items[0]->Bare_id })
    } else {
        match text_scan(items, 0, None, None) {
            Err(e) => Err(e),
            Ok((c, b)) => if c is Some {
                Ok(Emit::TextDisplay { content: c->Some_0 })
            } else if b is Some {
                Ok(Emit::TextDisplay { content: b->Some_0 })
            } else {
                Err(call_err("text_display requires content (bare string or `content: ...`)"@))
            },
        }
    }
}

/// Plans a text display.
pub fn expand_text_display(body: &ViewBody) -> (r: Result<Emit, ViewError>)
    ensures
        same_node(r, spec_text_display(body.items@)),
{
    proof {
        reveal(spec_text_display);
    }
    if body.items.len() == 1 {
        if let ViewItem::Bare { id } = &body.items[0] {
            return Ok(Emit::TextDisplay { content: *id });
        }
    }
    let mut content: Option<usize> = None;
    let mut bare: Option<usize> = None;
    let mut i: usize = 0;
    while i < body.items.len()
        invariant
            i <= body.items@.len(),
            !(body.items@.len() == 1 && body.items@[0] is Bare),
            text_scan(body.items@, 0, None, None) == text_scan(body.items@, i as int, content, bare),
        decreases body.items@.len() - i,
    {
        proof {
            reveal(spec_text_display);
        }
        match &body.items[i] {
            ViewItem::Attr { id, key, .. } => {
                if str_eq(key.as_str(), "content") {
                    if content.is_some() || bare.is_some() {
                        return Err(error_at(Site::Item(*id), "duplicate content"));
                    }
                    content = Some(*id);
                } else {
                    return Err(unknown_attr(Schema::TextDisplay, *id, key.as_str()));
                }
            },
            ViewItem::Splice { id } => {
                return Err(leaf_splice(Schema::TextDisplay, *id));
            },
            ViewItem::Bare { id } => {
                if content.is_some() || bare.is_some() {
                    return Err(error_at(Site::Item(*id), "duplicate content"));
                }
                bare = Some(*id);
            },
            ViewItem::Element { id, name, .. } => {
                return Err(leaf_element(Schema::TextDisplay, *id, name.as_str()));
            },
        }
        i = i + 1;
    }
    match (content, bare) {
        (Some(c), _) => Ok(Emit::TextDisplay { content: c }),
        (None, Some(b)) => Ok(Emit::TextDisplay { content: b }),
        (None, None) => Err(missing("text_display requires content (bare string or `content: ...`)")),
    }
}

// --- media gallery ---

/// What a child list has collected so far.
pub struct ListScan {
    /// The child steps: child nodes and splices, in order.
    pub steps: Seq<Emit>,
    /// The number of child steps.
    pub n: nat,
    /// Whether a splice is among the steps.
    pub spliced: bool,
}

/// Nothing collected.
pub open spec fn list_start() -> ListScan {
    ListScan { steps: Seq::empty(), n: 0, spliced: false }
}

/// The list after one more child stream.
pub open spec fn list_push(st: ListScan, child: Seq<Emit>) -> ListScan {
    ListScan { steps: st.steps + child, n: st.n + 1, ..st }
}

/// The list after one more splice.
pub open spec fn list_splice(st: ListScan, id: usize) -> ListScan {
    ListScan { steps: st.steps.push(Emit::Splice(id)), n: st.n + 1, spliced: true }
}

/// A list header and its steps.
pub open spec fn list_of(st: ListScan) -> Seq<Emit> {
    seq![Emit::List { len: st.n as usize, spliced: st.spliced }] + st.steps
}

/// Scanning a media gallery's items from position `i`.
pub open spec fn gallery_scan(items: Seq<ViewItem>, i: int, st: ListScan) -> Result<ListScan, ErrorModel>
    decreases items.len() - i,
{
    if i < 0 || i >= items.len() {
        Ok(st)
    } else {
        match items[i] {
            ViewItem::Element { id, name, body } => if name@ == "media_gallery_item"@ || name@
                == "item"@ {
                match spec_gallery_item(body.items@) {
                    Ok(g) => gallery_scan(items, i + 1, list_push(st, seq![g])),
                    Err(e) => Err(e),
                }
            } else {
                Err(
                    em(
                        Site::Item(id),
                        unknown_message(
                            "unknown media_gallery child "@,
                            name@,
                            ""@,
                            spec_child_names(ChildList::MediaGalleryChildren),
                            ""@,
                        ),
                    ),
                )
            },
            ViewItem::Attr { id, key, .. } => Err(
                em(Site::Item(id), quoting("media_gallery cannot contain attribute "@, key@, ""@)),
            ),
            ViewItem::Splice { id } => gallery_scan(items, i + 1, list_splice(st, id)),
            ViewItem::Bare { id } => Err(
                em(Site::Item(id), "bare string not allowed in `media_gallery`"@),
            ),
        }
    }
}

/// What `media_gallery { .. }` plans to: 1 to 10 literal items, or any
/// number once a splice defers the count to the runtime check.
#[verifier::opaque]
pub open spec fn spec_media_gallery(items: Seq<ViewItem>) -> Result<Seq<Emit>, ErrorModel> {
    match gallery_scan(items, 0, list_start()) {
        Err(e) => Err(e),
        Ok(st) => if !st.spliced && st.n == 0 {
            Err(call_err("media_gallery must contain at least one `media_gallery_item`"@))
        } else if !st.spliced && st.n > MAX_GALLERY_ITEMS {
            Err(call_err("media_gallery cannot contain more than 10 items"@))
        } else {
            Ok(seq![Emit::MediaGallery] + list_of(st))
        },
    }
}

/// Appends a child stream to a list under construction.
fn push_child(steps: &mut Vec<Emit>, child: &mut Vec<Emit>)
    ensures
        final(steps)@ == old(steps)@ + old(child)@,
{
    steps.append(child);
}

fn finish_list(head: Emit, steps: &mut Vec<Emit>, n: usize, spliced: bool) -> (out: Vec<Emit>)
    ensures
        out@ == seq![head] + list_of(ListScan { steps: old(steps)@, n: n as nat, spliced }),
{
    let mut out: Vec<Emit> = Vec::new();
    out.push(head);
    out.push(Emit::List { len: n, spliced });
    let ghost s = steps@;
    out.append(steps);
    assert(out@ =~= seq![head] + list_of(ListScan { steps: s, n: n as nat, spliced }));
    out
}

/// Plans a media gallery.
pub fn expand_media_gallery(body: &ViewBody) -> (r: Result<Vec<Emit>, ViewError>)
    ensures
        same_stream(r, spec_media_gallery(body.items@)),
{
    proof {
        reveal(spec_media_gallery);
    }
    let mut steps: Vec<Emit> = Vec::new();
    let mut n: usize = 0;
    let mut spliced = false;
    let mut i: usize = 0;
    while i < body.items.len()
        invariant
            i <= body.items@.len(),
            n <= i,
            gallery_scan(body.items@, 0, list_start()) == gallery_scan(
                body.items@,
                i as int,
                ListScan { steps: steps@, n: n as nat, spliced },
            ),
        decreases body.items@.len() - i,
    {
        proof {
            reveal(spec_media_gallery);
        }
        match &body.items[i] {
            ViewItem::Element { id, name, body: child } => {
                if str_eq(name.as_str(), "media_gallery_item") || str_eq(name.as_str(), "item") {
                    let g = expand_media_gallery_item(child)?;
                    let ghost old_steps = steps@;
                    steps.push(g);
                    assert(steps@ =~= old_steps + seq![g]);
                    n = n + 1;
                } else {
                    let names = child_names(ChildList::MediaGalleryChildren);
                    return Err(
                        unknown_error(
                            Site::Item(*id),
                            "unknown media_gallery child ",
                            name.as_str(),
                            "",
                            names.as_slice(),
                            "",
                        ),
                    );
                }
            },
            ViewItem::Attr { id, key, .. } => {
                return Err(
                    error_quoting(
                        Site::Item(*id),
                        "media_gallery cannot contain attribute ",
                        key.as_str(),
                        "",
                    ),
                );
            },
            ViewItem::Splice { id } => {
                steps.push(Emit::Splice(*id));
                n = n + 1;
                spliced = true;
            },
            ViewItem::Bare { id } => {
                return Err(error_at(Site::Item(*id), "bare string not allowed in `media_gallery`"));
            },
        }
        i = i + 1;
    }
    if !spliced && n == 0 {
        return Err(missing("media_gallery must contain at least one `media_gallery_item`"));
    }
    if !spliced && n > MAX_GALLERY_ITEMS {
        return Err(missing("media_gallery cannot contain more than 10 items"));
    }
    Ok(finish_list(Emit::MediaGallery, &mut steps, n, spliced))
}

// --- section ---

/// What a section has collected so far: its text-display list and its
/// accessory node.
pub struct SectionScan {
    pub list: ListScan,
    pub accessory: Option<Emit>,
}

/// Scanning a section's items from position `i`; `any` tells whether the
/// section holds a splice anywhere, which defers the text-display count to
/// the runtime check.
pub open spec fn section_scan(items: Seq<ViewItem>, any: bool, i: int, st: SectionScan) -> Result<
    SectionScan,
    ErrorModel,
>
    decreases items.len() - i,
{
    if i < 0 || i >= items.len() {
        Ok(st)
    } else {
        match items[i] {
            ViewItem::Element { id, name, body } => if name@ == "text_display"@ {
                if !any && st.list.n >= MAX_SECTION_TEXTS {
                    Err(
                        em(
                            Site::Item(id),
                            "section cannot contain more than 3 text_display components"@,
                        ),
                    )
                } else if st.accessory is Some {
                    Err(
                        em(
                            Site::Item(id),
                            "`text_display` must appear before accessory in `section`"@,
                        ),
                    )
                } else {
                    match spec_text_display(body.items@) {
                        Ok(t) => section_scan(
                            items,
                            any,
                            i + 1,
                            SectionScan { list: list_push(st.list, seq![t]), ..st },
                        ),
                        Err(e) => Err(e),
                    }
                }
            } else if name@ == "thumbnail"@ || name@ == "button"@ {
                if st.accessory is Some {
                    Err(em(Site::Item(id), "section can have only one accessory"@))
                } else {
                    match if name@ == "thumbnail"@ {
                        spec_thumbnail(body.items@)
                    } else {
                        spec_button(body.items@)
                    } {
                        Ok(a) => section_scan(
                            items,
                            any,
                            i + 1,
                            SectionScan { accessory: Some(a), ..st },
                        ),
                        Err(e) => Err(e),
                    }
                }
            } else {
                Err(
                    em(
                        Site::Item(id),
                        unknown_message(
                            "unknown section child "@,
                            name@,
                            ""@,
                            spec_child_names(ChildList::SectionChildren),
                            ""@,
                        ),
                    ),
                )
            },
            ViewItem::Attr { id, key, .. } => Err(
                em(Site::Item(id), quoting("section cannot contain attribute "@, key@, ""@)),
            ),
            ViewItem::Splice { id } => section_scan(
                items,
                any,
                i + 1,
                SectionScan { list: list_splice(st.list, id), ..st },
            ),
            ViewItem::Bare { id } => Err(
                em(
                    Site::Item(id),
                    "bare string not allowed in `section` — use `text_display { \"...\" }`"@,
                ),
            ),
        }
    }
}

/// What `section { .. }` plans to: 1 to 3 literal text displays (any
/// number once a splice defers the count to the runtime check), before
/// exactly one accessory.
#[verifier::opaque]
pub open spec fn spec_section(items: Seq<ViewItem>) -> Result<Seq<Emit>, ErrorModel> {
    let any = spec_any_splice(items);
    match section_scan(items, any, 0, SectionScan { list: list_start(), accessory: None }) {
        Err(e) => Err(e),
        Ok(st) => if !any && st.list.n == 0 {
            Err(call_err("section must contain at least one `text_display`"@))
        } else if st.accessory is None {
            Err(call_err("section requires exactly one accessory (`thumbnail` or `button`)"@))
        } else {
            Ok(
                seq![Emit::Section] + list_of(ListScan { spliced: any, ..st.list }) + seq![
                    st.accessory->Some_0,
                ],
            )
        },
    }
}

/// Plans a section.
pub fn expand_section(body: &ViewBody) -> (r: Result<Vec<Emit>, ViewError>)
    ensures
        same_stream(r, spec_section(body.items@)),
{
    proof {
        reveal(spec_section);
    }
    let any = any_splice(&body.items);
    let mut steps: Vec<Emit> = Vec::new();
    let mut n: usize = 0;
    let mut spliced = false;
    let mut accessory: Option<Emit> = None;
    let mut i: usize = 0;
    while i < body.items.len()
        invariant
            i <= body.items@.len(),
            n <= i,
            any == spec_any_splice(body.items@),
            section_scan(
                body.items@,
                any,
                0,
                SectionScan { list: list_start(), accessory: None },
            ) == section_scan(
                body.items@,
                any,
                i as int,
                SectionScan { list: ListScan { steps: steps@, n: n as nat, spliced }, accessory },
            ),
        decreases body.items@.len() - i,
    {
        proof {
            reveal(spec_section);
        }
        match &body.items[i] {
            ViewItem::Element { id, name, body: child } => {
                let nm = name.as_str();
                if str_eq(nm, "text_display") {
                    if !any && n >= MAX_SECTION_TEXTS {
                        return Err(
                            error_at(
                                Site::Item(*id),
                                "section cannot contain more than 3 text_display components",
                            ),
                        );
                    }
                    if accessory.is_some() {
                        return Err(
                            error_at(
                                Site::Item(*id),
                                "`text_display` must appear before accessory in `section`",
                            ),
                        );
                    }
                    let t = expand_text_display(child)?;
                    let ghost old_steps = steps@;
                    steps.push(t);
                    assert(steps@ =~= old_steps + seq![t]);
                    n = n + 1;
                } else if str_eq(nm, "thumbnail") || str_eq(nm, "button") {
                    if accessory.is_some() {
                        return Err(error_at(Site::Item(*id), "section can have only one accessory"));
                    }
                    let a = if str_eq(nm, "thumbnail") {
                        expand_thumbnail(child)?
                    } else {
                        expand_button(child)?
                    };
                    accessory = Some(a);
                } else {
                    let names = child_names(ChildList::SectionChildren);
                    return Err(
                        unknown_error(
                            Site::Item(*id),
                            "unknown section child ",
                            nm,
                            "",
                            names.as_slice(),
                            "",
                        ),
                    );
                }
            },
            ViewItem::Attr { id, key, .. } => {
                return Err(
                    error_quoting(
                        Site::Item(*id),
                        "section cannot contain attribute ",
                        key.as_str(),
                        "",
                    ),
                );
            },
            ViewItem::Splice { id } => {
                steps.push(Emit::Splice(*id));
                n = n + 1;
                spliced = true;
            },
            ViewItem::Bare { id } => {
                return Err(
                    error_at(
                        Site::Item(*id),
                        "bare string not allowed in `section` — use `text_display { \"...\" }`",
                    ),
                );
            },
        }
        i = i + 1;
    }
    if !any && n == 0 {
        return Err(missing("section must contain at least one `text_display`"));
    }
    let acc = match accessory {
        Some(a) => a,
        None => {
            return Err(missing("section requires exactly one accessory (`thumbnail` or `button`)"));
        },
    };
    let mut out = finish_list(Emit::Section, &mut steps, n, any);
    let ghost o = out@;
    out.push(acc);
    assert(out@ =~= o + seq![acc]);
    Ok(out)
}

} // verus!

verus! {

// --- container and components_v2 ---

/// The components-v2 elements that a container or the `components_v2` root
/// takes as children.
#[derive(Debug, Clone, Copy, PartialEq, Eq, Structural)]
pub enum V2Kind {
    ActionRow,
    Section,
    TextDisplay,
    MediaGallery,
    File,
    Separator,
    Container,
}

/// The v2 element a child name stands for.
pub open spec fn v2_kind_of(n: Seq<char>) -> Option<V2Kind> {
    if n == "action_row"@ {
        Some(V2Kind::ActionRow)
    } else if n == "section"@ {
        Some(V2Kind::Section)
    } else if n == "text_display"@ {
        Some(V2Kind::TextDisplay)
    } else if n == "media_gallery"@ {
        Some(V2Kind::MediaGallery)
    } else if n == "file"@ {
        Some(V2Kind::File)
    } else if n == "separator"@ {
        Some(V2Kind::Separator)
    } else if n == "container"@ {
        Some(V2Kind::Container)
    } else {
        None
    }
}

/// Decides [`v2_kind_of`].
pub fn v2_kind(n: &str) -> (r: Option<V2Kind>)
    ensures
        r == v2_kind_of(n@),
{
    if str_eq(n, "action_row") {
        Some(V2Kind::ActionRow)
    } else if str_eq(n, "section") {
        Some(V2Kind::Section)
    } else if str_eq(n, "text_display") {
        Some(V2Kind::TextDisplay)
    } else if str_eq(n, "media_gallery") {
        Some(V2Kind::MediaGallery)
    } else if str_eq(n, "file") {
        Some(V2Kind::File)
    } else if str_eq(n, "separator") {
        Some(V2Kind::Separator)
    } else if str_eq(n, "container") {
        Some(V2Kind::Container)
    } else {
        None
    }
}

/// What a child of kind `k` (other than a container) plans to.
pub open spec fn spec_leaf_v2_child(k: V2Kind, items: Seq<ViewItem>) -> Result<Seq<Emit>, ErrorModel> {
    match k {
        V2Kind::ActionRow => spec_action_row(items),
        V2Kind::Section => spec_section(items),
        V2Kind::TextDisplay => as_stream(spec_text_display(items)),
        V2Kind::MediaGallery => spec_media_gallery(items),
        V2Kind::File => as_stream(spec_file(items)),
        V2Kind::Separator => as_stream(spec_separator(items)),
        V2Kind::Container => Err(call_err(Seq::empty())),
    }
}

fn expand_leaf_v2_child(k: V2Kind, body: &ViewBody) -> (r: Result<Vec<Emit>, ViewError>)
    requires
        k != V2Kind::Container,
    ensures
        same_stream(r, spec_leaf_v2_child(k, body.items@)),
{
    match k {
        V2Kind::ActionRow => expand_action_row(body),
        V2Kind::Section => expand_section(body),
        V2Kind::TextDisplay => node_stream(expand_text_display(body)),
        V2Kind::MediaGallery => expand_media_gallery(body),
        V2Kind::File => node_stream(expand_file(body)),
        V2Kind::Separator => node_stream(expand_separator(body)),
        V2Kind::Container => Err(missing("")),
    }
}

/// Scanning a container's items from position `i`.
pub open spec fn container_scan(items: Seq<ViewItem>, i: int, slots: Seq<Option<usize>>, list: ListScan) -> Result<
    (Seq<Option<usize>>, ListScan),
    ErrorModel,
>
    decreases items.len() - i,
{
    if i < 0 || i >= items.len() {
        Ok((slots, list))
    } else {
        match items[i] {
            ViewItem::Attr { id, key, .. } => match attr_step(Schema::Container, slots, id, key@) {
                Ok(s2) => container_scan(items, i + 1, s2, list),
                Err(e) => Err(e),
            },
            ViewItem::Element { id, name, body } => match v2_kind_of(name@) {
                Some(k) => if k == V2Kind::Container {
                    Err(
                        em(
                            Site::Item(id),
                            "`container` cannot be nested inside another `container`"@,
                        ),
                    )
                } else {
                    match spec_leaf_v2_child(k, body.items@) {
                        Ok(c) => container_scan(items, i + 1, slots, list_push(list, c)),
                        Err(e) => Err(e),
                    }
                },
                None => Err(
                    em(
                        Site::Item(id),
                        unknown_message(
                            "unknown container child "@,
                            name@,
                            ""@,
                            spec_child_names(ChildList::ContainerChildren),
                            ""@,
                        ),
                    ),
                ),
            },
            ViewItem::Splice { id } => container_scan(items, i + 1, slots, list_splice(list, id)),
            ViewItem::Bare { id } => Err(
                em(
                    Site::Item(id),
                    "bare string not allowed directly in `container` — use `text_display { \"...\" }`"@,
                ),
            ),
        }
    }
}

/// What `container { .. }` plans to: the container node and its children
/// list (an empty container is legal).
#[verifier::opaque]
pub open spec fn spec_container(items: Seq<ViewItem>) -> Result<Seq<Emit>, ErrorModel> {
    match container_scan(items, 0, no_slots(slot_count(Schema::Container)), list_start()) {
        Err(e) => Err(e),
        Ok((s, list)) => Ok(seq![Emit::Container { accent: s[0], spoiler: s[1] }] + list_of(list)),
    }
}

/// Plans a container.
pub fn expand_container(body: &ViewBody) -> (r: Result<Vec<Emit>, ViewError>)
    ensures
        same_stream(r, spec_container(body.items@)),
{
    proof {
        reveal(spec_container);
    }
    let mut slots = empty_slots(Schema::Container);
    let mut steps: Vec<Emit> = Vec::new();
    let mut n: usize = 0;
    let mut spliced = false;
    let mut i: usize = 0;
    while i < body.items.len()
        invariant
            i <= body.items@.len(),
            n <= i,
            slots@.len() == slot_count(Schema::Container),
            container_scan(
                body.items@,
                0,
                no_slots(slot_count(Schema::Container)),
                list_start(),
            ) == container_scan(
                body.items@,
                i as int,
                slots@,
                ListScan { steps: steps@, n: n as nat, spliced },
            ),
        decreases body.items@.len() - i,
    {
        proof {
            reveal(spec_container);
        }
        match &body.items[i] {
            ViewItem::Attr { id, key, .. } => {
                collect_attr(Schema::Container, &mut slots, *id, key.as_str())?;
            },
            ViewItem::Element { id, name, body: child } => {
                match v2_kind(name.as_str()) {
                    Some(k) => {
                        if k == V2Kind::Container {
                            return Err(
                                error_at(
                                    Site::Item(*id),
                                    "`container` cannot be nested inside another `container`",
                                ),
                            );
                        }
                        let mut c = expand_leaf_v2_child(k, child)?;
                        push_child(&mut steps, &mut c);
                        n = n + 1;
                    },
                    None => {
                        let names = child_names(ChildList::ContainerChildren);
                        return Err(
                            unknown_error(
                                Site::Item(*id),
                                "unknown container child ",
                                name.as_str(),
                                "",
                                names.as_slice(),
                                "",
                            ),
                        );
                    },
                }
            },
            ViewItem::Splice { id } => {
                steps.push(Emit::Splice(*id));
                n = n + 1;
                spliced = true;
            },
            ViewItem::Bare { id } => {
                return Err(
                    error_at(
                        Site::Item(*id),
                        "bare string not allowed directly in `container` — use `text_display { \"...\" }`",
                    ),
                );
            },
        }
        i = i + 1;
    }
    Ok(finish_list(Emit::Container { accent: slots[0], spoiler: slots[1] }, &mut steps, n, spliced))
}

/// The attributes of the legacy root that the `components_v2` root refuses.
pub open spec fn is_legacy_only_attr(k: Seq<char>) -> bool {
    k == "content"@ || k == "tts"@ || k == "nonce"@ || k == "enforce_nonce"@ || k
        == "sticker_ids"@
}

/// What a `components_v2` child of kind `k` plans to.
pub open spec fn spec_v2_child(k: V2Kind, items: Seq<ViewItem>) -> Result<Seq<Emit>, ErrorModel> {
    if k == V2Kind::Container {
        spec_container(items)
    } else {
        spec_leaf_v2_child(k, items)
    }
}

/// Scanning the `components_v2` root's items from position `i`.
pub open spec fn v2_scan(items: Seq<ViewItem>, i: int, slots: Seq<Option<usize>>, list: ListScan) -> Result<
    (Seq<Option<usize>>, ListScan),
    ErrorModel,
>
    decreases items.len() - i,
{
    if i < 0 || i >= items.len() {
        Ok((slots, list))
    } else {
        match items[i] {
            ViewItem::Attr { id, key, .. } => if is_legacy_only_attr(key@) {
                Err(
                    em(
                        Site::Item(id),
                        quoting("legacy attribute "@, key@, " cannot appear inside `components_v2`"@),
                    ),
                )
            } else {
                match attr_step(Schema::V2Root, slots, id, key@) {
                    Ok(s2) => v2_scan(items, i + 1, s2, list),
                    Err(e) => Err(e),
                }
            },
            ViewItem::Element { id, name, body } => match v2_kind_of(name@) {
                Some(k) => match spec_v2_child(k, body.items@) {
                    Ok(c) => v2_scan(items, i + 1, slots, list_push(list, c)),
                    Err(e) => Err(e),
                },
                None => if name@ == "embed"@ {
                    Err(
                        em(
                            Site::Item(id),
                            "`embed` cannot appear inside `components_v2` — embeds are legacy-only"@,
                        ),
                    )
                } else {
                    Err(
                        em(
                            Site::Item(id),
                            unknown_message(
                                "unknown v2 element "@,
                                name@,
                                " in `components_v2`"@,
                                spec_child_names(ChildList::V2Children),
                                ""@,
                            ),
                        ),
                    )
                },
            },
            ViewItem::Splice { id } => v2_scan(items, i + 1, slots, list_splice(list, id)),
            ViewItem::Bare { id } => Err(
                em(
                    Site::Item(id),
                    "bare string not allowed directly in `components_v2` — use `text_display { \"...\" }`"@,
                ),
            ),
        }
    }
}

/// What the body of `components_v2 { .. }` plans to: a v2 message (the
/// components-v2 flag always set) and its children list, which holds at
/// least one literal child unless a splice defers the count to runtime.
#[verifier::opaque]
pub open spec fn spec_v2_root(items: Seq<ViewItem>) -> Result<Seq<Emit>, ErrorModel> {
    match v2_scan(items, 0, no_slots(slot_count(Schema::V2Root)), list_start()) {
        Err(e) => Err(e),
        Ok((s, list)) => if !list.spliced && list.n == 0 {
            Err(call_err("`components_v2` must contain at least one component"@))
        } else {
            Ok(seq![Emit::V2Message { flags: s[0] }] + list_of(list))
        },
    }
}

fn is_legacy_only(k: &str) -> (r: bool)
    ensures
        r == is_legacy_only_attr(k@),
{
    str_eq(k, "content") || str_eq(k, "tts") || str_eq(k, "nonce") || str_eq(k, "enforce_nonce")
        || str_eq(k, "sticker_ids")
}

/// Plans the body of the `components_v2` root.
pub fn expand_v2_root(body: &ViewBody) -> (r: Result<Vec<Emit>, ViewError>)
    ensures
        same_stream(r, spec_v2_root(body.items@)),
{
    proof {
        reveal(spec_v2_root);
    }
    let mut slots = empty_slots(Schema::V2Root);
    let mut steps: Vec<Emit> = Vec::new();
    let mut n: usize = 0;
    let mut spliced = false;
    let mut i: usize = 0;
    while i < body.items.len()
        invariant
            i <= body.items@.len(),
            n <= i,
            slots@.len() == slot_count(Schema::V2Root),
            v2_scan(body.items@, 0, no_slots(slot_count(Schema::V2Root)), list_start()) == v2_scan(
                body.items@,
                i as int,
                slots@,
                ListScan { steps: steps@, n: n as nat, spliced },
            ),
        decreases body.items@.len() - i,
    {
        proof {
            reveal(spec_v2_root);
        }
        match &body.items[i] {
            ViewItem::Attr { id, key, .. } => {
                if is_legacy_only(key.as_str()) {
                    return Err(
                        error_quoting(
                            Site::Item(*id),
                            "legacy attribute ",
                            key.as_str(),
                            " cannot appear inside `components_v2`",
                        ),
                    );
                }
                collect_attr(Schema::V2Root, &mut slots, *id, key.as_str())?;
            },
            ViewItem::Element { id, name, body: child } => {
                match v2_kind(name.as_str()) {
                    Some(k) => {
                        let mut c = if k == V2Kind::Container {
                            expand_container(child)?
                        } else {
                            expand_leaf_v2_child(k, child)?
                        };
                        push_child(&mut steps, &mut c);
                        n = n + 1;
                    },
                    None => {
                        if str_eq(name.as_str(), "embed") {
                            return Err(
                                error_at(
                                    Site::Item(*id),
                                    "`embed` cannot appear inside `components_v2` — embeds are legacy-only",
                                ),
                            );
                        }
                        let names = child_names(ChildList::V2Children);
                        return Err(
                            unknown_error(
                                Site::Item(*id),
                                "unknown v2 element ",
                                name.as_str(),
                                " in `components_v2`",
                                names.as_slice(),
                                "",
                            ),
                        );
                    },
                }
            },
            ViewItem::Splice { id } => {
                steps.push(Emit::Splice(*id));
                n = n + 1;
                spliced = true;
            },
            ViewItem::Bare { id } => {
                return Err(
                    error_at(
                        Site::Item(*id),
                        "bare string not allowed directly in `components_v2` — use `text_display { \"...\" }`",
                    ),
                );
            },
        }
        i = i + 1;
    }
    if !spliced && n == 0 {
        return Err(missing("`components_v2` must contain at least one component"));
    }
    Ok(finish_list(Emit::V2Message { flags: slots[0] }, &mut steps, n, spliced))
}

} // verus!
