//! Collecting the attributes of an element into its setter slots, and the
//! scan shared by the leaf elements (those that take attributes only).

use vstd::prelude::*;
use vstd::string::*;
use crate::text::{str_eq, cat2};
use crate::tree::{ViewItem, ViewBody};
use crate::view_error::{
    ViewError, ErrorModel, Site, em, unknown_message, unknown_error, splice_message,
    splice_not_allowed,
};
use crate::registry::{
    Schema, slot_count, spec_slot_keys, slot_keys, spec_attr_names, attr_names, spec_dup_texts,
    dup_texts, spec_unknown_before, unknown_before, spec_unknown_after, unknown_after,
    spec_unknown_fallback, unknown_fallback, spec_word, word, lemma_slot_keys_in_range,
};

verus! {

/// The slot filled by `key`: the slot of the first entry of `keys`, from
/// position `i` on, whose name is `key`.
pub open spec fn lookup_from(keys: Seq<(&str, usize)>, key: Seq<char>, i: int) -> Option<usize>
    decreases keys.len() - i,
{
    if i < 0 || i >= keys.len() {
        None
    } else if keys[i].0@ == key {
        Some(keys[i].1)
    } else {
        lookup_from(keys, key, i + 1)
    }
}

/// The setter slot that attribute `key` fills in `schema`, if `key` is known.
pub open spec fn slot_of(schema: Schema, key: Seq<char>) -> Option<usize> {
    lookup_from(spec_slot_keys(schema), key, 0)
}

proof fn lemma_lookup_in_range(keys: Seq<(&str, usize)>, key: Seq<char>, i: int, bound: nat)
    requires
        forall|k: int| 0 <= k < keys.len() ==> #[trigger] keys[k].1 < bound,
    ensures
        lookup_from(keys, key, i) matches Some(s) ==> s < bound,
    decreases keys.len() - i,
{
    if 0 <= i < keys.len() && keys[i].0@ != key {
        lemma_lookup_in_range(keys, key, i + 1, bound);
    }
}

/// A known attribute fills a slot of its element.
pub proof fn lemma_slot_of_in_range(schema: Schema, key: Seq<char>)
    ensures
        slot_of(schema, key) matches Some(s) ==> s < slot_count(schema),
{
    lemma_slot_keys_in_range(schema);
    lemma_lookup_in_range(spec_slot_keys(schema), key, 0, slot_count(schema));
}

/// Finds the slot that `key` fills in `schema`.
pub fn find_slot(schema: Schema, key: &str) -> (r: Option<usize>)
    ensures
        r == slot_of(schema, key@),
        r matches Some(s) ==> s < slot_count(schema),
{
    proof {
        lemma_slot_of_in_range(schema, key@);
    }
    let keys = slot_keys(schema);
    let mut i: usize = 0;
    while i < keys.len()
        invariant
            i <= keys@.len(),
            keys@ == spec_slot_keys(schema),
            lookup_from(keys@, key@, 0) == lookup_from(keys@, key@, i as int),
        decreases keys@.len() - i,
    {
        if str_eq(keys[i].0, key) {
            return Some(keys[i].1);
        }
        i = i + 1;
    }
    None
}

/// No slot filled yet.
pub open spec fn no_slots(n: nat) -> Seq<Option<usize>> {
    Seq::new(n, |k: int| None)
}

/// The empty slot table of `schema`.
pub fn empty_slots(schema: Schema) -> (r: Vec<Option<usize>>)
    ensures
        r@ == no_slots(slot_count(schema)),
{
    let n = dup_texts(schema).len();
    let mut v: Vec<Option<usize>> = Vec::new();
    let mut i: usize = 0;
    while i < n
        invariant
            i <= n,
            n == slot_count(schema),
            v@ == no_slots(i as nat),
        decreases n - i,
    {
        v.push(None);
        i = i + 1;
        assert(v@ =~= no_slots(i as nat));
    }
    v
}

/// The error for an attribute `key` that `schema` does not know.
pub open spec fn unknown_attr_error(schema: Schema, id: usize, key: Seq<char>) -> ErrorModel {
    em(
        Site::Item(id),
        unknown_message(
            spec_unknown_before(schema),
            key,
            spec_unknown_after(schema),
            spec_attr_names(schema),
            spec_unknown_fallback(schema),
        ),
    )
}

/// The error for a second attribute filling slot `s` of `schema`.
pub open spec fn dup_attr_error(schema: Schema, id: usize, s: usize) -> ErrorModel {
    em(Site::Item(id), "duplicate "@ + spec_dup_texts(schema)[s as int]@)
}

/// Collecting attribute `key` (item `id`) into `slots`: an unknown key or a
/// slot that is already filled is an error, else the slot records the item.
pub open spec fn attr_step(schema: Schema, slots: Seq<Option<usize>>, id: usize, key: Seq<char>) -> Result<
    Seq<Option<usize>>,
    ErrorModel,
> {
    match slot_of(schema, key) {
        None => Err(unknown_attr_error(schema, id, key)),
        Some(s) => if slots[s as int] is Some {
            Err(dup_attr_error(schema, id, s))
        } else {
            Ok(slots.update(s as int, Some(id)))
        },
    }
}

/// Makes an "unknown attribute" error for `schema`.
pub fn unknown_attr(schema: Schema, id: usize, key: &str) -> (e: ViewError)
    ensures
        e@ == unknown_attr_error(schema, id, key@),
{
    let names = attr_names(schema);
    unknown_error(
        Site::Item(id),
        unknown_before(schema),
        key,
        unknown_after(schema),
        names.as_slice(),
        unknown_fallback(schema),
    )
}

/// Collects attribute `key` (item `id`) into `slots`; see [`attr_step`].
pub fn collect_attr(schema: Schema, slots: &mut Vec<Option<usize>>, id: usize, key: &str) -> (r:
    Result<(), ViewError>)
    requires
        old(slots)@.len() == slot_count(schema),
    ensures
        final(slots)@.len() == slot_count(schema),
        match attr_step(schema, old(slots)@, id, key@) {
            Ok(s2) => r is Ok && final(slots)@ == s2,
            Err(e) => r matches Err(x) && x@ == e,
        },
{
    match find_slot(schema, key) {
        None => Err(unknown_attr(schema, id, key)),
        Some(s) => {
            if slots[s].is_some() {
                let texts = dup_texts(schema);
                Err(ViewError { site: Site::Item(id), message: cat2("duplicate ", texts[s]) })
            } else {
                slots.set(s, Some(id));
                Ok(())
            }
        },
    }
}

/// The error for an element `name` (item `id`) inside a leaf element.
pub open spec fn leaf_element_error(schema: Schema, id: usize, name: Seq<char>) -> ErrorModel {
    em(Site::Item(id), spec_word(schema) + " cannot contain element `"@ + name + "`"@)
}

/// Where a splice in a leaf element is reported to stand.
pub open spec fn spec_splice_place(schema: Schema) -> Seq<char> {
    if schema == Schema::Image {
        "`image`/`thumbnail`"@
    } else {
        "`"@ + spec_word(schema) + "`"@
    }
}

/// The error for a bare string literal (item `id`) inside `schema`.
pub open spec fn bare_error(schema: Schema, id: usize) -> ErrorModel {
    em(Site::Item(id), "bare string not allowed in `"@ + spec_word(schema) + "`"@)
}

/// Scanning the items of a leaf element from position `i`: attributes fill
/// slots, and an element, a splice or a bare literal is an error.
pub open spec fn leaf_scan(schema: Schema, items: Seq<ViewItem>, i: int, slots: Seq<Option<usize>>) -> Result<
    Seq<Option<usize>>,
    ErrorModel,
>
    decreases items.len() - i,
{
    if i < 0 || i >= items.len() {
        Ok(slots)
    } else {
        match items[i] {
            ViewItem::Attr { id, key, .. } => match attr_step(schema, slots, id, key@) {
                Ok(s2) => leaf_scan(schema, items, i + 1, s2),
                Err(e) => Err(e),
            },
            ViewItem::Element { id, name, .. } => Err(leaf_element_error(schema, id, name@)),
            ViewItem::Splice { id } => Err(em(Site::Item(id), splice_message(spec_splice_place(schema)))),
            ViewItem::Bare { id } => Err(bare_error(schema, id)),
        }
    }
}

/// Makes the error for an element inside a leaf element.
pub fn leaf_element(schema: Schema, id: usize, name: &str) -> (e: ViewError)
    ensures
        e@ == leaf_element_error(schema, id, name@),
{
    let m = cat2(word(schema), " cannot contain element `").concat(name).concat("`");
    ViewError { site: Site::Item(id), message: m }
}

/// Makes the error for a bare literal inside `schema`.
pub fn bare_literal(schema: Schema, id: usize) -> (e: ViewError)
    ensures
        e@ == bare_error(schema, id),
{
    let m = cat2("bare string not allowed in `", word(schema)).concat("`");
    ViewError { site: Site::Item(id), message: m }
}

/// Makes the error for a splice inside a leaf element.
pub fn leaf_splice(schema: Schema, id: usize) -> (e: ViewError)
    ensures
        e@ == em(Site::Item(id), splice_message(spec_splice_place(schema))),
{
    if schema == Schema::Image {
        splice_not_allowed("`image`/`thumbnail`", id)
    } else {
        let place = cat2("`", word(schema)).concat("`");
        splice_not_allowed(place.as_str(), id)
    }
}

/// The slots of a leaf element, or the first error among its items.
pub fn scan_leaf(schema: Schema, body: &ViewBody) -> (r: Result<Vec<Option<usize>>, ViewError>)
    ensures
        r matches Ok(v) ==> v@.len() == slot_count(schema),
        match leaf_scan(schema, body.items@, 0, no_slots(slot_count(schema))) {
            Ok(s) => r matches Ok(v) && v@ == s,
            Err(e) => r matches Err(x) && x@ == e,
        },
{
    let mut slots = empty_slots(schema);
    let mut i: usize = 0;
    while i < body.items.len()
        invariant
            i <= body.items@.len(),
            slots@.len() == slot_count(schema),
            leaf_scan(schema, body.items@, 0, no_slots(slot_count(schema))) == leaf_scan(
                schema,
                body.items@,
                i as int,
                slots@,
            ),
        decreases body.items@.len() - i,
    {
        match &body.items[i] {
            ViewItem::Attr { id, key, .. } => {
                collect_attr(schema, &mut slots, *id, key.as_str())?;
            },
            ViewItem::Element { id, name, .. } => {
                return Err(leaf_element(schema, *id, name.as_str()));
            },
            ViewItem::Splice { id } => {
                return Err(leaf_splice(schema, *id));
            },
            ViewItem::Bare { id } => {
                return Err(bare_literal(schema, *id));
            },
        }
        i = i + 1;
    }
    Ok(slots)
}

} // verus!
