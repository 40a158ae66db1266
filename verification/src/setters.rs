//! Every attribute lands in the setter of its own name: a planned node's
//! field holds the id of the attribute written with that field's name, and
//! is empty exactly when no such attribute was written.

use vstd::prelude::*;
use crate::tree::ViewItem;
use crate::view_error::ErrorModel;
use crate::registry::{Schema, slot_count, spec_slot_keys};
use crate::attrs::{lookup_from, slot_of, attr_step, no_slots, lemma_slot_of_in_range, leaf_scan};
use crate::plan::{Emit, ButtonCtor, Mention};

verus! {

// --- what the laws say ---

/// The item is an attribute whose name is one of `names`.
pub open spec fn attr_in(it: ViewItem, names: Set<Seq<char>>) -> bool {
    it is Attr && names.contains(it->Attr_key@)
}

/// `field` is the id of an attribute of `items` named one of `names`, or
/// empty when no attribute has such a name.
pub open spec fn field_of(items: Seq<ViewItem>, field: Option<usize>, names: Set<Seq<char>>) -> bool {
    match field {
        Some(id) => exists|k: int|
            0 <= k < items.len() && #[trigger] attr_in(items[k], names) && items[k]->Attr_id == id,
        None => forall|k: int| 0 <= k < items.len() ==> !#[trigger] attr_in(items[k], names),
    }
}

/// The item is an attribute named `name` with id `id`.
pub open spec fn attr_named(it: ViewItem, name: Seq<char>, id: usize) -> bool {
    it is Attr && it->Attr_key@ == name && it->Attr_id == id
}

// --- slots against the attributes written so far ---

/// Item `it` is attribute `id`, whose name fills slot `s` of `schema`.
pub open spec fn fills(schema: Schema, it: ViewItem, s: int, id: usize) -> bool {
    it is Attr && it->Attr_id == id && slot_of(schema, it->Attr_key@) == Some(s as usize)
}

/// Slot value `v` of slot `s` records the attributes among the first `i`
/// items: the id of one that fills the slot, or none when none does.
pub open spec fn slot_recorded(schema: Schema, items: Seq<ViewItem>, i: int, v: Option<usize>, s: int) -> bool {
    &&& v is Some ==> exists|k: int| 0 <= k < i && #[trigger] fills(schema, items[k], s, v->Some_0)
    &&& v is None ==> forall|k: int, id: usize| 0 <= k < i ==> !#[trigger] fills(schema, items[k], s, id)
}

/// All slots record the attributes among the first `i` items.
pub open spec fn slots_record(schema: Schema, items: Seq<ViewItem>, i: int, slots: Seq<Option<usize>>) -> bool {
    &&& slots.len() == slot_count(schema)
    &&& forall|s: int| 0 <= s < slots.len() ==> slot_recorded(schema, items, i, #[trigger] slots[s], s)
}

proof fn lemma_record_start(schema: Schema, items: Seq<ViewItem>)
    ensures
        slots_record(schema, items, 0, no_slots(slot_count(schema))),
{
}

/// One slot after one more item, which leaves the slot as it was or, being
/// attribute `id` that fills it, sets it to `id`.
proof fn lemma_record_step_slot(
    schema: Schema,
    items: Seq<ViewItem>,
    i: int,
    before: Option<usize>,
    after: Option<usize>,
    s: int,
)
    requires
        0 <= i < items.len(),
        slot_recorded(schema, items, i, before, s),
        forall|id: usize| #[trigger] fills(schema, items[i], s, id) ==> after == Some(id),
        !(exists|id: usize| #[trigger] fills(schema, items[i], s, id)) ==> after == before,
    ensures
        slot_recorded(schema, items, i + 1, after, s),
{
    if exists|id: usize| #[trigger] fills(schema, items[i], s, id) {
        let id = choose|id: usize| #[trigger] fills(schema, items[i], s, id);
        assert(after == Some(id));
        assert(fills(schema, items[i], s, after->Some_0));
    } else {
        match before {
            Some(x) => {
                let k = choose|k: int| 0 <= k < i && #[trigger] fills(schema, items[k], s, x);
                assert(fills(schema, items[k], s, after->Some_0));
            },
            None => {
                assert forall|k: int, y: usize| 0 <= k < i + 1 implies !#[trigger] fills(
                    schema,
                    items[k],
                    s,
                    y,
                ) by {
                    if k < i {
                        assert(!fills(schema, items[k], s, y));
                    }
                }
            },
        }
    }
}

/// One more item: an attribute collected by `attr_step`, or any other item
/// with the slots unchanged.
proof fn lemma_record_step(
    schema: Schema,
    items: Seq<ViewItem>,
    i: int,
    slots: Seq<Option<usize>>,
    s2: Seq<Option<usize>>,
)
    requires
        0 <= i < items.len(),
        slots_record(schema, items, i, slots),
        items[i] is Attr ==> attr_step(schema, slots, items[i]->Attr_id, items[i]->Attr_key@) == Ok::<
            Seq<Option<usize>>,
            ErrorModel,
        >(s2),
        !(items[i] is Attr) ==> s2 == slots,
    ensures
        slots_record(schema, items, i + 1, s2),
{
    if items[i] is Attr {
        let id = items[i]->Attr_id;
        let key = items[i]->Attr_key@;
        lemma_slot_of_in_range(schema, key);
        let s0 = slot_of(schema, key)->Some_0 as int;
        assert(s2 == slots.update(s0, Some(id)));
    }
    assert forall|s: int| 0 <= s < s2.len() implies slot_recorded(
        schema,
        items,
        i + 1,
        #[trigger] s2[s],
        s,
    ) by {
        assert(slot_recorded(schema, items, i, slots[s], s));
        if items[i] is Attr {
            let s0 = slot_of(schema, items[i]->Attr_key@)->Some_0 as int;
            if s == s0 {
                assert(fills(schema, items[i], s, items[i]->Attr_id));
            }
        }
        lemma_record_step_slot(schema, items, i, slots[s], s2[s], s);
    }
}

/// An entry found by `lookup_from` is an entry of that name.
proof fn lemma_lookup_sound(keys: Seq<(&str, usize)>, key: Seq<char>, i: int)
    ensures
        lookup_from(keys, key, i) matches Some(s) ==> exists|j: int|
            0 <= j < keys.len() && #[trigger] keys[j].0@ == key && keys[j].1 == s,
    decreases keys.len() - i,
{
    if 0 <= i < keys.len() && keys[i].0@ != key {
        lemma_lookup_sound(keys, key, i + 1);
    }
}

/// The first entry of `keys` from `i` on named `key` is entry `j`.
proof fn lemma_lookup_complete(keys: Seq<(&str, usize)>, key: Seq<char>, i: int, j: int)
    requires
        0 <= i <= j < keys.len(),
        keys[j].0@ == key,
        forall|m: int| i <= m < j ==> #[trigger] keys[m].0@ != key,
    ensures
        lookup_from(keys, key, i) == Some(keys[j].1),
    decreases j - i,
{
    if i < j {
        lemma_lookup_complete(keys, key, i + 1, j);
    }
}

/// Entry `j` of the table of `schema` gives the slot of its name, when no
/// earlier entry has that name.
proof fn lemma_entry_slot(schema: Schema, j: int)
    requires
        0 <= j < spec_slot_keys(schema).len(),
        forall|m: int| 0 <= m < j ==> #[trigger] spec_slot_keys(schema)[m].0@ != spec_slot_keys(schema)[j].0@,
    ensures
        slot_of(schema, spec_slot_keys(schema)[j].0@) == Some(spec_slot_keys(schema)[j].1),
{
    lemma_lookup_complete(spec_slot_keys(schema), spec_slot_keys(schema)[j].0@, 0, j);
}

/// A name fills slot `s` of `schema` exactly when it is one of `names`, given
/// that the table's entries for slot `s` are those named in `names` and
/// each of `names` is looked up to slot `s`.
proof fn lemma_slot_names(schema: Schema, s: usize, names: Set<Seq<char>>)
    requires
        forall|j: int|
            0 <= j < spec_slot_keys(schema).len() && #[trigger] spec_slot_keys(schema)[j].1 == s
                ==> names.contains(spec_slot_keys(schema)[j].0@),
        forall|key: Seq<char>| #[trigger] names.contains(key) ==> slot_of(schema, key) == Some(s),
    ensures
        forall|key: Seq<char>| #[trigger] names.contains(key) <==> slot_of(schema, key) == Some(s),
{
    assert forall|key: Seq<char>| slot_of(schema, key) == Some(s) implies #[trigger] names.contains(
        key,
    ) by {
        lemma_lookup_sound(spec_slot_keys(schema), key, 0);
        let j = choose|j: int|
            0 <= j < spec_slot_keys(schema).len() && #[trigger] spec_slot_keys(schema)[j].0@ == key
                && spec_slot_keys(schema)[j].1 == s;
        assert(spec_slot_keys(schema)[j].1 == s);
    }
}

/// A recorded slot whose names are `names` holds the field of those names.
proof fn lemma_field(schema: Schema, items: Seq<ViewItem>, slots: Seq<Option<usize>>, s: int, names: Set<Seq<char>>)
    requires
        slots_record(schema, items, items.len() as int, slots),
        0 <= s < slots.len(),
        forall|key: Seq<char>| #[trigger] names.contains(key) <==> slot_of(schema, key) == Some(s as usize),
    ensures
        field_of(items, slots[s], names),
{
    assert(slot_recorded(schema, items, items.len() as int, slots[s], s));
    match slots[s] {
        Some(id) => {
            let k = choose|k: int| 0 <= k < items.len() && #[trigger] fills(schema, items[k], s, id);
            assert(attr_in(items[k], names));
        },
        None => {
            assert forall|k: int| 0 <= k < items.len() implies !#[trigger] attr_in(items[k], names) by {
                if attr_in(items[k], names) {
                    assert(fills(schema, items[k], s, items[k]->Attr_id));
                }
            }
        },
    }
}

// --- embeds ---

/// The names of the `Embed` table, each found at its own entry.
proof fn lemma_embed_table()
    ensures
        slot_of(Schema::Embed, "title"@) == Some(spec_slot_keys(Schema::Embed)[0].1),
        slot_of(Schema::Embed, "description"@) == Some(spec_slot_keys(Schema::Embed)[1].1),
        slot_of(Schema::Embed, "url"@) == Some(spec_slot_keys(Schema::Embed)[2].1),
        slot_of(Schema::Embed, "timestamp"@) == Some(spec_slot_keys(Schema::Embed)[3].1),
        slot_of(Schema::Embed, "colour"@) == Some(spec_slot_keys(Schema::Embed)[4].1),
        slot_of(Schema::Embed, "color"@) == Some(spec_slot_keys(Schema::Embed)[5].1),
{
    reveal_strlit("title");
    reveal_strlit("description");
    reveal_strlit("url");
    reveal_strlit("timestamp");
    reveal_strlit("colour");
    reveal_strlit("color");
    assert("title"@[0] == 't' && "color"@[0] == 'c');
    let keys = spec_slot_keys(Schema::Embed);
    assert(keys[0].0@ == "title"@);
    assert(keys[1].0@ == "description"@);
    assert(keys[2].0@ == "url"@);
    assert(keys[3].0@ == "timestamp"@);
    assert(keys[4].0@ == "colour"@);
    assert(keys[5].0@ == "color"@);
    lemma_entry_slot(Schema::Embed, 0);
    assert forall|m: int| 0 <= m < 1 implies #[trigger] keys[m].0@ != keys[1].0@ by {
        assert(m == 0);
    }
    lemma_entry_slot(Schema::Embed, 1);
    assert forall|m: int| 0 <= m < 2 implies #[trigger] keys[m].0@ != keys[2].0@ by {
        assert(m == 0 || m == 1);
    }
    lemma_entry_slot(Schema::Embed, 2);
    assert forall|m: int| 0 <= m < 3 implies #[trigger] keys[m].0@ != keys[3].0@ by {
        assert(m == 0 || m == 1 || m == 2);
    }
    lemma_entry_slot(Schema::Embed, 3);
    assert forall|m: int| 0 <= m < 4 implies #[trigger] keys[m].0@ != keys[4].0@ by {
        assert(m == 0 || m == 1 || m == 2 || m == 3);
    }
    lemma_entry_slot(Schema::Embed, 4);
    assert forall|m: int| 0 <= m < 5 implies #[trigger] keys[m].0@ != keys[5].0@ by {
        assert(m == 0 || m == 1 || m == 2 || m == 3 || m == 4);
    }
    lemma_entry_slot(Schema::Embed, 5);
}


/// Scanning an embed keeps its slots recording the attributes seen.
proof fn lemma_embed_scan_records(items: Seq<ViewItem>, i: int, st: crate::embed::EmbedScan)
    requires
        0 <= i <= items.len(),
        slots_record(Schema::Embed, items, i, st.slots),
        crate::embed::embed_scan(items, i, st) is Ok,
    ensures
        slots_record(Schema::Embed, items, items.len() as int, crate::embed::embed_scan(items, i, st)->Ok_0.slots),
    decreases items.len() - i,
{
    if i < items.len() {
        match items[i] {
            ViewItem::Attr { id, key, .. } => {
                match attr_step(Schema::Embed, st.slots, id, key@) {
                    Ok(s2) => {
                        lemma_record_step(Schema::Embed, items, i, st.slots, s2);
                        lemma_embed_scan_records(items, i + 1, crate::embed::EmbedScan { slots: s2, ..st });
                    },
                    Err(_) => {},
                }
            },
            ViewItem::Element { id, name, body } => {
                lemma_record_step(Schema::Embed, items, i, st.slots, st.slots);
                if name@ == "field"@ {
                    match crate::leaf::spec_field(body.items@) {
                        Ok(f) => lemma_embed_scan_records(
                            items,
                            i + 1,
                            crate::embed::EmbedScan { fields: st.fields.push(f), nf: st.nf + 1, ..st },
                        ),
                        Err(_) => {},
                    }
                } else if name@ == "author"@ {
                    match crate::embed::embed_single(id, "author"@, st.author, crate::leaf::spec_author(body.items@)) {
                        Ok(a) => lemma_embed_scan_records(items, i + 1, crate::embed::EmbedScan { author: Some(a), ..st }),
                        Err(_) => {},
                    }
                } else if name@ == "footer"@ {
                    match crate::embed::embed_single(id, "footer"@, st.footer, crate::leaf::spec_footer(body.items@)) {
                        Ok(a) => lemma_embed_scan_records(items, i + 1, crate::embed::EmbedScan { footer: Some(a), ..st }),
                        Err(_) => {},
                    }
                } else if name@ == "image"@ {
                    match crate::embed::embed_single(
                        id,
                        "image"@,
                        st.image,
                        crate::leaf::spec_embed_image(body.items@, false),
                    ) {
                        Ok(a) => lemma_embed_scan_records(items, i + 1, crate::embed::EmbedScan { image: Some(a), ..st }),
                        Err(_) => {},
                    }
                } else if name@ == "thumbnail"@ {
                    match crate::embed::embed_single(
                        id,
                        "thumbnail"@,
                        st.thumbnail,
                        crate::leaf::spec_embed_image(body.items@, true),
                    ) {
                        Ok(a) => lemma_embed_scan_records(
                            items,
                            i + 1,
                            crate::embed::EmbedScan { thumbnail: Some(a), ..st },
                        ),
                        Err(_) => {},
                    }
                }
            },
            ViewItem::Splice { id } => {
                lemma_record_step(Schema::Embed, items, i, st.slots, st.slots);
                lemma_embed_scan_records(
                    items,
                    i + 1,
                    crate::embed::EmbedScan {
                        fields: st.fields.push(Emit::Splice(id)),
                        nf: st.nf + 1,
                        spliced: true,
                        ..st
                    },
                );
            },
            ViewItem::Bare { .. } => {},
        }
    }
}

/// Every attribute of an embed lands in the setter of its own name: the
/// planned embed's `title`, `description`, `url` and `timestamp` are the ids
/// of the attributes so named, and its `colour` that of the `colour` (or
/// `color`) attribute; each is empty exactly when no such attribute was
/// written.
pub proof fn law_embed_attributes_land_in_their_setters(items: Seq<ViewItem>)
    requires
        crate::embed::spec_embed(items) is Ok,
    ensures
        (crate::embed::spec_embed(items)->Ok_0[0] matches Emit::Embed {
            title,
            description,
            url,
            timestamp,
            colour,
            ..
        } && field_of(items, title, set!["title"@]) && field_of(items, description, set!["description"@])
            && field_of(items, url, set!["url"@]) && field_of(items, timestamp, set!["timestamp"@])
            && field_of(items, colour, set!["colour"@, "color"@])),
{
    reveal(crate::embed::spec_embed);
    reveal_strlit("title");
    reveal_strlit("description");
    reveal_strlit("url");
    reveal_strlit("timestamp");
    reveal_strlit("colour");
    reveal_strlit("color");
    lemma_embed_table();
    let st = crate::embed::embed_scan(items, 0, crate::embed::embed_start())->Ok_0;
    lemma_record_start(Schema::Embed, items);
    lemma_embed_scan_records(items, 0, crate::embed::embed_start());
    lemma_slot_names(Schema::Embed, 0, set!["title"@]);
    lemma_slot_names(Schema::Embed, 1, set!["description"@]);
    lemma_slot_names(Schema::Embed, 2, set!["url"@]);
    lemma_slot_names(Schema::Embed, 3, set!["timestamp"@]);
    lemma_slot_names(Schema::Embed, 4, set!["colour"@, "color"@]);
    lemma_field(Schema::Embed, items, st.slots, 0, set!["title"@]);
    lemma_field(Schema::Embed, items, st.slots, 1, set!["description"@]);
    lemma_field(Schema::Embed, items, st.slots, 2, set!["url"@]);
    lemma_field(Schema::Embed, items, st.slots, 3, set!["timestamp"@]);
    lemma_field(Schema::Embed, items, st.slots, 4, set!["colour"@, "color"@]);
}

/// The names of the `Button` table, each found at its own entry.
proof fn lemma_button_table()
    ensures
        slot_of(Schema::Button, "style"@) == Some(spec_slot_keys(Schema::Button)[0].1),
        slot_of(Schema::Button, "label"@) == Some(spec_slot_keys(Schema::Button)[1].1),
        slot_of(Schema::Button, "custom_id"@) == Some(spec_slot_keys(Schema::Button)[2].1),
        slot_of(Schema::Button, "url"@) == Some(spec_slot_keys(Schema::Button)[3].1),
        slot_of(Schema::Button, "sku_id"@) == Some(spec_slot_keys(Schema::Button)[4].1),
        slot_of(Schema::Button, "emoji"@) == Some(spec_slot_keys(Schema::Button)[5].1),
        slot_of(Schema::Button, "disabled"@) == Some(spec_slot_keys(Schema::Button)[6].1),
{
    reveal_strlit("style");
    reveal_strlit("label");
    reveal_strlit("custom_id");
    reveal_strlit("url");
    reveal_strlit("sku_id");
    reveal_strlit("emoji");
    reveal_strlit("disabled");
    assert("style"@[0] == 's' && "label"@[0] == 'l' && "emoji"@[0] == 'e');
    let keys = spec_slot_keys(Schema::Button);
    assert(keys[0].0@ == "style"@);
    assert(keys[1].0@ == "label"@);
    assert(keys[2].0@ == "custom_id"@);
    assert(keys[3].0@ == "url"@);
    assert(keys[4].0@ == "sku_id"@);
    assert(keys[5].0@ == "emoji"@);
    assert(keys[6].0@ == "disabled"@);
    lemma_entry_slot(Schema::Button, 0);
    assert forall|m: int| 0 <= m < 1 implies #[trigger] keys[m].0@ != keys[1].0@ by {
        assert(m == 0);
    }
    lemma_entry_slot(Schema::Button, 1);
    assert forall|m: int| 0 <= m < 2 implies #[trigger] keys[m].0@ != keys[2].0@ by {
        assert(m == 0 || m == 1);
    }
    lemma_entry_slot(Schema::Button, 2);
    assert forall|m: int| 0 <= m < 3 implies #[trigger] keys[m].0@ != keys[3].0@ by {
        assert(m == 0 || m == 1 || m == 2);
    }
    lemma_entry_slot(Schema::Button, 3);
    assert forall|m: int| 0 <= m < 4 implies #[trigger] keys[m].0@ != keys[4].0@ by {
        assert(m == 0 || m == 1 || m == 2 || m == 3);
    }
    lemma_entry_slot(Schema::Button, 4);
    assert forall|m: int| 0 <= m < 5 implies #[trigger] keys[m].0@ != keys[5].0@ by {
        assert(m == 0 || m == 1 || m == 2 || m == 3 || m == 4);
    }
    lemma_entry_slot(Schema::Button, 5);
    assert forall|m: int| 0 <= m < 6 implies #[trigger] keys[m].0@ != keys[6].0@ by {
        assert(m == 0 || m == 1 || m == 2 || m == 3 || m == 4 || m == 5);
    }
    lemma_entry_slot(Schema::Button, 6);
}

/// The names of the `SelectMenu` table, each found at its own entry.
proof fn lemma_selectmenu_table()
    ensures
        slot_of(Schema::SelectMenu, "custom_id"@) == Some(spec_slot_keys(Schema::SelectMenu)[0].1),
        slot_of(Schema::SelectMenu, "placeholder"@) == Some(spec_slot_keys(Schema::SelectMenu)[1].1),
        slot_of(Schema::SelectMenu, "min_values"@) == Some(spec_slot_keys(Schema::SelectMenu)[2].1),
        slot_of(Schema::SelectMenu, "max_values"@) == Some(spec_slot_keys(Schema::SelectMenu)[3].1),
        slot_of(Schema::SelectMenu, "disabled"@) == Some(spec_slot_keys(Schema::SelectMenu)[4].1),
        slot_of(Schema::SelectMenu, "required"@) == Some(spec_slot_keys(Schema::SelectMenu)[5].1),
        slot_of(Schema::SelectMenu, "kind"@) == Some(spec_slot_keys(Schema::SelectMenu)[6].1),
{
    reveal_strlit("custom_id");
    reveal_strlit("placeholder");
    reveal_strlit("min_values");
    reveal_strlit("max_values");
    reveal_strlit("disabled");
    reveal_strlit("required");
    reveal_strlit("kind");
    assert("min_values"@[1] == 'i' && "max_values"@[1] == 'a');
    assert("disabled"@[0] == 'd' && "required"@[0] == 'r');
    let keys = spec_slot_keys(Schema::SelectMenu);
    assert(keys[0].0@ == "custom_id"@);
    assert(keys[1].0@ == "placeholder"@);
    assert(keys[2].0@ == "min_values"@);
    assert(keys[3].0@ == "max_values"@);
    assert(keys[4].0@ == "disabled"@);
    assert(keys[5].0@ == "required"@);
    assert(keys[6].0@ == "kind"@);
    lemma_entry_slot(Schema::SelectMenu, 0);
    assert forall|m: int| 0 <= m < 1 implies #[trigger] keys[m].0@ != keys[1].0@ by {
        assert(m == 0);
    }
    lemma_entry_slot(Schema::SelectMenu, 1);
    assert forall|m: int| 0 <= m < 2 implies #[trigger] keys[m].0@ != keys[2].0@ by {
        assert(m == 0 || m == 1);
    }
    lemma_entry_slot(Schema::SelectMenu, 2);
    assert forall|m: int| 0 <= m < 3 implies #[trigger] keys[m].0@ != keys[3].0@ by {
        assert(m == 0 || m == 1 || m == 2);
    }
    lemma_entry_slot(Schema::SelectMenu, 3);
    assert forall|m: int| 0 <= m < 4 implies #[trigger] keys[m].0@ != keys[4].0@ by {
        assert(m == 0 || m == 1 || m == 2 || m == 3);
    }
    lemma_entry_slot(Schema::SelectMenu, 4);
    assert forall|m: int| 0 <= m < 5 implies #[trigger] keys[m].0@ != keys[5].0@ by {
        assert(m == 0 || m == 1 || m == 2 || m == 3 || m == 4);
    }
    lemma_entry_slot(Schema::SelectMenu, 5);
    assert forall|m: int| 0 <= m < 6 implies #[trigger] keys[m].0@ != keys[6].0@ by {
        assert(m == 0 || m == 1 || m == 2 || m == 3 || m == 4 || m == 5);
    }
    lemma_entry_slot(Schema::SelectMenu, 6);
}

/// The names of the `Container` table, each found at its own entry.
proof fn lemma_container_table()
    ensures
        slot_of(Schema::Container, "accent_color"@) == Some(spec_slot_keys(Schema::Container)[0].1),
        slot_of(Schema::Container, "accent_colour"@) == Some(spec_slot_keys(Schema::Container)[1].1),
        slot_of(Schema::Container, "spoiler"@) == Some(spec_slot_keys(Schema::Container)[2].1),
{
    reveal_strlit("accent_color");
    reveal_strlit("accent_colour");
    reveal_strlit("spoiler");
    let keys = spec_slot_keys(Schema::Container);
    assert(keys[0].0@ == "accent_color"@);
    assert(keys[1].0@ == "accent_colour"@);
    assert(keys[2].0@ == "spoiler"@);
    lemma_entry_slot(Schema::Container, 0);
    assert forall|m: int| 0 <= m < 1 implies #[trigger] keys[m].0@ != keys[1].0@ by {
        assert(m == 0);
    }
    lemma_entry_slot(Schema::Container, 1);
    assert forall|m: int| 0 <= m < 2 implies #[trigger] keys[m].0@ != keys[2].0@ by {
        assert(m == 0 || m == 1);
    }
    lemma_entry_slot(Schema::Container, 2);
}

// --- leaf elements and buttons ---

/// Scanning a leaf element keeps its slots recording the attributes seen.
proof fn lemma_leaf_scan_records(schema: Schema, items: Seq<ViewItem>, i: int, slots: Seq<Option<usize>>)
    requires
        0 <= i <= items.len(),
        slots_record(schema, items, i, slots),
        leaf_scan(schema, items, i, slots) is Ok,
    ensures
        slots_record(schema, items, items.len() as int, leaf_scan(schema, items, i, slots)->Ok_0),
    decreases items.len() - i,
{
    if i < items.len() {
        if let ViewItem::Attr { id, key, .. } = items[i] {
            let s2 = attr_step(schema, slots, id, key@)->Ok_0;
            lemma_record_step(schema, items, i, slots, s2);
            lemma_leaf_scan_records(schema, items, i + 1, s2);
        }
    }
}

/// Some attribute of `items` is named one of `names`.
pub open spec fn has_attr(items: Seq<ViewItem>, names: Set<Seq<char>>) -> bool {
    exists|k: int| 0 <= k < items.len() && #[trigger] attr_in(items[k], names)
}

/// Every attribute of a button lands in the setter of its own name: it is
/// built as a link button from its `url` exactly when it has one, as a
/// premium button from its `sku_id` exactly when it has one, and otherwise
/// from its `custom_id`; `style` (on a regular button), `label`, `emoji` and
/// `disabled` are the ids of the attributes so named, each empty exactly
/// when no such attribute was written.
pub proof fn law_button_attributes_land_in_their_setters(items: Seq<ViewItem>)
    requires
        crate::leaf::spec_button(items) is Ok,
    ensures
        (crate::leaf::spec_button(items)->Ok_0 matches Emit::Button { ctor, style, label, emoji, disabled }
            && (ctor is Link <==> has_attr(items, set!["url"@]))
            && (ctor is Premium <==> has_attr(items, set!["sku_id"@]))
            && (ctor matches ButtonCtor::Link(u) ==> field_of(items, Some(u), set!["url"@]))
            && (ctor matches ButtonCtor::Premium(x) ==> field_of(items, Some(x), set!["sku_id"@]))
            && (ctor matches ButtonCtor::Custom(c) ==> field_of(items, Some(c), set!["custom_id"@]))
            && (ctor is Custom ==> field_of(items, style, set!["style"@]))
            && (!(ctor is Custom) ==> style is None)
            && field_of(items, label, set!["label"@])
            && field_of(items, emoji, set!["emoji"@])
            && field_of(items, disabled, set!["disabled"@])),
{
    reveal(crate::leaf::spec_button);
    lemma_button_table();
    let s = crate::leaf::scanned(Schema::Button, items)->Ok_0;
    lemma_record_start(Schema::Button, items);
    lemma_leaf_scan_records(Schema::Button, items, 0, no_slots(slot_count(Schema::Button)));
    lemma_slot_names(Schema::Button, 0, set!["style"@]);
    lemma_slot_names(Schema::Button, 1, set!["label"@]);
    lemma_slot_names(Schema::Button, 2, set!["custom_id"@]);
    lemma_slot_names(Schema::Button, 3, set!["url"@]);
    lemma_slot_names(Schema::Button, 4, set!["sku_id"@]);
    lemma_slot_names(Schema::Button, 5, set!["emoji"@]);
    lemma_slot_names(Schema::Button, 6, set!["disabled"@]);
    lemma_field(Schema::Button, items, s, 0, set!["style"@]);
    lemma_field(Schema::Button, items, s, 1, set!["label"@]);
    lemma_field(Schema::Button, items, s, 2, set!["custom_id"@]);
    lemma_field(Schema::Button, items, s, 3, set!["url"@]);
    lemma_field(Schema::Button, items, s, 4, set!["sku_id"@]);
    lemma_field(Schema::Button, items, s, 5, set!["emoji"@]);
    lemma_field(Schema::Button, items, s, 6, set!["disabled"@]);
}

// --- select menus ---

/// Scanning a select menu keeps its slots recording the attributes seen.
proof fn lemma_select_scan_records(
    elem: crate::select::SelectElement,
    items: Seq<ViewItem>,
    i: int,
    slots: Seq<Option<usize>>,
    opts: Seq<Emit>,
    n: nat,
)
    requires
        0 <= i <= items.len(),
        slots_record(Schema::SelectMenu, items, i, slots),
        crate::select::select_scan(elem, items, i, slots, opts, n) is Ok,
    ensures
        slots_record(
            Schema::SelectMenu,
            items,
            items.len() as int,
            crate::select::select_scan(elem, items, i, slots, opts, n)->Ok_0.0,
        ),
    decreases items.len() - i,
{
    if i < items.len() {
        match items[i] {
            ViewItem::Attr { id, key, .. } => {
                let s2 = attr_step(Schema::SelectMenu, slots, id, key@)->Ok_0;
                lemma_record_step(Schema::SelectMenu, items, i, slots, s2);
                lemma_select_scan_records(elem, items, i + 1, s2, opts, n);
            },
            ViewItem::Element { body, .. } => {
                lemma_record_step(Schema::SelectMenu, items, i, slots, slots);
                let o = crate::leaf::spec_select_option(body.items@)->Ok_0;
                lemma_select_scan_records(elem, items, i + 1, slots, opts.push(o), n + 1);
            },
            _ => {},
        }
    }
}

/// Every attribute of a select menu lands in the setter of its own name:
/// the planned menu's `custom_id`, `placeholder`, `min_values`,
/// `max_values`, `disabled` and `required` are the ids of the attributes so
/// named, each optional one empty exactly when no such attribute was
/// written.
pub proof fn law_select_menu_attributes_land_in_their_setters(
    elem: crate::select::SelectElement,
    items: Seq<ViewItem>,
)
    requires
        crate::select::spec_select_menu(elem, items) is Ok,
    ensures
        (crate::select::spec_select_menu(elem, items)->Ok_0[0] matches Emit::SelectMenu {
            custom_id,
            placeholder,
            min_values,
            max_values,
            required,
            disabled,
            ..
        } && field_of(items, Some(custom_id), set!["custom_id"@])
            && field_of(items, placeholder, set!["placeholder"@])
            && field_of(items, min_values, set!["min_values"@])
            && field_of(items, max_values, set!["max_values"@])
            && field_of(items, disabled, set!["disabled"@])
            && field_of(items, required, set!["required"@])),
{
    reveal(crate::select::spec_select_menu);
    lemma_selectmenu_table();
    let start = no_slots(slot_count(Schema::SelectMenu));
    let s = crate::select::select_scan(elem, items, 0, start, Seq::empty(), 0)->Ok_0.0;
    lemma_record_start(Schema::SelectMenu, items);
    lemma_select_scan_records(elem, items, 0, start, Seq::empty(), 0);
    lemma_slot_names(Schema::SelectMenu, 0, set!["custom_id"@]);
    lemma_slot_names(Schema::SelectMenu, 1, set!["placeholder"@]);
    lemma_slot_names(Schema::SelectMenu, 2, set!["min_values"@]);
    lemma_slot_names(Schema::SelectMenu, 3, set!["max_values"@]);
    lemma_slot_names(Schema::SelectMenu, 4, set!["disabled"@]);
    lemma_slot_names(Schema::SelectMenu, 5, set!["required"@]);
    lemma_field(Schema::SelectMenu, items, s, 0, set!["custom_id"@]);
    lemma_field(Schema::SelectMenu, items, s, 1, set!["placeholder"@]);
    lemma_field(Schema::SelectMenu, items, s, 2, set!["min_values"@]);
    lemma_field(Schema::SelectMenu, items, s, 3, set!["max_values"@]);
    lemma_field(Schema::SelectMenu, items, s, 4, set!["disabled"@]);
    lemma_field(Schema::SelectMenu, items, s, 5, set!["required"@]);
}

// --- containers ---

/// Scanning a container keeps its slots recording the attributes seen.
proof fn lemma_container_scan_records(
    items: Seq<ViewItem>,
    i: int,
    slots: Seq<Option<usize>>,
    list: crate::v2::ListScan,
)
    requires
        0 <= i <= items.len(),
        slots_record(Schema::Container, items, i, slots),
        crate::v2::container_scan(items, i, slots, list) is Ok,
    ensures
        slots_record(
            Schema::Container,
            items,
            items.len() as int,
            crate::v2::container_scan(items, i, slots, list)->Ok_0.0,
        ),
    decreases items.len() - i,
{
    if i < items.len() {
        match items[i] {
            ViewItem::Attr { id, key, .. } => {
                let s2 = attr_step(Schema::Container, slots, id, key@)->Ok_0;
                lemma_record_step(Schema::Container, items, i, slots, s2);
                lemma_container_scan_records(items, i + 1, s2, list);
            },
            ViewItem::Element { name, body, .. } => {
                lemma_record_step(Schema::Container, items, i, slots, slots);
                let k = crate::v2::v2_kind_of(name@)->Some_0;
                let c = crate::v2::spec_leaf_v2_child(k, body.items@)->Ok_0;
                lemma_container_scan_records(items, i + 1, slots, crate::v2::list_push(list, c));
            },
            ViewItem::Splice { id } => {
                lemma_record_step(Schema::Container, items, i, slots, slots);
                lemma_container_scan_records(items, i + 1, slots, crate::v2::list_splice(list, id));
            },
            ViewItem::Bare { .. } => {},
        }
    }
}

/// Every attribute of a container lands in the setter of its own name: the
/// planned container's accent is the id of its `accent_color` (or
/// `accent_colour`) attribute and its spoiler that of its `spoiler`
/// attribute, each empty exactly when no such attribute was written.
pub proof fn law_container_attributes_land_in_their_setters(items: Seq<ViewItem>)
    requires
        crate::v2::spec_container(items) is Ok,
    ensures
        (crate::v2::spec_container(items)->Ok_0[0] matches Emit::Container { accent, spoiler }
            && field_of(items, accent, set!["accent_color"@, "accent_colour"@])
            && field_of(items, spoiler, set!["spoiler"@])),
{
    reveal(crate::v2::spec_container);
    lemma_container_table();
    let start = no_slots(slot_count(Schema::Container));
    let s = crate::v2::container_scan(items, 0, start, crate::v2::list_start())->Ok_0.0;
    lemma_record_start(Schema::Container, items);
    lemma_container_scan_records(items, 0, start, crate::v2::list_start());
    lemma_slot_names(Schema::Container, 0, set!["accent_color"@, "accent_colour"@]);
    lemma_slot_names(Schema::Container, 1, set!["spoiler"@]);
    lemma_field(Schema::Container, items, s, 0, set!["accent_color"@, "accent_colour"@]);
    lemma_field(Schema::Container, items, s, 1, set!["spoiler"@]);
}

// --- allowed mentions ---

/// A call that a `parse` attribute adds: one of the three parse words.
pub open spec fn is_parse_call(e: Emit) -> bool {
    e == Emit::Mention(Mention::Everyone) || e == Emit::Mention(Mention::AllUsers) || e
        == Emit::Mention(Mention::AllRoles)
}

/// The calls of a `parse` array extend `calls` with parse words only.
proof fn lemma_parse_array_words(id: usize, elems: Seq<String>, k: int, calls: Seq<Emit>)
    requires
        crate::embed::parse_array(id, elems, k, calls) is Ok,
    ensures
        ({
            let c = crate::embed::parse_array(id, elems, k, calls)->Ok_0;
            &&& calls.len() <= c.len()
            &&& forall|j: int| 0 <= j < calls.len() ==> #[trigger] c[j] == calls[j]
            &&& forall|j: int| calls.len() <= j < c.len() ==> is_parse_call(#[trigger] c[j])
        }),
    decreases elems.len() - k,
{
    if 0 <= k < elems.len() {
        let m = crate::embed::parse_word(elems[k]@)->Some_0;
        lemma_parse_array_words(id, elems, k + 1, calls.push(Emit::Mention(m)));
        let c = crate::embed::parse_array(id, elems, k, calls)->Ok_0;
        assert forall|j: int| calls.len() <= j < c.len() implies is_parse_call(#[trigger] c[j]) by {
            if j == calls.len() {
                assert(calls.push(Emit::Mention(m))[j] == Emit::Mention(m));
            }
        }
        assert forall|j: int| 0 <= j < calls.len() implies #[trigger] c[j] == calls[j] by {
            assert(calls.push(Emit::Mention(m))[j] == calls[j]);
        }
    }
}

/// The calls of a `parse` attribute extend `calls` with parse words only.
proof fn lemma_parse_attr_words(id: usize, value: crate::tree::AttrValue, calls: Seq<Emit>)
    requires
        crate::embed::parse_attr(id, value, calls) is Ok,
    ensures
        ({
            let c = crate::embed::parse_attr(id, value, calls)->Ok_0;
            &&& calls.len() <= c.len()
            &&& forall|j: int| 0 <= j < calls.len() ==> #[trigger] c[j] == calls[j]
            &&& forall|j: int| calls.len() <= j < c.len() ==> is_parse_call(#[trigger] c[j])
        }),
{
    if crate::text::has_substring(value.text@, "["@) {
        lemma_parse_array_words(id, value.array->Some_0@, 0, calls);
    } else {
        let c = crate::embed::parse_attr(id, value, calls)->Ok_0;
        assert forall|j: int| calls.len() <= j < c.len() implies is_parse_call(#[trigger] c[j]) by {}
    }
}

/// The call that attribute `it` adds when it is a `users`, `roles` or
/// `replied_user` attribute.
pub open spec fn id_call(it: ViewItem) -> Option<Emit> {
    if it is Attr && it->Attr_key@ == "users"@ {
        Some(Emit::Mention(Mention::Users(it->Attr_id)))
    } else if it is Attr && it->Attr_key@ == "roles"@ {
        Some(Emit::Mention(Mention::Roles(it->Attr_id)))
    } else if it is Attr && it->Attr_key@ == "replied_user"@ {
        Some(Emit::Mention(Mention::RepliedUser(it->Attr_id)))
    } else {
        None
    }
}

/// The call is one that names ids: users, roles or the replied user.
pub open spec fn is_id_call(e: Emit) -> bool {
    e is Mention && !is_parse_call(e)
}

/// Scanning an allowed-mentions body from `i` keeps the calls so far, adds
/// the call of every `users`, `roles` and `replied_user` attribute from `i`
/// on, and adds no id call that no such attribute gives.
proof fn lemma_mentions_scan_calls(items: Seq<ViewItem>, i: int, calls: Seq<Emit>)
    requires
        0 <= i <= items.len(),
        crate::embed::mentions_scan(items, i, calls) is Ok,
    ensures
        ({
            let c = crate::embed::mentions_scan(items, i, calls)->Ok_0;
            &&& calls.len() <= c.len()
            &&& forall|j: int| 0 <= j < calls.len() ==> #[trigger] c[j] == calls[j]
            &&& forall|k: int| i <= k < items.len() && #[trigger] id_call(items[k]) is Some ==> c.contains(
                id_call(items[k])->Some_0,
            )
            &&& forall|j: int| calls.len() <= j < c.len() && is_id_call(#[trigger] c[j]) ==> exists|k: int|
                i <= k < items.len() && #[trigger] id_call(items[k]) == Some(c[j])
        }),
    decreases items.len() - i,
{
    reveal_strlit("parse");
    reveal_strlit("users");
    reveal_strlit("roles");
    reveal_strlit("replied_user");
    assert("parse"@[0] == 'p' && "users"@[0] == 'u' && "roles"@[0] == 'r');
    if i < items.len() {
        let it = items[i];
        let id = it->Attr_id;
        let key = it->Attr_key@;
        let next = if key == "parse"@ {
            crate::embed::parse_attr(id, it->Attr_value, calls)->Ok_0
        } else {
            calls.push(id_call(it)->Some_0)
        };
        if key == "parse"@ {
            lemma_parse_attr_words(id, it->Attr_value, calls);
            assert(id_call(it) is None);
        } else {
            assert(id_call(it) is Some);
            assert(next[calls.len() as int] == id_call(it)->Some_0);
        }
        assert(crate::embed::mentions_scan(items, i, calls) == crate::embed::mentions_scan(items, i + 1, next));
        lemma_mentions_scan_calls(items, i + 1, next);
        let c = crate::embed::mentions_scan(items, i, calls)->Ok_0;
        assert forall|j: int| 0 <= j < calls.len() implies #[trigger] c[j] == calls[j] by {
            assert(c[j] == next[j]);
        }
        assert forall|k: int| i <= k < items.len() && #[trigger] id_call(items[k]) is Some implies c.contains(
            id_call(items[k])->Some_0,
        ) by {
            if k == i {
                assert(c[calls.len() as int] == next[calls.len() as int]);
            }
        }
        assert forall|j: int| calls.len() <= j < c.len() && is_id_call(#[trigger] c[j]) implies exists|k: int|
            i <= k < items.len() && #[trigger] id_call(items[k]) == Some(c[j]) by {
            if j < next.len() {
                assert(c[j] == next[j]);
                assert(id_call(items[i]) == Some(c[j]));
            }
        }
    }
}

/// Every attribute of `allowed_mentions` plans the call of its own name:
/// each `users: e`, `roles: e` and `replied_user: e` attribute adds the
/// users, roles or replied-user call of that attribute, and every such call
/// in the plan comes from an attribute so named with that id.
pub proof fn law_mention_attributes_plan_their_calls(items: Seq<ViewItem>)
    requires
        crate::embed::spec_allowed_mentions(items) is Ok,
    ensures
        ({
            let p = crate::embed::spec_allowed_mentions(items)->Ok_0;
            &&& forall|k: int, x: usize|
                0 <= k < items.len() && #[trigger] attr_named(items[k], "users"@, x) ==> p.contains(
                    Emit::Mention(Mention::Users(x)),
                )
            &&& forall|k: int, x: usize|
                0 <= k < items.len() && #[trigger] attr_named(items[k], "roles"@, x) ==> p.contains(
                    Emit::Mention(Mention::Roles(x)),
                )
            &&& forall|k: int, x: usize|
                0 <= k < items.len() && #[trigger] attr_named(items[k], "replied_user"@, x) ==> p.contains(
                    Emit::Mention(Mention::RepliedUser(x)),
                )
            &&& forall|x: usize| #[trigger] p.contains(Emit::Mention(Mention::Users(x))) ==> exists|k: int|
                0 <= k < items.len() && #[trigger] attr_named(items[k], "users"@, x)
            &&& forall|x: usize| #[trigger] p.contains(Emit::Mention(Mention::Roles(x))) ==> exists|k: int|
                0 <= k < items.len() && #[trigger] attr_named(items[k], "roles"@, x)
            &&& forall|x: usize| #[trigger] p.contains(Emit::Mention(Mention::RepliedUser(x))) ==> exists|
                k: int,
            | 0 <= k < items.len() && #[trigger] attr_named(items[k], "replied_user"@, x)
        }),
{
    reveal(crate::embed::spec_allowed_mentions);
    reveal_strlit("users");
    reveal_strlit("roles");
    reveal_strlit("replied_user");
    assert("users"@[0] == 'u' && "roles"@[0] == 'r');
    lemma_mentions_scan_calls(items, 0, Seq::empty());
    let c = crate::embed::mentions_scan(items, 0, Seq::empty())->Ok_0;
    let p = crate::embed::spec_allowed_mentions(items)->Ok_0;
    let head = seq![Emit::AllowedMentions { calls: c.len() as usize }];
    assert(p == head + c);
    assert forall|e: Emit| c.contains(e) implies p.contains(e) by {
        let j = choose|j: int| 0 <= j < c.len() && c[j] == e;
        assert(p[j + 1] == e);
    }
    assert forall|e: Emit| e is Mention && p.contains(e) implies c.contains(e) by {
        let j = choose|j: int| 0 <= j < p.len() && p[j] == e;
        assert(j != 0);
        assert(c[j - 1] == e);
    }
    assert forall|k: int, x: usize|
        0 <= k < items.len() && #[trigger] attr_named(items[k], "users"@, x) implies p.contains(
        Emit::Mention(Mention::Users(x)),
    ) by {
        assert(id_call(items[k]) == Some(Emit::Mention(Mention::Users(x))));
    }
    assert forall|k: int, x: usize|
        0 <= k < items.len() && #[trigger] attr_named(items[k], "roles"@, x) implies p.contains(
        Emit::Mention(Mention::Roles(x)),
    ) by {
        assert(id_call(items[k]) == Some(Emit::Mention(Mention::Roles(x))));
    }
    assert forall|k: int, x: usize|
        0 <= k < items.len() && #[trigger] attr_named(items[k], "replied_user"@, x) implies p.contains(
        Emit::Mention(Mention::RepliedUser(x)),
    ) by {
        assert(id_call(items[k]) == Some(Emit::Mention(Mention::RepliedUser(x))));
    }
    assert forall|x: usize| #[trigger] p.contains(Emit::Mention(Mention::Users(x))) implies exists|k: int|
        0 <= k < items.len() && #[trigger] attr_named(items[k], "users"@, x) by {
        let e = Emit::Mention(Mention::Users(x));
        let j = choose|j: int| 0 <= j < c.len() && c[j] == e;
        assert(is_id_call(c[j]));
        let k = choose|k: int| 0 <= k < items.len() && #[trigger] id_call(items[k]) == Some(c[j]);
        assert(attr_named(items[k], "users"@, x));
    }
    assert forall|x: usize| #[trigger] p.contains(Emit::Mention(Mention::Roles(x))) implies exists|k: int|
        0 <= k < items.len() && #[trigger] attr_named(items[k], "roles"@, x) by {
        let e = Emit::Mention(Mention::Roles(x));
        let j = choose|j: int| 0 <= j < c.len() && c[j] == e;
        assert(is_id_call(c[j]));
        let k = choose|k: int| 0 <= k < items.len() && #[trigger] id_call(items[k]) == Some(c[j]);
        assert(attr_named(items[k], "roles"@, x));
    }
    assert forall|x: usize| #[trigger] p.contains(Emit::Mention(Mention::RepliedUser(x))) implies exists|
        k: int,
    | 0 <= k < items.len() && #[trigger] attr_named(items[k], "replied_user"@, x) by {
        let e = Emit::Mention(Mention::RepliedUser(x));
        let j = choose|j: int| 0 <= j < c.len() && c[j] == e;
        assert(is_id_call(c[j]));
        let k = choose|k: int| 0 <= k < items.len() && #[trigger] id_call(items[k]) == Some(c[j]);
        assert(attr_named(items[k], "replied_user"@, x));
    }
}

} // verus!
