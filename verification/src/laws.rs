//! Properties of the library as a whole, proved over the specifications
//! that the functions' contracts use.

use vstd::prelude::*;
use crate::tree::{ViewItem, spec_any_splice};
use crate::view_error::{ErrorModel, Site, em};
use crate::leaf::spec_button;
use crate::action_row::{RowScan, row_scan, row_start, spec_action_row};
use crate::plan::Emit;
use crate::suggest::{is_best_suggestion, is_close, suggestion, edit_distance_spec,
    lemma_best_suggestion_unique};
use crate::view_support::{ChildRuleError, action_row_rule};

verus! {

/// Every item is a `button` element whose body plans.
pub open spec fn all_valid_buttons(items: Seq<ViewItem>) -> bool {
    forall|k: int|
        0 <= k < items.len() ==> (#[trigger] items[k] matches ViewItem::Element { name, body, .. }
            && name@ == "button"@ && spec_button(body.items@) is Ok)
}

proof fn lemma_button_row_scan(items: Seq<ViewItem>, i: int, st: RowScan)
    requires
        all_valid_buttons(items),
        0 <= i <= items.len(),
        i <= 5,
        st.n == i,
        !st.has_select,
    ensures
        row_scan(items, false, i, st) is Ok <==> items.len() <= 5,
        row_scan(items, false, i, st) matches Ok(s2) ==> s2.n == items.len() && !s2.has_select,
        row_scan(items, false, i, st) matches Err(e) ==> e.message
            == "action_row cannot contain more than 5 buttons"@,
    decreases items.len() - i,
{
    if i < items.len() {
        assert(items[i] matches ViewItem::Element { name, body, .. } && name@ == "button"@);
        if i < 5 {
            let b = spec_button(items[i]->Element_body.items@)->Ok_0;
            lemma_button_row_scan(
                items,
                i + 1,
                RowScan { steps: st.steps.push(b), n: st.n + 1, ..st },
            );
        }
    }
}

/// An action row of literal buttons (no splice) plans exactly when the
/// runtime check accepts the same number of buttons, and a refusal names
/// the same law.
pub proof fn law_literal_action_row_matches_runtime_check(items: Seq<ViewItem>)
    requires
        all_valid_buttons(items),
        !spec_any_splice(items),
    ensures
        spec_action_row(items) is Ok <==> action_row_rule(items.len()) is Ok,
        spec_action_row(items) matches Err(e) ==> e.message == action_row_rule(
            items.len(),
        )->Err_0.law_text(),
{
    reveal(spec_action_row);
    lemma_button_row_scan(items, 0, row_start());
}

} // verus!

verus! {

/// Both items are attributes whose keys fill the same slot of `schema`.
pub open spec fn same_slot_attrs(schema: crate::registry::Schema, a: ViewItem, b: ViewItem) -> bool {
    &&& a matches ViewItem::Attr { key: ka, .. }
    &&& b matches ViewItem::Attr { key: kb, .. }
    &&& crate::attrs::slot_of(schema, a->Attr_key@) == crate::attrs::slot_of(schema, b->Attr_key@)
}

/// The item is an attribute whose slot is still empty in `slots`.
pub open spec fn fresh_attr(schema: crate::registry::Schema, it: ViewItem, slots: Seq<Option<usize>>) -> bool {
    it is Attr && match crate::attrs::slot_of(schema, it->Attr_key@) {
        Some(s) => slots[s as int] is None,
        None => false,
    }
}

proof fn lemma_leaf_scan_unique(
    schema: crate::registry::Schema,
    items: Seq<ViewItem>,
    i: int,
    slots: Seq<Option<usize>>,
)
    requires
        0 <= i <= items.len(),
        slots.len() == crate::registry::slot_count(schema),
        crate::attrs::leaf_scan(schema, items, i, slots) is Ok,
    ensures
        forall|j: int|
            #![trigger items[j]]
            i <= j < items.len() ==> fresh_attr(schema, items[j], slots),
        forall|j: int, k: int|
            i <= j < k < items.len() ==> !same_slot_attrs(schema, #[trigger] items[j], #[trigger] items[k]),
    decreases items.len() - i,
{
    if i < items.len() {
        let key = items[i]->Attr_key;
        crate::attrs::lemma_slot_of_in_range(schema, key@);
        let s = crate::attrs::slot_of(schema, key@)->Some_0;
        let s2 = slots.update(s as int, Some(items[i]->Attr_id));
        lemma_leaf_scan_unique(schema, items, i + 1, s2);
        assert forall|j: int| #![trigger items[j]] i <= j < items.len() implies fresh_attr(
            schema,
            items[j],
            slots,
        ) by {
            if j > i {
                let t = crate::attrs::slot_of(schema, items[j]->Attr_key@)->Some_0;
                crate::attrs::lemma_slot_of_in_range(schema, items[j]->Attr_key@);
                assert(s2[t as int] is None);
            }
        }
        assert forall|j: int, k: int| i <= j < k < items.len() implies !same_slot_attrs(
            schema,
            #[trigger] items[j],
            #[trigger] items[k],
        ) by {
            if j == i {
                let t = crate::attrs::slot_of(schema, items[k]->Attr_key@)->Some_0;
                crate::attrs::lemma_slot_of_in_range(schema, items[k]->Attr_key@);
                assert(s2[t as int] is None);
            }
        }
    }
}

/// A leaf element that plans holds attributes only, every one of them
/// known to the registry, and each attribute (or any of its aliases) at
/// most once.
pub proof fn law_attributes_at_most_once(schema: crate::registry::Schema, items: Seq<ViewItem>)
    requires
        crate::leaf::scanned(schema, items) is Ok,
    ensures
        forall|j: int|
            0 <= j < items.len() ==> #[trigger] items[j] is Attr && crate::attrs::slot_of(
                schema,
                items[j]->Attr_key@,
            ) is Some,
        forall|j: int, k: int|
            0 <= j < k < items.len() ==> !same_slot_attrs(schema, #[trigger] items[j], #[trigger] items[k]),
{
    lemma_leaf_scan_unique(schema, items, 0, crate::attrs::no_slots(crate::registry::slot_count(schema)));
}

/// A planned button obeys the button laws over its attribute slots
/// (style, label, custom_id, url, sku_id, emoji, disabled): a link button
/// has no `custom_id` or `sku_id`, a premium button has no `custom_id`,
/// `label`, `url` or `emoji`, it has one of `custom_id`, `url`, `sku_id`, and
/// it is built as a link exactly when it has a `url`.
pub proof fn law_button_laws(items: Seq<ViewItem>)
    requires
        spec_button(items) is Ok,
    ensures
        ({
            let s = crate::leaf::scanned(crate::registry::Schema::Button, items)->Ok_0;
            &&& s[3] is Some ==> s[2] is None && s[4] is None
            &&& s[4] is Some ==> s[2] is None && s[1] is None && s[3] is None && s[5] is None
            &&& s[2] is Some || s[3] is Some || s[4] is Some
            &&& spec_button(items)->Ok_0 matches Emit::Button { ctor, .. } && (ctor is Link
                <==> s[3] is Some)
        }),
{
    reveal(spec_button);
}

} // verus!

verus! {

// --- families and the return type ---

/// A planned `view!` keeps the families apart: with a `components_v2`
/// element, that element is the whole view and the plan is a v2 message;
/// without one, the plan is a legacy message.
pub proof fn law_view_families_apart(items: Seq<ViewItem>)
    requires
        crate::root::spec_view(items) is Ok,
    ensures
        crate::root::has_v2_root(items) ==> items.len() == 1 && crate::root::spec_view(
            items,
        )->Ok_0.0[0] is V2Message,
        !crate::root::has_v2_root(items) ==> crate::root::spec_view(items)->Ok_0.0[0] is Message,
{
    reveal(crate::v2::spec_v2_root);
    reveal(crate::root::spec_legacy_root);
}

/// A `view!` expansion returns `Result` exactly when the view holds a
/// splice, at any depth.
pub proof fn law_view_result_iff_splice(items: Seq<ViewItem>)
    requires
        crate::root::spec_view(items) is Ok,
    ensures
        crate::root::spec_view(items)->Ok_0.1 == spec_any_splice(items),
{
    if crate::root::has_v2_root(items) {
        let it = items[0];
        assert(crate::root::first_foreign(items, 0) is None);
        assert(crate::root::is_v2_root_item(items[0]));
        if spec_any_splice(it->Element_body.items@) {
            assert(spec_any_splice(items)) by {
                assert(match items[0] {
                    ViewItem::Splice { .. } => true,
                    ViewItem::Element { body, .. } => spec_any_splice(body.items@),
                    _ => false,
                });
            }
        }
    }
}

proof fn lemma_component_scan_single(items: Seq<ViewItem>, i: int, found: Option<int>)
    requires
        0 <= i <= items.len(),
    ensures
        found is None ==> (crate::root::component_scan(items, i, found) matches Ok(Some(k)) ==> k
            == i && items.len() == i + 1),
        found is Some ==> (crate::root::component_scan(items, i, found) is Ok ==> items.len() == i),
    decreases items.len() - i,
{
    if i < items.len() {
        match items[i] {
            ViewItem::Element { .. } => {
                if found is None {
                    lemma_component_scan_single(items, i + 1, Some(i));
                }
            },
            _ => {},
        }
    }
}

/// A `component!` expansion returns `Result` exactly when its element holds
/// a splice, at any depth.
pub proof fn law_component_result_iff_splice(items: Seq<ViewItem>)
    requires
        crate::root::spec_component(items) is Ok,
    ensures
        crate::root::spec_component(items)->Ok_0.1 == spec_any_splice(items),
        items.len() == 1,
{
    lemma_component_scan_single(items, 0, None);
    let it = items[0];
    if spec_any_splice(it->Element_body.items@) {
        assert(spec_any_splice(items)) by {
            assert(match items[0] {
                ViewItem::Splice { .. } => true,
                ViewItem::Element { body, .. } => spec_any_splice(body.items@),
                _ => false,
            });
        }
    }
}

} // verus!

verus! {

// --- compile-time child rules agree with the runtime checks ---

/// Every item is a media-gallery item element whose body plans.
pub open spec fn all_valid_gallery_items(items: Seq<ViewItem>) -> bool {
    forall|k: int|
        0 <= k < items.len() ==> (#[trigger] items[k] matches ViewItem::Element { name, body, .. }
            && (name@ == "media_gallery_item"@ || name@ == "item"@) && crate::leaf::spec_gallery_item(
            body.items@,
        ) is Ok)
}

proof fn lemma_gallery_scan(items: Seq<ViewItem>, i: int, st: crate::v2::ListScan)
    requires
        all_valid_gallery_items(items),
        0 <= i <= items.len(),
        st.n == i,
        !st.spliced,
    ensures
        crate::v2::gallery_scan(items, i, st) matches Ok(s2) && s2.n == items.len() && !s2.spliced,
    decreases items.len() - i,
{
    if i < items.len() {
        assert(items[i] matches ViewItem::Element { name, body, .. } && (name@
            == "media_gallery_item"@ || name@ == "item"@));
        let g = crate::leaf::spec_gallery_item(items[i]->Element_body.items@)->Ok_0;
        lemma_gallery_scan(items, i + 1, crate::v2::list_push(st, seq![g]));
    }
}

/// A media gallery of literal items plans exactly when the runtime check
/// accepts the same number of items, and a refusal names the same law.
pub proof fn law_literal_media_gallery_matches_runtime_check(items: Seq<ViewItem>)
    requires
        all_valid_gallery_items(items),
    ensures
        crate::v2::spec_media_gallery(items) is Ok
            <==> crate::view_support::media_gallery_rule(items.len()) is Ok,
        crate::v2::spec_media_gallery(items) matches Err(e) ==> e.message
            == crate::view_support::media_gallery_rule(items.len())->Err_0.law_text(),
{
    reveal(crate::v2::spec_media_gallery);
    lemma_gallery_scan(items, 0, crate::v2::list_start());
}

/// The first `n` items are text-display elements whose bodies plan, and the
/// rest is nothing, or (when `has_accessory`) one thumbnail or button
/// element whose body plans.
pub open spec fn literal_section(items: Seq<ViewItem>, n: nat, has_accessory: bool) -> bool {
    &&& items.len() == n + if has_accessory { 1nat } else { 0nat }
    &&& forall|k: int|
        0 <= k < n ==> (#[trigger] items[k] matches ViewItem::Element { name, body, .. } && name@
            == "text_display"@ && crate::v2::spec_text_display(body.items@) is Ok)
    &&& has_accessory ==> (items[n as int] matches ViewItem::Element { name, body, .. } && ((name@
        == "thumbnail"@ && crate::leaf::spec_thumbnail(body.items@) is Ok) || (name@ == "button"@
        && spec_button(body.items@) is Ok)))
}

proof fn lemma_section_scan(
    items: Seq<ViewItem>,
    n: nat,
    has_accessory: bool,
    i: int,
    st: crate::v2::SectionScan,
)
    requires
        literal_section(items, n, has_accessory),
        0 <= i <= n,
        i <= 3,
        st.list.n == i,
        st.accessory is None,
    ensures
        n > 3 ==> (crate::v2::section_scan(items, false, i, st) matches Err(e) && e.message
            == "section cannot contain more than 3 text_display components"@),
        n <= 3 ==> (crate::v2::section_scan(items, false, i, st) matches Ok(s2) && s2.list.n == n
            && (s2.accessory is Some <==> has_accessory)),
    decreases items.len() - i,
{
    if i < n {
        assert(items[i] matches ViewItem::Element { name, body, .. } && name@ == "text_display"@);
        if i < 3 {
            let t = crate::v2::spec_text_display(items[i]->Element_body.items@)->Ok_0;
            lemma_section_scan(
                items,
                n,
                has_accessory,
                i + 1,
                crate::v2::SectionScan { list: crate::v2::list_push(st.list, seq![t]), ..st },
            );
        }
    } else if has_accessory {
        let it = items[i];
        assert(it matches ViewItem::Element { name, .. } && (name@ == "thumbnail"@ || name@
            == "button"@));
        reveal_strlit("thumbnail");
        reveal_strlit("button");
        reveal_strlit("text_display");
        assert(it->Element_name@ != "text_display"@);
        let a = if it->Element_name@ == "thumbnail"@ {
            crate::leaf::spec_thumbnail(it->Element_body.items@)->Ok_0
        } else {
            spec_button(it->Element_body.items@)->Ok_0
        };
        assert(crate::v2::section_scan(
            items,
            false,
            i + 1,
            crate::v2::SectionScan { accessory: Some(a), ..st },
        ) is Ok);
    }
}

/// A section of literal text displays, with or without its accessory,
/// plans exactly when the runtime check accepts the same children, and a
/// refusal names the same law.
pub proof fn law_literal_section_matches_runtime_check(items: Seq<ViewItem>, n: nat, has_accessory: bool)
    requires
        literal_section(items, n, has_accessory),
        !spec_any_splice(items),
    ensures
        crate::v2::spec_section(items) is Ok <==> crate::view_support::section_rule(
            n,
            has_accessory,
        ) is Ok,
        crate::v2::spec_section(items) matches Err(e) ==> e.message
            == crate::view_support::section_rule(n, has_accessory)->Err_0.law_text(),
{
    reveal(crate::v2::spec_section);
    reveal_strlit("thumbnail");
    reveal_strlit("button");
    reveal_strlit("text_display");
    lemma_section_scan(
        items,
        n,
        has_accessory,
        0,
        crate::v2::SectionScan { list: crate::v2::list_start(), accessory: None },
    );
}

} // verus!

verus! {

/// Every item is an option element whose body plans.
pub open spec fn all_valid_options(items: Seq<ViewItem>) -> bool {
    forall|k: int|
        0 <= k < items.len() ==> (#[trigger] items[k] matches ViewItem::Element { name, body, .. }
            && crate::select::is_option_name(name@) && crate::leaf::spec_select_option(body.items@) is Ok)
}

proof fn lemma_option_scan(
    items: Seq<ViewItem>,
    i: int,
    slots: Seq<Option<usize>>,
    opts: Seq<Emit>,
    n: nat,
)
    requires
        all_valid_options(items),
        0 <= i <= items.len(),
        i <= 25,
        n == i,
    ensures
        crate::select::select_scan(crate::select::SelectElement::StringSelect, items, i, slots, opts, n)
            is Ok <==> items.len() <= 25,
        crate::select::select_scan(
            crate::select::SelectElement::StringSelect,
            items,
            i,
            slots,
            opts,
            n,
        ) matches Err(e) ==> e.message == "select menu cannot have more than 25 options"@,
    decreases items.len() - i,
{
    if i < items.len() {
        assert(items[i] matches ViewItem::Element { name, .. } && crate::select::is_option_name(
            name@,
        ));
        if i < 25 {
            let o = crate::leaf::spec_select_option(items[i]->Element_body.items@)->Ok_0;
            lemma_option_scan(items, i + 1, slots, opts.push(o), n + 1);
        }
    }
}

/// The literal options of a string select are accepted exactly when the
/// runtime check accepts the same number of options, and a refusal names
/// the same law.
pub proof fn law_literal_select_options_match_runtime_check(items: Seq<ViewItem>)
    requires
        all_valid_options(items),
    ensures
        crate::select::select_scan(
            crate::select::SelectElement::StringSelect,
            items,
            0,
            crate::attrs::no_slots(crate::registry::slot_count(crate::registry::Schema::SelectMenu)),
            Seq::empty(),
            0,
        ) is Ok <==> crate::view_support::select_menu_rule(items.len()) is Ok,
        crate::select::select_scan(
            crate::select::SelectElement::StringSelect,
            items,
            0,
            crate::attrs::no_slots(crate::registry::slot_count(crate::registry::Schema::SelectMenu)),
            Seq::empty(),
            0,
        ) matches Err(e) ==> e.message == crate::view_support::select_menu_rule(
            items.len(),
        )->Err_0.law_text(),
{
    lemma_option_scan(
        items,
        0,
        crate::attrs::no_slots(crate::registry::slot_count(crate::registry::Schema::SelectMenu)),
        Seq::empty(),
        0,
    );
}

proof fn lemma_v2_scan_spliced(
    items: Seq<ViewItem>,
    i: int,
    slots: Seq<Option<usize>>,
    list: crate::v2::ListScan,
)
    requires
        0 <= i <= items.len(),
    ensures
        crate::v2::v2_scan(items, i, slots, list) matches Ok((s, l)) ==> l.n >= list.n && l.n
            <= list.n + items.len() - i && (l.spliced
            ==> list.spliced || exists|j: int| i <= j < items.len() && #[trigger] items[j] is Splice),
    decreases items.len() - i,
{
    if i < items.len() {
        match items[i] {
            ViewItem::Attr { id, key, .. } => {
                if !crate::v2::is_legacy_only_attr(key@) {
                    match crate::attrs::attr_step(crate::registry::Schema::V2Root, slots, id, key@) {
                        Ok(s2) => lemma_v2_scan_spliced(items, i + 1, s2, list),
                        Err(_) => {},
                    }
                }
            },
            ViewItem::Element { name, body, .. } => {
                match crate::v2::v2_kind_of(name@) {
                    Some(k) => match crate::v2::spec_v2_child(k, body.items@) {
                        Ok(c) => lemma_v2_scan_spliced(items, i + 1, slots, crate::v2::list_push(list, c)),
                        Err(_) => {},
                    },
                    None => {},
                }
            },
            ViewItem::Splice { id } => {
                lemma_v2_scan_spliced(items, i + 1, slots, crate::v2::list_splice(list, id));
            },
            ViewItem::Bare { .. } => {},
        }
    }
}

/// A planned `components_v2` root without splices holds at least one child.
pub proof fn law_v2_root_has_a_component(items: Seq<ViewItem>)
    requires
        crate::v2::spec_v2_root(items) is Ok,
        !spec_any_splice(items),
        items.len() <= usize::MAX,
    ensures
        crate::v2::spec_v2_root(items)->Ok_0[1] matches Emit::List { len, .. } && len >= 1,
{
    reveal(crate::v2::spec_v2_root);
    lemma_v2_scan_spliced(
        items,
        0,
        crate::attrs::no_slots(crate::registry::slot_count(crate::registry::Schema::V2Root)),
        crate::v2::list_start(),
    );
    let r = crate::v2::v2_scan(
        items,
        0,
        crate::attrs::no_slots(crate::registry::slot_count(crate::registry::Schema::V2Root)),
        crate::v2::list_start(),
    );
    let l = r->Ok_0.1;
    if l.spliced {
        let j = choose|j: int| 0 <= j < items.len() && #[trigger] items[j] is Splice;
        assert(match items[j] {
            ViewItem::Splice { .. } => true,
            ViewItem::Element { body, .. } => spec_any_splice(body.items@),
            _ => false,
        });
    }
}

} // verus!

verus! {

// --- edit distance and suggestions ---

proof fn lemma_lev_self(a: Seq<char>, i: nat)
    requires
        i <= a.len(),
    ensures
        crate::suggest::lev(a, a, i, i) == 0,
    decreases i,
{
    if i > 0 {
        lemma_lev_self(a, (i - 1) as nat);
    }
}

proof fn lemma_lev_zero(a: Seq<char>, b: Seq<char>, i: nat, j: nat)
    requires
        i <= a.len(),
        j <= b.len(),
        crate::suggest::lev(a, b, i, j) == 0,
    ensures
        i == j,
        a.take(i as int) == b.take(j as int),
    decreases i + j,
{
    if i > 0 && j > 0 {
        lemma_lev_zero(a, b, (i - 1) as nat, (j - 1) as nat);
        assert(a.take(i as int) =~= a.take(i - 1).push(a[i - 1]));
        assert(b.take(j as int) =~= b.take(j - 1).push(b[j - 1]));
    } else {
        assert(a.take(0) =~= b.take(0));
    }
}

/// The edit distance is zero exactly between equal strings.
pub proof fn law_edit_distance_zero_iff_equal(a: Seq<char>, b: Seq<char>)
    ensures
        crate::suggest::edit_distance_spec(a, b) == 0 <==> a == b,
{
    if a == b {
        lemma_lev_self(a, a.len());
    }
    if crate::suggest::edit_distance_spec(a, b) == 0 {
        lemma_lev_zero(a, b, a.len(), b.len());
        assert(a =~= a.take(a.len() as int));
        assert(b =~= b.take(b.len() as int));
    }
}

/// The best close candidate among the first `m`.
pub open spec fn best_upto(input: Seq<char>, cands: Seq<&str>, m: int) -> Option<int>
    decreases m,
{
    if m <= 0 {
        None
    } else {
        let b = best_upto(input, cands, m - 1);
        if crate::suggest::is_close(input, cands[m - 1]) {
            match b {
                None => Some(m - 1),
                Some(k) => if crate::suggest::edit_distance_spec(input, cands[m - 1]@)
                    < crate::suggest::edit_distance_spec(input, cands[k]@) {
                    Some(m - 1)
                } else {
                    Some(k)
                },
            }
        } else {
            b
        }
    }
}

proof fn lemma_best_upto(input: Seq<char>, cands: Seq<&str>, m: int)
    requires
        0 <= m <= cands.len(),
    ensures
        best_upto(input, cands, m) is None <==> forall|l: int|
            0 <= l < m ==> !crate::suggest::is_close(input, #[trigger] cands[l]),
        best_upto(input, cands, m) matches Some(k) ==> {
            &&& 0 <= k < m
            &&& crate::suggest::is_close(input, cands[k])
            &&& forall|l: int|
                0 <= l < m && crate::suggest::is_close(input, #[trigger] cands[l])
                    ==> crate::suggest::edit_distance_spec(input, cands[k]@)
                    <= crate::suggest::edit_distance_spec(input, cands[l]@)
            &&& forall|l: int|
                0 <= l < k && crate::suggest::is_close(input, #[trigger] cands[l])
                    ==> crate::suggest::edit_distance_spec(input, cands[k]@)
                    < crate::suggest::edit_distance_spec(input, cands[l]@)
        },
    decreases m,
{
    if m > 0 {
        lemma_best_upto(input, cands, m - 1);
    }
}

/// Misspelling nothing gets the name itself back: when `input` is one of
/// the candidates, the suggestion is a candidate spelled exactly like it.
pub proof fn law_exact_match_is_suggested(input: Seq<char>, cands: Seq<&str>, k: int)
    requires
        0 <= k < cands.len(),
        cands[k]@ == input,
    ensures
        crate::suggest::suggestion(input, cands) matches Some(c) && c@ == input,
{
    law_edit_distance_zero_iff_equal(input, cands[k]@);
    assert(crate::suggest::is_close(input, cands[k]));
    lemma_best_upto(input, cands, cands.len() as int);
    let b = best_upto(input, cands, cands.len() as int)->Some_0;
    assert(crate::suggest::is_best_suggestion(input, cands, b));
    let c = choose|j: int| crate::suggest::is_best_suggestion(input, cands, j);
    crate::suggest::lemma_best_suggestion_unique(input, cands, c, b);
    law_edit_distance_zero_iff_equal(input, cands[b]@);
}

/// Scanning a select menu from position `i` fails when a splice stands at
/// a position `k` from `i` on.
proof fn lemma_select_scan_meets_splice(
    elem: crate::select::SelectElement,
    items: Seq<ViewItem>,
    i: int,
    slots: Seq<Option<usize>>,
    opts: Seq<Emit>,
    n: nat,
    k: int,
)
    requires
        0 <= i <= k < items.len(),
        items[k] is Splice,
    ensures
        crate::select::select_scan(elem, items, i, slots, opts, n) is Err,
    decreases k - i,
{
    if i < k {
        match items[i] {
            ViewItem::Attr { id, key, .. } => {
                match crate::attrs::attr_step(crate::registry::Schema::SelectMenu, slots, id, key@) {
                    Ok(s2) => lemma_select_scan_meets_splice(elem, items, i + 1, s2, opts, n, k),
                    Err(_) => {},
                }
            },
            ViewItem::Element { body, .. } => {
                match crate::leaf::spec_select_option(body.items@) {
                    Ok(o) => lemma_select_scan_meets_splice(elem, items, i + 1, slots, opts.push(o), n + 1, k),
                    Err(_) => {},
                }
            },
            _ => {},
        }
    }
}

/// The options arm of a select menu stays literal: a select menu whose body
/// holds a `{ ... }` splice never plans.
pub proof fn law_select_menu_refuses_splices(
    elem: crate::select::SelectElement,
    items: Seq<ViewItem>,
    k: int,
)
    requires
        0 <= k < items.len(),
        items[k] is Splice,
    ensures
        crate::select::spec_select_menu(elem, items) is Err,
{
    reveal(crate::select::spec_select_menu);
    lemma_select_scan_meets_splice(
        elem,
        items,
        0,
        crate::attrs::no_slots(crate::registry::slot_count(crate::registry::Schema::SelectMenu)),
        Seq::empty(),
        0,
        k,
    );
}

/// The legacy message with no attribute, embed, mention or poll.
pub open spec fn bare_message() -> Emit {
    Emit::Message {
        content: None,
        tts: None,
        nonce: None,
        enforce_nonce: None,
        flags: None,
        sticker_ids: None,
        embeds: 0,
        allowed_mentions: false,
        poll: false,
    }
}

/// `component!` plans an element as `view!` plans it as a child: an action
/// row alone plans to exactly the row that a message holding just that row
/// lists, both refuse it with the same error, and both return `Result`
/// alike.
pub proof fn law_component_row_matches_view_row(id: usize, name: String, body: crate::tree::ViewBody)
    requires
        name@ == "action_row"@,
    ensures
        ({
            let items = seq![ViewItem::Element { id, name, body }];
            match (crate::root::spec_component(items), crate::root::spec_view(items)) {
                (Ok((p, f)), Ok((q, g))) => q == seq![
                    bare_message(),
                    Emit::List { len: 1, spliced: false },
                ] + p && f == g,
                (Err(e1), Err(e2)) => e1 == e2,
                _ => false,
            }
        }),
{
    let items = seq![ViewItem::Element { id, name, body }];
    reveal_strlit("action_row");
    reveal_strlit("components_v2");
    reveal_strlit("embed");
    reveal(crate::root::spec_legacy_root);
    reveal(crate::root::spec_component_element);
    assert(!crate::root::has_v2_root(items)) by {
        assert(!crate::root::is_v2_root_item(items[0]));
    }
    assert(crate::root::component_scan(items, 1, Some(0)) == Ok::<Option<int>, ErrorModel>(Some(0)));
    assert(spec_any_splice(items) == spec_any_splice(body.items@)) by {
        if spec_any_splice(body.items@) {
            assert(items[0] == ViewItem::Element { id, name, body });
        }
    }
    let start = crate::root::root_start();
    match spec_action_row(body.items@) {
        Ok(a) => {
            let st1 = crate::root::RootScan { comps: crate::v2::list_push(start.comps, a), ..start };
            assert(crate::root::root_scan(items, 1, st1) == Ok::<crate::root::RootScan, ErrorModel>(st1));
            assert(crate::root::root_scan(items, 0, start) == Ok::<crate::root::RootScan, ErrorModel>(st1));
            assert(st1.slots =~= crate::attrs::no_slots(6));
            assert(st1.comps.steps =~= a);
        },
        Err(e) => {
            assert(crate::root::root_scan(items, 0, start) == Err::<crate::root::RootScan, ErrorModel>(e));
        },
    }
}

/// `component!` plans a components-v2 element as `view!` plans it as the
/// only child of `components_v2`: the element alone plans to exactly the
/// child that the v2 message lists, both refuse it with the same error, and
/// both return `Result` alike.
pub proof fn law_component_matches_v2_child(rid: usize, rname: String, root: crate::tree::ViewBody)
    requires
        rname@ == "components_v2"@,
        root.items@.len() == 1,
        root.items@[0] is Element,
        crate::v2::v2_kind_of(root.items@[0]->Element_name@) is Some,
    ensures
        ({
            let view_items = seq![ViewItem::Element { id: rid, name: rname, body: root }];
            match (crate::root::spec_component(root.items@), crate::root::spec_view(view_items)) {
                (Ok((p, f)), Ok((q, g))) => q == seq![
                    Emit::V2Message { flags: None },
                    Emit::List { len: 1, spliced: false },
                ] + p && f == g,
                (Err(e1), Err(e2)) => e1 == e2,
                _ => false,
            }
        }),
{
    reveal_strlit("action_row");
    reveal_strlit("text_display");
    reveal_strlit("container");
    reveal_strlit("section");
    reveal_strlit("thumbnail");
    reveal_strlit("media_gallery");
    reveal_strlit("file");
    reveal_strlit("separator");
    reveal_strlit("components_v2");
    // The names of equal length differ in their first letter.
    assert("separator"@[0] == 's' && "container"@[0] == 'c' && "thumbnail"@[0] == 't');
    reveal(crate::root::spec_component_element);
    reveal(crate::v2::spec_v2_root);
    let items = root.items@;
    let view_items = seq![ViewItem::Element { id: rid, name: rname, body: root }];
    let el = items[0];
    let id = el->Element_id;
    let name = el->Element_name;
    let body = el->Element_body;
    assert(el == ViewItem::Element { id, name, body });
    let k = crate::v2::v2_kind_of(name@)->Some_0;
    assert(crate::root::is_v2_root_item(view_items[0]));
    assert(crate::root::has_v2_root(view_items));
    assert(crate::root::first_foreign(view_items, 1) is None);
    assert(crate::root::first_foreign(view_items, 0) is None);
    assert(crate::root::component_scan(items, 1, Some(0)) == Ok::<Option<int>, ErrorModel>(Some(0)));
    assert(spec_any_splice(items) == spec_any_splice(body.items@)) by {
        if spec_any_splice(body.items@) {
            assert(items[0] == el);
        }
    }
    assert(crate::root::spec_component_element(name@, id, body.items@) == crate::v2::spec_v2_child(
        k,
        body.items@,
    )) by {
        if name@ == "action_row"@ {
            assert(k == crate::v2::V2Kind::ActionRow);
        } else if name@ == "section"@ {
            assert(k == crate::v2::V2Kind::Section);
        } else if name@ == "text_display"@ {
            assert(k == crate::v2::V2Kind::TextDisplay);
        } else if name@ == "media_gallery"@ {
            assert(k == crate::v2::V2Kind::MediaGallery);
        } else if name@ == "file"@ {
            assert(k == crate::v2::V2Kind::File);
        } else if name@ == "separator"@ {
            assert(k == crate::v2::V2Kind::Separator);
        } else {
            assert(k == crate::v2::V2Kind::Container);
        }
    }
    let slots = crate::attrs::no_slots(crate::registry::slot_count(crate::registry::Schema::V2Root));
    let start = crate::v2::list_start();
    match crate::v2::spec_v2_child(k, body.items@) {
        Ok(c) => {
            let list = crate::v2::list_push(start, c);
            assert(crate::v2::v2_scan(items, 1, slots, list) == Ok::<
                (Seq<Option<usize>>, crate::v2::ListScan),
                ErrorModel,
            >((slots, list)));
            assert(crate::v2::v2_scan(items, 0, slots, start) == Ok::<
                (Seq<Option<usize>>, crate::v2::ListScan),
                ErrorModel,
            >((slots, list)));
            assert(list.steps =~= c);
        },
        Err(e) => {
            assert(crate::v2::v2_scan(items, 0, slots, start) == Err::<
                (Seq<Option<usize>>, crate::v2::ListScan),
                ErrorModel,
            >(e));
        },
    }
}

/// When some candidate is close, one candidate is the best suggestion.
proof fn lemma_best_suggestion_exists(input: Seq<char>, c: Seq<&str>, l: int)
    requires
        0 <= l < c.len(),
        is_close(input, c[l]),
    ensures
        exists|k: int| is_best_suggestion(input, c, k),
    decreases c.len(),
{
    let last = c.len() - 1;
    let p = c.drop_last();
    if exists|m: int| 0 <= m < last && is_close(input, #[trigger] c[m]) {
        let m = choose|m: int| 0 <= m < last && is_close(input, #[trigger] c[m]);
        assert(p[m] == c[m]);
        lemma_best_suggestion_exists(input, p, m);
        let kp = choose|k: int| is_best_suggestion(input, p, k);
        assert(p[kp] == c[kp]);
        let dp = edit_distance_spec(input, c[kp]@);
        if is_close(input, c[last]) && edit_distance_spec(input, c[last]@) < dp {
            assert forall|j: int| 0 <= j < c.len() && is_close(input, #[trigger] c[j]) implies
                edit_distance_spec(input, c[last]@) <= edit_distance_spec(input, c[j]@) by {
                if j < last {
                    assert(p[j] == c[j]);
                }
            }
            assert forall|j: int| 0 <= j < last && is_close(input, #[trigger] c[j]) implies
                edit_distance_spec(input, c[last]@) < edit_distance_spec(input, c[j]@) by {
                assert(p[j] == c[j]);
            }
            assert(is_best_suggestion(input, c, last));
        } else {
            assert forall|j: int| 0 <= j < c.len() && is_close(input, #[trigger] c[j]) implies dp
                <= edit_distance_spec(input, c[j]@) by {
                if j < last {
                    assert(p[j] == c[j]);
                }
            }
            assert forall|j: int| 0 <= j < kp && is_close(input, #[trigger] c[j]) implies dp
                < edit_distance_spec(input, c[j]@) by {
                assert(p[j] == c[j]);
            }
            assert(is_best_suggestion(input, c, kp));
        }
    } else {
        assert(l == last);
        assert(is_best_suggestion(input, c, last));
    }
}

/// Appending candidates keeps the suggestion, or replaces it by an appended
/// close candidate strictly nearer to the input: with `k` the best
/// suggestion among `cs`, the suggestion among `cs + ds` is `cs[k]`, or some
/// close `ds[l]` at a distance below that of `cs[k]`.
pub proof fn law_appended_candidates_keep_or_improve(input: Seq<char>, cs: Seq<&str>, ds: Seq<&str>, k: int)
    requires
        is_best_suggestion(input, cs, k),
    ensures
        suggestion(input, cs) == Some(cs[k]),
        suggestion(input, cs + ds) == Some(cs[k]) || exists|l: int|
            0 <= l < ds.len() && is_close(input, ds[l]) && edit_distance_spec(input, ds[l]@)
                < edit_distance_spec(input, cs[k]@) && suggestion(input, cs + ds) == Some(ds[l]),
{
    let kc = choose|j: int| is_best_suggestion(input, cs, j);
    lemma_best_suggestion_unique(input, cs, k, kc);
    let s = cs + ds;
    let n = cs.len();
    assert(s[k] == cs[k]);
    lemma_best_suggestion_exists(input, s, k);
    let k2 = choose|j: int| is_best_suggestion(input, s, j);
    if k2 < n {
        assert(s[k2] == cs[k2]);
        assert forall|j: int| 0 <= j < n && is_close(input, #[trigger] cs[j]) implies
            edit_distance_spec(input, cs[k2]@) <= edit_distance_spec(input, cs[j]@) by {
            assert(s[j] == cs[j]);
        }
        assert forall|j: int| 0 <= j < k2 && is_close(input, #[trigger] cs[j]) implies
            edit_distance_spec(input, cs[k2]@) < edit_distance_spec(input, cs[j]@) by {
            assert(s[j] == cs[j]);
        }
        assert(is_best_suggestion(input, cs, k2));
        lemma_best_suggestion_unique(input, cs, k, k2);
    } else {
        let l = k2 - n;
        assert(s[k2] == ds[l]);
        assert(is_close(input, s[k]));
    }
}

/// Appending candidates to a list with no close candidate makes the
/// suggestion that of the appended candidates alone.
pub proof fn law_appended_candidates_after_none(input: Seq<char>, cs: Seq<&str>, ds: Seq<&str>)
    requires
        forall|l: int| 0 <= l < cs.len() ==> !is_close(input, #[trigger] cs[l]),
    ensures
        suggestion(input, cs + ds) == suggestion(input, ds),
{
    let s = cs + ds;
    let n = cs.len();
    if exists|k: int| is_best_suggestion(input, s, k) {
        let k = choose|k: int| is_best_suggestion(input, s, k);
        if k < n {
            assert(s[k] == cs[k]);
        }
        let j = k - n;
        assert(s[k] == ds[j]);
        assert forall|i: int| 0 <= i < ds.len() && is_close(input, #[trigger] ds[i]) implies
            edit_distance_spec(input, ds[j]@) <= edit_distance_spec(input, ds[i]@) by {
            assert(s[i + n] == ds[i]);
        }
        assert forall|i: int| 0 <= i < j && is_close(input, #[trigger] ds[i]) implies
            edit_distance_spec(input, ds[j]@) < edit_distance_spec(input, ds[i]@) by {
            assert(s[i + n] == ds[i]);
        }
        assert(is_best_suggestion(input, ds, j));
        let jd = choose|i: int| is_best_suggestion(input, ds, i);
        lemma_best_suggestion_unique(input, ds, j, jd);
    } else if exists|j: int| is_best_suggestion(input, ds, j) {
        let j = choose|j: int| is_best_suggestion(input, ds, j);
        assert(s[j + n] == ds[j]);
        assert forall|i: int| 0 <= i < s.len() && is_close(input, #[trigger] s[i]) implies
            edit_distance_spec(input, s[j + n]@) <= edit_distance_spec(input, s[i]@) by {
            if i < n {
                assert(s[i] == cs[i]);
            } else {
                assert(s[i] == ds[i - n]);
            }
        }
        assert forall|i: int| 0 <= i < j + n && is_close(input, #[trigger] s[i]) implies
            edit_distance_spec(input, s[j + n]@) < edit_distance_spec(input, s[i]@) by {
            if i < n {
                assert(s[i] == cs[i]);
            } else {
                assert(s[i] == ds[i - n]);
            }
        }
        assert(is_best_suggestion(input, s, j + n));
    }
}

} // verus!
