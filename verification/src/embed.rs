//! Embeds, polls and allowed mentions: the legacy message parts.

use vstd::prelude::*;
use vstd::string::*;
use crate::text::{str_eq, contains_str, has_substring};
use crate::tree::{ViewItem, ViewBody, AttrValue};
use crate::view_error::{ViewError, ErrorModel, Site, em, error_at, error_quoting, quoting,
    unknown_error, unknown_message, splice_message, splice_not_allowed};
use crate::registry::{Schema, ChildList, slot_count, spec_child_names, child_names};
use crate::attrs::{attr_step, no_slots, empty_slots, collect_attr, bare_error, bare_literal,
    leaf_element_error, leaf_element, spec_splice_place, leaf_splice, unknown_attr_error, unknown_attr};
use crate::leaf::{call_err, missing, spec_field, expand_embed_field, spec_author, expand_embed_author,
    spec_footer, expand_embed_footer, spec_embed_image, expand_embed_image, spec_poll_answer,
    expand_poll_answer};
use crate::plan::{Emit, Mention, same_stream};

verus! {

/// The node of an optional part, or nothing.
pub open spec fn opt_node(o: Option<Emit>) -> Seq<Emit> {
    match o {
        Some(e) => seq![e],
        None => Seq::empty(),
    }
}

fn push_opt(out: &mut Vec<Emit>, o: Option<Emit>)
    ensures
        final(out)@ == old(out)@ + opt_node(o),
{
    match o {
        Some(e) => {
            out.push(e);
            assert(final(out)@ =~= old(out)@ + opt_node(o));
        },
        None => {
            assert(old(out)@ + opt_node(o) =~= old(out)@);
        },
    }
}

// --- embed ---

/// What an embed has collected so far.
pub struct EmbedScan {
    pub slots: Seq<Option<usize>>,
    /// The field steps: field nodes and splices.
    pub fields: Seq<Emit>,
    pub nf: nat,
    pub spliced: bool,
    pub author: Option<Emit>,
    pub footer: Option<Emit>,
    pub image: Option<Emit>,
    pub thumbnail: Option<Emit>,
}

/// Nothing collected.
pub open spec fn embed_start() -> EmbedScan {
    EmbedScan {
        slots: no_slots(slot_count(Schema::Embed)),
        fields: Seq::empty(),
        nf: 0,
        spliced: false,
        author: None,
        footer: None,
        image: None,
        thumbnail: None,
    }
}

/// The error for a second single child `what` of an embed or message.
pub open spec fn dup_child_error(id: usize, what: Seq<char>) -> ErrorModel {
    em(Site::Item(id), quoting("duplicate "@, what, ""@))
}

/// Setting the single part `cur` of an embed from a nested plan.
pub open spec fn embed_single(id: usize, what: Seq<char>, cur: Option<Emit>, planned: Result<Emit, ErrorModel>) -> Result<
    Emit,
    ErrorModel,
> {
    if cur is Some {
        Err(dup_child_error(id, what))
    } else {
        planned
    }
}

/// Scanning an embed's items from position `i`.
pub open spec fn embed_scan(items: Seq<ViewItem>, i: int, st: EmbedScan) -> Result<EmbedScan, ErrorModel>
    decreases items.len() - i,
{
    if i < 0 || i >= items.len() {
        Ok(st)
    } else {
        match items[i] {
            ViewItem::Attr { id, key, .. } => match attr_step(Schema::Embed, st.slots, id, key@) {
                Ok(s2) => embed_scan(items, i + 1, EmbedScan { slots: s2, ..st }),
                Err(e) => Err(e),
            },
            ViewItem::Element { id, name, body } => if name@ == "field"@ {
                match spec_field(body.items@) {
                    Ok(f) => embed_scan(
                        items,
                        i + 1,
                        EmbedScan { fields: st.fields.push(f), nf: st.nf + 1, ..st },
                    ),
                    Err(e) => Err(e),
                }
            } else if name@ == "author"@ {
                match embed_single(id, "author"@, st.author, spec_author(body.items@)) {
                    Ok(a) => embed_scan(items, i + 1, EmbedScan { author: Some(a), ..st }),
                    Err(e) => Err(e),
                }
            } else if name@ == "footer"@ {
                match embed_single(id, "footer"@, st.footer, spec_footer(body.items@)) {
                    Ok(a) => embed_scan(items, i + 1, EmbedScan { footer: Some(a), ..st }),
                    Err(e) => Err(e),
                }
            } else if name@ == "image"@ {
                match embed_single(id, "image"@, st.image, spec_embed_image(body.items@, false)) {
                    Ok(a) => embed_scan(items, i + 1, EmbedScan { image: Some(a), ..st }),
                    Err(e) => Err(e),
                }
            } else if name@ == "thumbnail"@ {
                match embed_single(
                    id,
                    "thumbnail"@,
                    st.thumbnail,
                    spec_embed_image(body.items@, true),
                ) {
                    Ok(a) => embed_scan(items, i + 1, EmbedScan { thumbnail: Some(a), ..st }),
                    Err(e) => Err(e),
                }
            } else {
                Err(
                    em(
                        Site::Item(id),
                        unknown_message(
                            "unknown embed child "@,
                            name@,
                            ""@,
                            spec_child_names(ChildList::EmbedChildren),
                            ""@,
                        ),
                    ),
                )
            },
            ViewItem::Splice { id } => embed_scan(
                items,
                i + 1,
                EmbedScan {
                    fields: st.fields.push(Emit::Splice(id)),
                    nf: st.nf + 1,
                    spliced: true,
                    ..st
                },
            ),
            ViewItem::Bare { id } => Err(bare_error(Schema::Embed, id)),
        }
    }
}

/// The fields list of an embed: nothing when it has no field step.
pub open spec fn list_if_any(steps: Seq<Emit>, n: nat, spliced: bool) -> Seq<Emit> {
    if n > 0 {
        seq![Emit::List { len: n as usize, spliced }] + steps
    } else {
        Seq::empty()
    }
}

/// What `embed { .. }` plans to.
#[verifier::opaque]
pub open spec fn spec_embed(items: Seq<ViewItem>) -> Result<Seq<Emit>, ErrorModel> {
    match embed_scan(items, 0, embed_start()) {
        Err(e) => Err(e),
        Ok(st) => Ok(
            seq![
                Emit::Embed {
                    title: st.slots[0],
                    description: st.slots[1],
                    url: st.slots[2],
                    timestamp: st.slots[3],
                    colour: st.slots[4],
                    author: st.author is Some,
                    footer: st.footer is Some,
                    image: st.image is Some,
                    thumbnail: st.thumbnail is Some,
                    fields: st.nf > 0,
                },
            ] + opt_node(st.author) + opt_node(st.footer) + opt_node(st.image) + opt_node(
                st.thumbnail,
            ) + list_if_any(st.fields, st.nf, st.spliced),
        ),
    }
}

fn dup_child(id: usize, what: &str) -> (e: ViewError)
    ensures
        e@ == dup_child_error(id, what@),
{
    error_quoting(Site::Item(id), "duplicate ", what, "")
}

fn push_list_if_any(out: &mut Vec<Emit>, steps: &mut Vec<Emit>, n: usize, spliced: bool)
    requires
        n <= old(steps)@.len(),
    ensures
        final(out)@ == old(out)@ + list_if_any(old(steps)@, n as nat, spliced),
{
    if n > 0 {
        let ghost o = out@;
        let ghost s = steps@;
        out.push(Emit::List { len: n, spliced });
        out.append(steps);
        assert(out@ =~= o + (seq![Emit::List { len: n, spliced }] + s));
    } else {
        assert(old(out)@ + list_if_any(old(steps)@, n as nat, spliced) =~= old(out)@);
    }
}

/// Plans an embed: its attributes, single author/footer/image/thumbnail,
/// and its fields, literal or spliced.
pub fn expand_embed(body: &ViewBody) -> (r: Result<Vec<Emit>, ViewError>)
    ensures
        same_stream(r, spec_embed(body.items@)),
{
    proof {
        reveal(spec_embed);
    }
    let mut slots = empty_slots(Schema::Embed);
    let mut fields: Vec<Emit> = Vec::new();
    let mut nf: usize = 0;
    let mut spliced = false;
    let mut author: Option<Emit> = None;
    let mut footer: Option<Emit> = None;
    let mut image: Option<Emit> = None;
    let mut thumbnail: Option<Emit> = None;
    let mut i: usize = 0;
    while i < body.items.len()
        invariant
            i <= body.items@.len(),
            nf <= i,
            nf == fields@.len(),
            slots@.len() == slot_count(Schema::Embed),
            embed_scan(body.items@, 0, embed_start()) == embed_scan(
                body.items@,
                i as int,
                EmbedScan {
                    slots: slots@,
                    fields: fields@,
                    nf: nf as nat,
                    spliced,
                    author,
                    footer,
                    image,
                    thumbnail,
                },
            ),
        decreases body.items@.len() - i,
    {
        proof {
            reveal(spec_embed);
        }
        match &body.items[i] {
            ViewItem::Attr { id, key, .. } => {
                collect_attr(Schema::Embed, &mut slots, *id, key.as_str())?;
            },
            ViewItem::Element { id, name, body: child } => {
                let n = name.as_str();
                if str_eq(n, "field") {
                    let f = expand_embed_field(child)?;
                    fields.push(f);
                    nf = nf + 1;
                } else if str_eq(n, "author") {
                    if author.is_some() {
                        return Err(dup_child(*id, "author"));
                    }
                    author = Some(expand_embed_author(child)?);
                } else if str_eq(n, "footer") {
                    if footer.is_some() {
                        return Err(dup_child(*id, "footer"));
                    }
                    footer = Some(expand_embed_footer(child)?);
                } else if str_eq(n, "image") {
                    if image.is_some() {
                        return Err(dup_child(*id, "image"));
                    }
                    image = Some(expand_embed_image(child, false)?);
                } else if str_eq(n, "thumbnail") {
                    if thumbnail.is_some() {
                        return Err(dup_child(*id, "thumbnail"));
                    }
                    thumbnail = Some(expand_embed_image(child, true)?);
                } else {
                    let names = child_names(ChildList::EmbedChildren);
                    return Err(
                        unknown_error(Site::Item(*id), "unknown embed child ", n, "", names.as_slice(), ""),
                    );
                }
            },
            ViewItem::Splice { id } => {
                fields.push(Emit::Splice(*id));
                nf = nf + 1;
                spliced = true;
            },
            ViewItem::Bare { id } => {
                return Err(bare_literal(Schema::Embed, *id));
            },
        }
        i = i + 1;
    }
    let mut out: Vec<Emit> = Vec::new();
    out.push(
        Emit::Embed {
            title: slots[0],
            description: slots[1],
            url: slots[2],
            timestamp: slots[3],
            colour: slots[4],
            author: author.is_some(),
            footer: footer.is_some(),
            image: image.is_some(),
            thumbnail: thumbnail.is_some(),
            fields: nf > 0,
        },
    );
    push_opt(&mut out, author);
    push_opt(&mut out, footer);
    push_opt(&mut out, image);
    push_opt(&mut out, thumbnail);
    push_list_if_any(&mut out, &mut fields, nf, spliced);
    Ok(out)
}

// --- poll ---

/// What a poll has collected so far.
pub struct PollScan {
    pub slots: Seq<Option<usize>>,
    pub answers: Seq<Emit>,
    pub n: nat,
}

/// Scanning a poll's items from position `i`.
pub open spec fn poll_scan(items: Seq<ViewItem>, i: int, st: PollScan) -> Result<PollScan, ErrorModel>
    decreases items.len() - i,
{
    if i < 0 || i >= items.len() {
        Ok(st)
    } else {
        match items[i] {
            ViewItem::Attr { id, key, .. } => match attr_step(Schema::Poll, st.slots, id, key@) {
                Ok(s2) => poll_scan(items, i + 1, PollScan { slots: s2, ..st }),
                Err(e) => Err(e),
            },
            ViewItem::Element { id, name, body } => if name@ == "poll_answer"@ || name@
                == "answer"@ {
                match spec_poll_answer(body.items@) {
                    Ok(a) => poll_scan(
                        items,
                        i + 1,
                        PollScan { answers: st.answers.push(a), n: st.n + 1, ..st },
                    ),
                    Err(e) => Err(e),
                }
            } else {
                Err(
                    em(
                        Site::Item(id),
                        unknown_message(
                            "unknown poll child "@,
                            name@,
                            ""@,
                            spec_child_names(ChildList::PollChildren),
                            ""@,
                        ),
                    ),
                )
            },
            ViewItem::Splice { id } => Err(em(Site::Item(id), splice_message("`poll`"@))),
            ViewItem::Bare { id } => Err(bare_error(Schema::Poll, id)),
        }
    }
}

/// What `poll { .. }` plans to: the poll node and its answer nodes.
#[verifier::opaque]
pub open spec fn spec_poll(items: Seq<ViewItem>) -> Result<Seq<Emit>, ErrorModel> {
    match poll_scan(
        items,
        0,
        PollScan { slots: no_slots(slot_count(Schema::Poll)), answers: Seq::empty(), n: 0 },
    ) {
        Err(e) => Err(e),
        Ok(st) => if st.slots[0] is None {
            Err(call_err("poll requires `question`"@))
        } else if st.slots[1] is None {
            Err(call_err("poll requires `duration` (hours)"@))
        } else {
            Ok(
                seq![
                    Emit::Poll {
                        question: st.slots[0]->Some_0,
                        duration: st.slots[1]->Some_0,
                        allow_multiselect: st.slots[2],
                        layout_type: st.slots[3],
                        answers: st.n as usize,
                    },
                ] + st.answers,
            )
        },
    }
}

/// Plans a poll: its attributes, `question` and `duration` required, and
/// its answers.
pub fn expand_poll(body: &ViewBody) -> (r: Result<Vec<Emit>, ViewError>)
    ensures
        same_stream(r, spec_poll(body.items@)),
{
    proof {
        reveal(spec_poll);
    }
    let mut slots = empty_slots(Schema::Poll);
    let mut answers: Vec<Emit> = Vec::new();
    let mut n: usize = 0;
    let mut i: usize = 0;
    while i < body.items.len()
        invariant
            i <= body.items@.len(),
            n <= i,
            slots@.len() == slot_count(Schema::Poll),
            poll_scan(
                body.items@,
                0,
                PollScan { slots: no_slots(slot_count(Schema::Poll)), answers: Seq::empty(), n: 0 },
            ) == poll_scan(
                body.items@,
                i as int,
                PollScan { slots: slots@, answers: answers@, n: n as nat },
            ),
        decreases body.items@.len() - i,
    {
        proof {
            reveal(spec_poll);
        }
        match &body.items[i] {
            ViewItem::Attr { id, key, .. } => {
                collect_attr(Schema::Poll, &mut slots, *id, key.as_str())?;
            },
            ViewItem::Element { id, name, body: child } => {
                if str_eq(name.as_str(), "poll_answer") || str_eq(name.as_str(), "answer") {
                    let a = expand_poll_answer(child)?;
                    answers.push(a);
                    n = n + 1;
                } else {
                    let names = child_names(ChildList::PollChildren);
                    return Err(
                        unknown_error(
                            Site::Item(*id),
                            "unknown poll child ",
                            name.as_str(),
                            "",
                            names.as_slice(),
                            "",
                        ),
                    );
                }
            },
            ViewItem::Splice { id } => {
                return Err(splice_not_allowed("`poll`", *id));
            },
            ViewItem::Bare { id } => {
                return Err(bare_literal(Schema::Poll, *id));
            },
        }
        i = i + 1;
    }
    let question = match slots[0] {
        Some(q) => q,
        None => {
            return Err(missing("poll requires `question`"));
        },
    };
    let duration = match slots[1] {
        Some(d) => d,
        None => {
            return Err(missing("poll requires `duration` (hours)"));
        },
    };
    let mut out: Vec<Emit> = Vec::new();
    out.push(
        Emit::Poll {
            question,
            duration,
            allow_multiselect: slots[2],
            layout_type: slots[3],
            answers: n,
        },
    );
    let ghost a = answers@;
    out.append(&mut answers);
    assert(out@ =~= seq![
        Emit::Poll {
            question,
            duration,
            allow_multiselect: slots@[2],
            layout_type: slots@[3],
            answers: n,
        },
    ] + a);
    Ok(out)
}

} // verus!

verus! {

// --- allowed mentions ---

/// The mention a `parse` word turns on.
pub open spec fn parse_word(t: Seq<char>) -> Option<Mention> {
    if t == "everyone"@ {
        Some(Mention::Everyone)
    } else if t == "users"@ {
        Some(Mention::AllUsers)
    } else if t == "roles"@ {
        Some(Mention::AllRoles)
    } else {
        None
    }
}

/// The message for an unknown `parse` word.
pub open spec fn unknown_parse_message(t: Seq<char>) -> Seq<char> {
    quoting("unknown parse value "@, t, " (expected everyone, users, roles)"@)
}

/// The calls of the words of a `parse` array (attribute `id`) from
/// position `k`, appended to `calls`.
pub open spec fn parse_array(id: usize, elems: Seq<String>, k: int, calls: Seq<Emit>) -> Result<
    Seq<Emit>,
    ErrorModel,
>
    decreases elems.len() - k,
{
    if k < 0 || k >= elems.len() {
        Ok(calls)
    } else {
        match parse_word(elems[k]@) {
            Some(m) => parse_array(id, elems, k + 1, calls.push(Emit::Mention(m))),
            None => Err(em(Site::ArrayElem(id, k as usize), unknown_parse_message(elems[k]@))),
        }
    }
}

/// The calls of one `parse` attribute, appended to `calls`.
pub open spec fn parse_attr(id: usize, value: AttrValue, calls: Seq<Emit>) -> Result<Seq<Emit>, ErrorModel> {
    if has_substring(value.text@, "["@) {
        match value.array {
            Some(elems) => parse_array(id, elems@, 0, calls),
            None => Err(
                em(
                    Site::Value(id),
                    "parse must be an array like `[everyone, users]` or a single value"@,
                ),
            ),
        }
    } else {
        match parse_word(value.text@) {
            Some(m) => Ok(calls.push(Emit::Mention(m))),
            None => Err(em(Site::Value(id), unknown_parse_message(value.text@))),
        }
    }
}

/// Scanning an allowed-mentions body from position `i`: every attribute
/// adds its calls, in order, and attributes may repeat.
pub open spec fn mentions_scan(items: Seq<ViewItem>, i: int, calls: Seq<Emit>) -> Result<Seq<Emit>, ErrorModel>
    decreases items.len() - i,
{
    if i < 0 || i >= items.len() {
        Ok(calls)
    } else {
        match items[i] {
            ViewItem::Attr { id, key, value } => if key@ == "parse"@ {
                match parse_attr(id, value, calls) {
                    Ok(c) => mentions_scan(items, i + 1, c),
                    Err(e) => Err(e),
                }
            } else if key@ == "users"@ {
                mentions_scan(items, i + 1, calls.push(Emit::Mention(Mention::Users(id))))
            } else if key@ == "roles"@ {
                mentions_scan(items, i + 1, calls.push(Emit::Mention(Mention::Roles(id))))
            } else if key@ == "replied_user"@ {
                mentions_scan(items, i + 1, calls.push(Emit::Mention(Mention::RepliedUser(id))))
            } else {
                Err(unknown_attr_error(Schema::AllowedMentions, id, key@))
            },
            ViewItem::Element { id, name, .. } => Err(
                leaf_element_error(Schema::AllowedMentions, id, name@),
            ),
            ViewItem::Splice { id } => Err(
                em(Site::Item(id), splice_message(spec_splice_place(Schema::AllowedMentions))),
            ),
            ViewItem::Bare { id } => Err(bare_error(Schema::AllowedMentions, id)),
        }
    }
}

/// What `allowed_mentions { .. }` plans to.
#[verifier::opaque]
pub open spec fn spec_allowed_mentions(items: Seq<ViewItem>) -> Result<Seq<Emit>, ErrorModel> {
    match mentions_scan(items, 0, Seq::empty()) {
        Err(e) => Err(e),
        Ok(c) => Ok(seq![Emit::AllowedMentions { calls: c.len() as usize }] + c),
    }
}

fn word_mention(t: &str) -> (r: Option<Mention>)
    ensures
        r == parse_word(t@),
{
    if str_eq(t, "everyone") {
        Some(Mention::Everyone)
    } else if str_eq(t, "users") {
        Some(Mention::AllUsers)
    } else if str_eq(t, "roles") {
        Some(Mention::AllRoles)
    } else {
        None
    }
}

fn add_parse(id: usize, value: &AttrValue, calls: &mut Vec<Emit>) -> (r: Result<(), ViewError>)
    ensures
        match parse_attr(id, *value, old(calls)@) {
            Ok(c) => r is Ok && final(calls)@ == c,
            Err(e) => r matches Err(x) && x@ == e,
        },
{
    if contains_str(value.text.as_str(), "[") {
        match &value.array {
            Some(elems) => {
                let mut k: usize = 0;
                while k < elems.len()
                    invariant
                        k <= elems@.len(),
                        value.array == Some(*elems),
                        has_substring(value.text@, "["@),
                        parse_attr(id, *value, old(calls)@) == parse_array(
                            id,
                            elems@,
                            k as int,
                            calls@,
                        ),
                    decreases elems@.len() - k,
                {
                    match word_mention(elems[k].as_str()) {
                        Some(m) => {
                            calls.push(Emit::Mention(m));
                        },
                        None => {
                            return Err(
                                error_quoting(
                                    Site::ArrayElem(id, k),
                                    "unknown parse value ",
                                    elems[k].as_str(),
                                    " (expected everyone, users, roles)",
                                ),
                            );
                        },
                    }
                    k = k + 1;
                }
                Ok(())
            },
            None => Err(
                error_at(
                    Site::Value(id),
                    "parse must be an array like `[everyone, users]` or a single value",
                ),
            ),
        }
    } else {
        match word_mention(value.text.as_str()) {
            Some(m) => {
                calls.push(Emit::Mention(m));
                Ok(())
            },
            None => Err(
                error_quoting(
                    Site::Value(id),
                    "unknown parse value ",
                    value.text.as_str(),
                    " (expected everyone, users, roles)",
                ),
            ),
        }
    }
}

/// Plans an allowed-mentions builder: `parse` (a word or an array of words
/// among everyone, users, roles), `users`, `roles`, `replied_user`, in order.
pub fn expand_allowed_mentions(body: &ViewBody) -> (r: Result<Vec<Emit>, ViewError>)
    ensures
        same_stream(r, spec_allowed_mentions(body.items@)),
{
    proof {
        reveal(spec_allowed_mentions);
    }
    let mut calls: Vec<Emit> = Vec::new();
    let mut i: usize = 0;
    while i < body.items.len()
        invariant
            i <= body.items@.len(),
            mentions_scan(body.items@, 0, Seq::empty()) == mentions_scan(
                body.items@,
                i as int,
                calls@,
            ),
        decreases body.items@.len() - i,
    {
        proof {
            reveal(spec_allowed_mentions);
        }
        match &body.items[i] {
            ViewItem::Attr { id, key, value } => {
                let k = key.as_str();
                if str_eq(k, "parse") {
                    add_parse(*id, value, &mut calls)?;
                } else if str_eq(k, "users") {
                    calls.push(Emit::Mention(Mention::Users(*id)));
                } else if str_eq(k, "roles") {
                    calls.push(Emit::Mention(Mention::Roles(*id)));
                } else if str_eq(k, "replied_user") {
                    calls.push(Emit::Mention(Mention::RepliedUser(*id)));
                } else {
                    return Err(unknown_attr(Schema::AllowedMentions, *id, k));
                }
            },
            ViewItem::Element { id, name, .. } => {
                return Err(leaf_element(Schema::AllowedMentions, *id, name.as_str()));
            },
            ViewItem::Splice { id } => {
                return Err(leaf_splice(Schema::AllowedMentions, *id));
            },
            ViewItem::Bare { id } => {
                return Err(bare_literal(Schema::AllowedMentions, *id));
            },
        }
        i = i + 1;
    }
    let mut out: Vec<Emit> = Vec::new();
    out.push(Emit::AllowedMentions { calls: calls.len() });
    let ghost c = calls@;
    out.append(&mut calls);
    assert(out@ =~= seq![Emit::AllowedMentions { calls: c.len() as usize }] + c);
    Ok(out)
}

} // verus!
