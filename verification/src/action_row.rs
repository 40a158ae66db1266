//! Action rows: up to 5 buttons, or exactly one select menu, never both.

use vstd::prelude::*;
use vstd::string::*;
use crate::text::str_eq;
use crate::tree::{ViewItem, ViewBody, spec_any_splice, any_splice};
use crate::view_error::{ViewError, ErrorModel, Site, em, error_at, error_quoting, quoting,
    unknown_error, unknown_message};
use crate::registry::{ChildList, spec_child_names, child_names};
use crate::leaf::{call_err, missing, spec_button, expand_button};
use crate::select::{SelectElement, select_element_of, select_element, spec_select_menu,
    expand_select_menu};
use crate::plan::{Emit, same_stream};
use crate::view_support::MAX_ROW_BUTTONS;

verus! {

/// What an action row has collected so far.
pub struct RowScan {
    /// The button steps: button nodes and splices.
    pub steps: Seq<Emit>,
    /// The number of button steps.
    pub n: nat,
    /// Whether a splice is among the steps.
    pub spliced: bool,
    /// Whether a select menu was seen, and its nodes.
    pub has_select: bool,
    pub select: Seq<Emit>,
}

/// Nothing collected.
pub open spec fn row_start() -> RowScan {
    RowScan { steps: Seq::empty(), n: 0, spliced: false, has_select: false, select: Seq::empty() }
}

/// The message of a row mixing buttons and a select menu.
pub open spec fn mixed_message() -> Seq<char> {
    "action_row cannot contain both buttons and a select menu"@
}

/// Scanning an action row's items from position `i`; `any` tells whether the
/// row holds a splice anywhere, which defers the button count to the
/// runtime check.
pub open spec fn row_scan(items: Seq<ViewItem>, any: bool, i: int, st: RowScan) -> Result<RowScan, ErrorModel>
    decreases items.len() - i,
{
    if i < 0 || i >= items.len() {
        Ok(st)
    } else {
        match items[i] {
            ViewItem::Element { id, name, body } => if name@ == "button"@ {
                if st.has_select {
                    Err(em(Site::Item(id), mixed_message()))
                } else if !any && st.n >= MAX_ROW_BUTTONS {
                    Err(em(Site::Item(id), "action_row cannot contain more than 5 buttons"@))
                } else {
                    match spec_button(body.items@) {
                        Ok(b) => row_scan(
                            items,
                            any,
                            i + 1,
                            RowScan { steps: st.steps.push(b), n: st.n + 1, ..st },
                        ),
                        Err(e) => Err(e),
                    }
                }
            } else if select_element_of(name@) is Some {
                if st.n > 0 {
                    Err(em(Site::Item(id), mixed_message()))
                } else if st.has_select {
                    Err(em(Site::Item(id), "action_row can contain at most one select menu"@))
                } else {
                    match spec_select_menu(select_element_of(name@)->Some_0, body.items@) {
                        Ok(s) => row_scan(
                            items,
                            any,
                            i + 1,
                            RowScan { has_select: true, select: s, ..st },
                        ),
                        Err(e) => Err(e),
                    }
                }
            } else if name@ == "select_menu_option"@ || name@ == "option"@ {
                Err(
                    em(
                        Site::Item(id),
                        "`select_menu_option` must be inside `select_menu`, not directly in `action_row`"@,
                    ),
                )
            } else {
                Err(
                    em(
                        Site::Item(id),
                        unknown_message(
                            "unknown action_row child "@,
                            name@,
                            ""@,
                            spec_child_names(ChildList::ActionRowChildren),
                            ""@,
                        ),
                    ),
                )
            },
            ViewItem::Attr { id, key, .. } => Err(
                em(Site::Item(id), quoting("action_row cannot contain attribute "@, key@, ""@)),
            ),
            ViewItem::Splice { id } => if st.has_select {
                Err(em(Site::Item(id), mixed_message()))
            } else {
                row_scan(
                    items,
                    any,
                    i + 1,
                    RowScan {
                        steps: st.steps.push(Emit::Splice(id)),
                        n: st.n + 1,
                        spliced: true,
                        ..st
                    },
                )
            },
            ViewItem::Bare { id } => Err(
                em(Site::Item(id), "bare string not allowed in `action_row`"@),
            ),
        }
    }
}

/// What `action_row { .. }` plans to: a select-menu row, or a button row
/// with its button list, or the error.
#[verifier::opaque]
pub open spec fn spec_action_row(items: Seq<ViewItem>) -> Result<Seq<Emit>, ErrorModel> {
    match row_scan(items, spec_any_splice(items), 0, row_start()) {
        Err(e) => Err(e),
        Ok(st) => if st.has_select {
            Ok(seq![Emit::ActionRowSelect] + st.select)
        } else if st.n > 0 {
            Ok(seq![Emit::ActionRowButtons, Emit::List { len: st.n as usize, spliced: st.spliced }]
                + st.steps)
        } else {
            Err(call_err("action_row must contain at least one button or a select menu"@))
        },
    }
}

/// Plans an action row, enforcing the row laws on literal children.
pub fn expand_action_row(body: &ViewBody) -> (r: Result<Vec<Emit>, ViewError>)
    ensures
        same_stream(r, spec_action_row(body.items@)),
{
    proof {
        reveal(spec_action_row);
    }
    let any = any_splice(&body.items);
    let mut steps: Vec<Emit> = Vec::new();
    let mut n: usize = 0;
    let mut spliced = false;
    let mut has_select = false;
    let mut select: Vec<Emit> = Vec::new();
    let mut i: usize = 0;
    while i < body.items.len()
        invariant
            i <= body.items@.len(),
            any == spec_any_splice(body.items@),
            n <= i,
            row_scan(body.items@, any, 0, row_start()) == row_scan(
                body.items@,
                any,
                i as int,
                RowScan { steps: steps@, n: n as nat, spliced, has_select, select: select@ },
            ),
        decreases body.items@.len() - i,
    {
        proof {
            reveal(spec_action_row);
        }
        match &body.items[i] {
            ViewItem::Element { id, name, body: child } => {
                if str_eq(name.as_str(), "button") {
                    if has_select {
                        return Err(
                            error_at(
                                Site::Item(*id),
                                "action_row cannot contain both buttons and a select menu",
                            ),
                        );
                    }
                    if !any && n >= MAX_ROW_BUTTONS {
                        return Err(
                            error_at(Site::Item(*id), "action_row cannot contain more than 5 buttons"),
                        );
                    }
                    let b = expand_button(child)?;
                    steps.push(b);
                    n = n + 1;
                } else if let Some(elem) = select_element(name.as_str()) {
                    if n > 0 {
                        return Err(
                            error_at(
                                Site::Item(*id),
                                "action_row cannot contain both buttons and a select menu",
                            ),
                        );
                    }
                    if has_select {
                        return Err(
                            error_at(
                                Site::Item(*id),
                                "action_row can contain at most one select menu",
                            ),
                        );
                    }
                    select = expand_select_menu(child, elem)?;
                    has_select = true;
                } else if str_eq(name.as_str(), "select_menu_option") || str_eq(
                    name.as_str(),
                    "option",
                ) {
                    return Err(
                        error_at(
                            Site::Item(*id),
                            "`select_menu_option` must be inside `select_menu`, not directly in `action_row`",
                        ),
                    );
                } else {
                    let names = child_names(ChildList::ActionRowChildren);
                    return Err(
                        unknown_error(
                            Site::Item(*id),
                            "unknown action_row child ",
                            name.as_str(),
                            "",
                            names.as_slice(),
                            "",
                        ),
                    );
                }
            },
            ViewItem::Attr { id, key, .. } => {
                return Err(
                    error_quoting(
                        Site::Item(*id),
                        "action_row cannot contain attribute ",
                        key.as_str(),
                        "",
                    ),
                );
            },
            ViewItem::Splice { id } => {
                if has_select {
                    return Err(
                        error_at(
                            Site::Item(*id),
                            "action_row cannot contain both buttons and a select menu",
                        ),
                    );
                }
                steps.push(Emit::Splice(*id));
                n = n + 1;
                spliced = true;
            },
            ViewItem::Bare { id } => {
                return Err(error_at(Site::Item(*id), "bare string not allowed in `action_row`"));
            },
        }
        i = i + 1;
    }
    if has_select {
        let mut out: Vec<Emit> = Vec::new();
        out.push(Emit::ActionRowSelect);
        let ghost sel = select@;
        out.append(&mut select);
        assert(out@ =~= seq![Emit::ActionRowSelect] + sel);
        Ok(out)
    } else if n > 0 {
        let mut out: Vec<Emit> = Vec::new();
        out.push(Emit::ActionRowButtons);
        out.push(Emit::List { len: n, spliced });
        let ghost st = steps@;
        out.append(&mut steps);
        assert(out@ =~= seq![Emit::ActionRowButtons, Emit::List { len: n, spliced }] + st);
        Ok(out)
    } else {
        Err(missing("action_row must contain at least one button or a select menu"))
    }
}

} // verus!
