//! The parsed shape of a `view!` / `component!` body, as plain values.
//!
//! Every item carries an `id`: the position of the item in the flat table
//! that the macro front end keeps of the tokens it parsed, so that a plan or
//! an error can point back at the exact expression, literal or span.

use vstd::prelude::*;

verus! {

/// The right-hand side of an attribute, by its token text.
pub struct AttrValue {
    /// The expression's tokens, rendered with every space removed.
    pub text: String,
    /// The token texts of the elements when the expression is an array
    /// literal `[a, b, ..]`.
    pub array: Option<Vec<String>>,
}

/// One item of a body.
pub enum ViewItem {
    /// `key: value`
    Attr { id: usize, key: String, value: AttrValue },
    /// `name { body }`
    Element { id: usize, name: String, body: ViewBody },
    /// A bare string literal.
    Bare { id: usize },
    /// A runtime splice `{ expr }`.
    Splice { id: usize },
}

/// The items between the braces of an element.
pub struct ViewBody {
    pub items: Vec<ViewItem>,
}

/// The items of a whole macro invocation.
pub struct ViewInput {
    pub items: Vec<ViewItem>,
}

/// Some item of `items`, or of a body nested anywhere below them, is a
/// splice.
pub open spec fn spec_any_splice(items: Seq<ViewItem>) -> bool
    decreases items,
{
    exists|k: int|
        #![trigger items[k]]
        0 <= k < items.len() && match items[k] {
            ViewItem::Splice { .. } => true,
            ViewItem::Element { body, .. } => spec_any_splice(body.items@),
            _ => false,
        }
}

/// Decides [`spec_any_splice`]: the recursive walk that decides whether an
/// expansion returns `Result`.
pub fn any_splice(items: &Vec<ViewItem>) -> (r: bool)
    ensures
        r == spec_any_splice(items@),
    decreases items@,
{
    let mut i: usize = 0;
    while i < items.len()
        invariant
            i <= items@.len(),
            forall|k: int|
                #![trigger items@[k]]
                0 <= k < i ==> !match items@[k] {
                    ViewItem::Splice { .. } => true,
                    ViewItem::Element { body, .. } => spec_any_splice(body.items@),
                    _ => false,
                },
        decreases items@.len() - i,
    {
        match &items[i] {
            ViewItem::Splice { .. } => {
                return true;
            },
            ViewItem::Element { body, .. } => {
                assert(decreases_to!(items@ => items@[i as int]));
                if any_splice(&body.items) {
                    return true;
                }
            },
            _ => {},
        }
        i = i + 1;
    }
    false
}

/// The kind of a token where the grammar looks ahead.
#[derive(Debug, Clone, Copy, PartialEq, Eq, Structural)]
pub enum TokenKind {
    /// A string literal.
    Str,
    /// An identifier.
    Ident,
    /// A `:`.
    Colon,
    /// A brace-delimited group.
    Brace,
    /// Any other token.
    Other,
    /// The end of the body.
    End,
}

/// The item that a body continues with.
#[derive(Debug, Clone, Copy, PartialEq, Eq, Structural)]
pub enum ItemStart {
    /// A bare string literal.
    Bare,
    /// `name: expr`.
    Attr,
    /// `name { body }`.
    Element,
    /// `{ expr }`.
    Splice,
}

/// Why no item can start where the grammar looks.
#[derive(Debug, Clone, Copy, PartialEq, Eq, Structural)]
pub enum StartError {
    /// A name followed by neither `:` nor `{`.
    NameWithoutColonOrBrace,
    /// A token that starts no item.
    Unexpected,
}

/// The grammar of a body item, decided on its first two tokens: a string
/// literal is a bare literal, a brace group is a splice, a name starts an
/// attribute before `:` and an element before `{`.
pub open spec fn spec_item_start(first: TokenKind, second: TokenKind) -> Result<ItemStart, StartError> {
    match first {
        TokenKind::Str => Ok(ItemStart::Bare),
        TokenKind::Brace => Ok(ItemStart::Splice),
        TokenKind::Ident => match second {
            TokenKind::Colon => Ok(ItemStart::Attr),
            TokenKind::Brace => Ok(ItemStart::Element),
            _ => Err(StartError::NameWithoutColonOrBrace),
        },
        _ => Err(StartError::Unexpected),
    }
}

/// Decides which item a body continues with, from the kinds of its next two
/// tokens (`first` is not [`TokenKind::End`]: the body loop stops there).
pub fn item_start(first: TokenKind, second: TokenKind) -> (r: Result<ItemStart, StartError>)
    ensures
        r == spec_item_start(first, second),
{
    match first {
        TokenKind::Str => Ok(ItemStart::Bare),
        TokenKind::Brace => Ok(ItemStart::Splice),
        TokenKind::Ident => match second {
            TokenKind::Colon => Ok(ItemStart::Attr),
            TokenKind::Brace => Ok(ItemStart::Element),
            _ => Err(StartError::NameWithoutColonOrBrace),
        },
        _ => Err(StartError::Unexpected),
    }
}

impl StartError {
    /// The text a front end reports for a name that starts no item; `None`
    /// where the parser's own lookahead error describes the token better.
    pub fn message(&self) -> (r: Option<&'static str>)
        ensures
            *self == StartError::NameWithoutColonOrBrace ==> (r matches Some(m) && m@
                == "expected `:` after attribute name or `{` after element name"@),
            *self == StartError::Unexpected ==> r is None,
    {
        match self {
            StartError::NameWithoutColonOrBrace => Some(
                "expected `:` after attribute name or `{` after element name",
            ),
            StartError::Unexpected => None,
        }
    }
}

} // verus!
