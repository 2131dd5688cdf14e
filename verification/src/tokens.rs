//! Token streams, seen as the text of the token trees that they hold.
//!
//! The expansions that this crate writes are token streams of `proc_macro2`.
//! Their contents are modelled by `TokTree`: identifiers and literals by
//! their text, punctuation by its character and spacing, groups by their
//! delimiter and contents. Spans are left out of the model.

use vstd::prelude::*;

verus! {

#[verifier::external_type_specification]
#[verifier::external_body]
pub struct ExTokenStream(proc_macro2::TokenStream);

#[verifier::external_type_specification]
#[verifier::external_body]
pub struct ExIdent(proc_macro2::Ident);

#[verifier::external_type_specification]
#[verifier::external_body]
pub struct ExSpan(proc_macro2::Span);

/// The delimiter of a token group.
#[derive(Clone, Copy, PartialEq, Eq, Debug)]
pub enum Delim {
    Paren,
    Brace,
    Bracket,
    Invisible,
}

/// A token tree as text: the spans of the tokens are left out.
pub enum TokTree {
    Ident(Seq<char>),
    /// A punctuation character, and whether it is joined to the next one.
    Punct(char, bool),
    Literal(Seq<char>),
    Group(Delim, Seq<TokTree>),
}

/// The token trees that a token stream holds, in order.
pub uninterp spec fn stream_trees(ts: proc_macro2::TokenStream) -> Seq<TokTree>;

/// The text of an identifier, as `Ident::to_string` gives it (`r#` included
/// for a raw identifier).
pub uninterp spec fn ident_text(id: proc_macro2::Ident) -> Seq<char>;

/// An ASCII identifier that `Ident::new` accepts: a letter or `_` first,
/// then letters, digits and `_`.
pub open spec fn is_plain_ident(s: Seq<char>) -> bool {
    &&& s.len() > 0
    &&& (s[0] == '_' || ('a' <= s[0] && s[0] <= 'z') || ('A' <= s[0] && s[0] <= 'Z'))
    &&& forall|i: int|
        0 <= i < s.len() ==> #[trigger] is_ident_char(s[i])
}

pub open spec fn is_ident_char(c: char) -> bool {
    c == '_' || ('a' <= c && c <= 'z') || ('A' <= c && c <= 'Z') || ('0' <= c && c <= '9')
}

/// The characters that `Punct::new` accepts.
pub open spec fn is_punct_char(c: char) -> bool {
    c == '!' || c == '#' || c == '$' || c == '%' || c == '&' || c == '\'' || c == '*' || c == '+'
        || c == ',' || c == '-' || c == '.' || c == '/' || c == ':' || c == ';' || c == '<'
        || c == '=' || c == '>' || c == '?' || c == '@' || c == '^' || c == '|' || c == '~'
}

/// The identifier as a token tree.
pub open spec fn tok_ident(s: Seq<char>) -> TokTree {
    TokTree::Ident(s)
}

/// A punctuation character that stands alone.
pub open spec fn tok_punct(c: char) -> TokTree {
    TokTree::Punct(c, false)
}

/// The `::` path separator: a joint `:` then a lone one.
pub open spec fn tok_path_sep() -> Seq<TokTree> {
    seq![TokTree::Punct(':', true), TokTree::Punct(':', false)]
}

/// `TokenStream::new`: an empty stream.
#[verifier::external_body]
pub(crate) fn ts_new() -> (res: proc_macro2::TokenStream)
    ensures
        stream_trees(res) == Seq::<TokTree>::empty(),
{
    proc_macro2::TokenStream::new()
}

/// `TokenStream::clone`: the copy holds the same trees.
#[verifier::external_body]
pub(crate) fn ts_clone(ts: &proc_macro2::TokenStream) -> (res: proc_macro2::TokenStream)
    ensures
        stream_trees(res) == stream_trees(*ts),
{
    ts.clone()
}

/// `Extend<TokenStream>::extend` with one stream: its trees are appended.
#[verifier::external_body]
pub(crate) fn ts_append(ts: &mut proc_macro2::TokenStream, more: proc_macro2::TokenStream)
    ensures
        stream_trees(*final(ts)) == stream_trees(*old(ts)) + stream_trees(more),
{
    ts.extend(core::iter::once(more))
}

/// `Ident::new` at the call site, appended as one tree.
#[verifier::external_body]
pub(crate) fn ts_push_ident(ts: &mut proc_macro2::TokenStream, name: &str)
    requires
        is_plain_ident(name@),
    ensures
        stream_trees(*final(ts)) == stream_trees(*old(ts)).push(TokTree::Ident(name@)),
{
    let id = proc_macro2::Ident::new(name, proc_macro2::Span::call_site());
    ts.extend(core::iter::once(proc_macro2::TokenTree::Ident(id)))
}

/// A clone of an existing identifier (its span kept), appended as one tree.
#[verifier::external_body]
pub(crate) fn ts_push_syn_ident(ts: &mut proc_macro2::TokenStream, id: &proc_macro2::Ident)
    ensures
        stream_trees(*final(ts)) == stream_trees(*old(ts)).push(TokTree::Ident(ident_text(*id))),
{
    ts.extend(core::iter::once(proc_macro2::TokenTree::Ident(id.clone())))
}

/// `Punct::new`, appended as one tree; `joint` asks for `Spacing::Joint`.
#[verifier::external_body]
pub(crate) fn ts_push_punct(ts: &mut proc_macro2::TokenStream, c: char, joint: bool)
    requires
        is_punct_char(c),
    ensures
        stream_trees(*final(ts)) == stream_trees(*old(ts)).push(TokTree::Punct(c, joint)),
{
    let spacing = if joint { proc_macro2::Spacing::Joint } else { proc_macro2::Spacing::Alone };
    ts.extend(core::iter::once(proc_macro2::TokenTree::Punct(proc_macro2::Punct::new(c, spacing))))
}

/// `Group::new` around the trees of `inner`, appended as one tree.
#[verifier::external_body]
pub(crate) fn ts_push_group(ts: &mut proc_macro2::TokenStream, delim: Delim, inner: proc_macro2::TokenStream)
    ensures
        stream_trees(*final(ts)) == stream_trees(*old(ts)).push(
            TokTree::Group(delim, stream_trees(inner)),
        ),
{
    let d = match delim {
        Delim::Paren => proc_macro2::Delimiter::Parenthesis,
        Delim::Brace => proc_macro2::Delimiter::Brace,
        Delim::Bracket => proc_macro2::Delimiter::Bracket,
        Delim::Invisible => proc_macro2::Delimiter::None,
    };
    ts.extend(core::iter::once(proc_macro2::TokenTree::Group(proc_macro2::Group::new(d, inner))))
}

/// `Ident::new` at the given span.
#[verifier::external_body]
pub(crate) fn ident_new(name: &str, span: proc_macro2::Span) -> (res: proc_macro2::Ident)
    requires
        is_plain_ident(name@),
    ensures
        ident_text(res) == name@,
{
    proc_macro2::Ident::new(name, span)
}

/// `Span::call_site`.
#[verifier::external_body]
pub(crate) fn call_site() -> (res: proc_macro2::Span) {
    proc_macro2::Span::call_site()
}

} // verus!
