//! Syn errors, and the `compile_error!` invocations that report them.

use vstd::prelude::*;
use crate::tokens::{stream_trees, tok_ident, tok_punct, Delim, TokTree};

verus! {

#[verifier::external_type_specification]
#[verifier::external_body]
pub struct ExError(syn::Error);

/// The messages that a syn error holds, in order.
pub uninterp spec fn error_messages(e: syn::Error) -> Seq<Seq<char>>;

/// The text of `Literal::string(text)`: the text as a string literal, in
/// double quotes, escaped.
pub uninterp spec fn string_literal(text: Seq<char>) -> Seq<char>;

/// `compile_error! { "message" }`, with the message as a string literal.
pub open spec fn compile_error_call(literal: Seq<char>) -> Seq<TokTree> {
    seq![
        tok_ident("compile_error"@),
        tok_punct('!'),
        TokTree::Group(Delim::Brace, seq![TokTree::Literal(literal)]),
    ]
}

/// One `compile_error!` invocation per message, in order.
pub open spec fn compile_error_calls(literals: Seq<Seq<char>>) -> Seq<TokTree>
    decreases literals.len(),
{
    if literals.len() == 0 {
        Seq::empty()
    } else {
        compile_error_calls(literals.drop_last()) + compile_error_call(literals.last())
    }
}

/// The report of an error: one `compile_error!` invocation per message, in order.
pub open spec fn error_report(e: syn::Error) -> Seq<TokTree> {
    compile_error_calls(error_messages(e).map_values(|m: Seq<char>| string_literal(m)))
}

/// The report of an error with one message.
pub open spec fn message_report(message: Seq<char>) -> Seq<TokTree> {
    compile_error_calls(seq![string_literal(message)])
}

/// An error with the one message `message` reports it.
pub proof fn lemma_message_report(e: syn::Error, message: Seq<char>)
    requires
        error_messages(e) == seq![message],
    ensures
        error_report(e) == message_report(message),
{
    assert(error_messages(e).map_values(|m: Seq<char>| string_literal(m)) =~= seq![string_literal(message)]);
}

/// Tokens that report errors: one `compile_error!` invocation or more.
pub open spec fn is_error_report(e: Seq<TokTree>) -> bool {
    exists|literals: Seq<Seq<char>>| literals.len() >= 1 && e == compile_error_calls(literals)
}

/// A report of errors starts with the identifier `compile_error`.
pub proof fn lemma_error_report_start(e: Seq<TokTree>)
    requires
        is_error_report(e),
    ensures
        e.len() > 0,
        e[0] == tok_ident("compile_error"@),
{
    let literals = choose|literals: Seq<Seq<char>>|
        literals.len() >= 1 && e == compile_error_calls(literals);
    lemma_calls_start(literals);
}

proof fn lemma_calls_start(literals: Seq<Seq<char>>)
    requires
        literals.len() >= 1,
    ensures
        compile_error_calls(literals).len() >= 3,
        compile_error_calls(literals)[0] == tok_ident("compile_error"@),
    decreases literals.len(),
{
    let rest = compile_error_calls(literals.drop_last());
    let last = compile_error_call(literals.last());
    if literals.len() > 1 {
        lemma_calls_start(literals.drop_last());
        assert((rest + last)[0] == rest[0]);
    } else {
        assert(rest =~= Seq::<TokTree>::empty());
        assert((rest + last)[0] == last[0]);
    }
}

/// `Error::to_compile_error`: each message of the error, in order, becomes
/// `compile_error! { "message" }` (the `!` alone, the message as
/// `Literal::string` makes it); a syn error holds one message or more.
#[verifier::external_body]
pub(crate) fn error_stream(e: &syn::Error) -> (res: proc_macro2::TokenStream)
    ensures
        stream_trees(res) == compile_error_calls(
            error_messages(*e).map_values(|m: Seq<char>| string_literal(m)),
        ),
        is_error_report(stream_trees(res)),
{
    e.to_compile_error()
}

/// `Error::new` with one message.
#[verifier::external_body]
pub(crate) fn error_new(span: proc_macro2::Span, message: &str) -> (res: syn::Error)
    ensures
        error_messages(res) == seq![message@],
{
    syn::Error::new(span, message)
}

} // verus!
