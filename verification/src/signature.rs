//! Function signatures, seen through the patterns of their parameters, and
//! the rewriting of those patterns that wrapping performs.

use vstd::prelude::*;
use syn::Pat;
use crate::names::{arg_name, has_arg_prefix, lemma_arg_name_injective, lemma_arg_name_is_ident};
use crate::tokens::{ident_text, is_plain_ident, stream_trees, TokTree};

verus! {

#[verifier::external_type_specification]
#[verifier::external_body]
pub struct ExSignature(syn::Signature);

#[verifier::external_type_specification]
#[verifier::external_body]
pub struct ExFnArg(syn::FnArg);

#[verifier::external_type_specification]
#[verifier::external_body]
pub struct ExPat(syn::Pat);

/// How a parameter of a signature binds its value.
pub enum ArgShape {
    /// `self`, `&self`, `&mut self`, `mut self`.
    Receiver,
    /// A typed parameter whose pattern is an identifier (`name: T`,
    /// `mut name: T`, `self: T`, ...), seen by the identifier's text.
    Ident(Seq<char>),
    /// A typed parameter whose pattern is `_`.
    Wild,
    /// A typed parameter with any other pattern (tuple, struct, ...).
    Other,
}

/// A pattern seen by its variant: an identifier pattern, with its
/// identifier; `_`; any other pattern.
pub enum PatCase {
    Ident(proc_macro2::Ident),
    Wild,
    Other,
}

/// `ArgShape` with the identifier's text held in a `String`.
pub enum ArgPat {
    Receiver,
    Ident(String),
    Wild,
    Other,
}

impl View for ArgPat {
    type V = ArgShape;

    open spec fn view(&self) -> ArgShape {
        match self {
            ArgPat::Receiver => ArgShape::Receiver,
            ArgPat::Ident(s) => ArgShape::Ident(s@),
            ArgPat::Wild => ArgShape::Wild,
            ArgPat::Other => ArgShape::Other,
        }
    }
}

/// The shape of a pattern: an identifier pattern by its identifier's text,
/// `_`, or any other pattern.
pub uninterp spec fn pat_shape(p: syn::Pat) -> ArgShape;

/// What the `inputs` list of a signature holds: the shape of each parameter, in order.
pub uninterp spec fn sig_inputs(sig: syn::Signature) -> Seq<ArgShape>;

/// The parameters of a signature, in order.
pub uninterp spec fn sig_args(sig: syn::Signature) -> Seq<syn::FnArg>;

/// The text of the function's name in a signature.
pub uninterp spec fn fn_name(sig: syn::Signature) -> Seq<char>;

/// A signature with the identifier of each identifier pattern left out, and
/// every other pattern of a typed parameter seen as a bare identifier pattern
/// (no attributes, `ref`, `mut` or sub-pattern): everything that renaming a
/// parameter keeps, `ref`, `mut` and sub-patterns of renamed identifiers
/// included.
pub uninterp spec fn sig_frame(sig: syn::Signature) -> syn::Signature;

/// A signature with the pattern of every typed parameter left out: its name,
/// generics, qualifiers, return type, receivers and parameter types and
/// attributes.
pub uninterp spec fn sig_outline(sig: syn::Signature) -> syn::Signature;

/// The token trees that `ToTokens` prints for a signature.
pub uninterp spec fn sig_tokens(sig: syn::Signature) -> Seq<TokTree>;

/// The text `self`.
pub open spec fn self_name() -> Seq<char> {
    seq!['s', 'e', 'l', 'f']
}

/// A parameter `self: T` can only be forwarded from within a trait or an
/// `impl` block: outside of one (`scoped` false) it stops the wrapping.
pub open spec fn blocks_wrapping(shape: ArgShape, scoped: bool) -> bool {
    !scoped && shape == ArgShape::Ident(self_name())
}

/// Rewriting leaves a parameter of this shape as it is: a receiver, or an
/// identifier that does not start with `arg_`.
pub open spec fn kept_by_rewrite(shape: ArgShape) -> bool {
    match shape {
        ArgShape::Receiver => true,
        ArgShape::Ident(name) => !has_arg_prefix(name),
        _ => false,
    }
}

/// Wrapping leaves the parameter at position `j` as it is: it is at or after
/// the one that stops the wrapping, or rewriting keeps it.
pub open spec fn left_as_is(inputs: Seq<ArgShape>, scoped: bool, j: int) -> bool {
    !clear_up_to(inputs, scoped, j) || kept_by_rewrite(inputs[j])
}

/// The helper's declaration keeps a parameter of this shape as it is: a
/// receiver, or `self: T`.
pub open spec fn kept_by_blanking(shape: ArgShape) -> bool {
    shape is Receiver || shape == ArgShape::Ident(self_name())
}

/// No parameter up to position `i` (included) stops the wrapping.
pub open spec fn clear_up_to(inputs: Seq<ArgShape>, scoped: bool, i: int) -> bool {
    forall|j: int| 0 <= j <= i ==> !#[trigger] blocks_wrapping(inputs[j], scoped)
}

/// No parameter stops the wrapping.
pub open spec fn wrappable(inputs: Seq<ArgShape>, scoped: bool) -> bool {
    forall|j: int| 0 <= j < inputs.len() ==> !#[trigger] blocks_wrapping(inputs[j], scoped)
}

/// The new shape of the parameter at position `n`: an identifier that
/// starts with `arg_` becomes `arg_{n}`; `_` and any pattern that is not an
/// identifier become `arg_{n}`; receivers and other identifiers stay.
pub open spec fn rewrite_arg(shape: ArgShape, n: nat) -> ArgShape {
    match shape {
        ArgShape::Receiver => ArgShape::Receiver,
        ArgShape::Ident(name) => if has_arg_prefix(name) {
            ArgShape::Ident(arg_name(n))
        } else {
            ArgShape::Ident(name)
        },
        _ => ArgShape::Ident(arg_name(n)),
    }
}

/// The parameters after wrapping: each one is rewritten, up to the first one
/// that stops the wrapping; that one and those after it stay as they were.
pub open spec fn rewrite_inputs(inputs: Seq<ArgShape>, scoped: bool) -> Seq<ArgShape> {
    Seq::new(
        inputs.len(),
        |i: int|
            if clear_up_to(inputs, scoped, i) {
                rewrite_arg(inputs[i], i as nat)
            } else {
                inputs[i]
            },
    )
}

/// The name by which the wrapped call passes a parameter on: `self` for a
/// receiver, the identifier for an identifier pattern.
pub open spec fn call_name(shape: ArgShape) -> Seq<char> {
    match shape {
        ArgShape::Receiver => self_name(),
        ArgShape::Ident(name) => name,
        _ => Seq::empty(),
    }
}

/// The parameter's shape in the helper trait's bodiless declaration: `_`,
/// except for receivers and `self: T`, which stay.
pub open spec fn blank_arg(shape: ArgShape) -> ArgShape {
    match shape {
        ArgShape::Receiver => ArgShape::Receiver,
        ArgShape::Ident(name) => if name == self_name() {
            ArgShape::Ident(name)
        } else {
            ArgShape::Wild
        },
        _ => ArgShape::Wild,
    }
}

/// Within a trait or an `impl` block every signature can be wrapped: only a
/// free function can fail to be.
pub proof fn lemma_scoped_always_wrappable(inputs: Seq<ArgShape>)
    ensures
        wrappable(inputs, true),
{
}

/// Rewriting twice is rewriting once: a signature that wrapping has
/// rewritten is left as it is by wrapping it again.
pub proof fn lemma_rewrite_idempotent(inputs: Seq<ArgShape>, scoped: bool)
    ensures
        rewrite_inputs(rewrite_inputs(inputs, scoped), scoped) == rewrite_inputs(inputs, scoped),
        wrappable(rewrite_inputs(inputs, scoped), scoped) == wrappable(inputs, scoped),
{
    let r = rewrite_inputs(inputs, scoped);
    assert forall|i: int| 0 <= i < inputs.len() implies #[trigger] blocks_wrapping(r[i], scoped)
        == blocks_wrapping(inputs[i], scoped) by {
        lemma_rewrite_arg_blocks(inputs[i], i as nat, scoped);
    }
    assert forall|i: int| 0 <= i < inputs.len() implies clear_up_to(r, scoped, i)
        == clear_up_to(inputs, scoped, i) by {
        if clear_up_to(inputs, scoped, i) {
            assert forall|j: int| 0 <= j <= i implies !#[trigger] blocks_wrapping(r[j], scoped) by {
                assert(blocks_wrapping(r[j], scoped) == blocks_wrapping(inputs[j], scoped));
            }
        } else {
            let j = choose|j: int| 0 <= j <= i && #[trigger] blocks_wrapping(inputs[j], scoped);
            assert(blocks_wrapping(r[j], scoped));
        }
    }
    assert forall|i: int| 0 <= i < inputs.len() implies #[trigger] rewrite_inputs(r, scoped)[i]
        == r[i] by {
        if clear_up_to(inputs, scoped, i) {
            lemma_arg_name_is_ident(i as nat);
        }
    }
    assert(rewrite_inputs(r, scoped) =~= r);
    if wrappable(inputs, scoped) {
        assert forall|j: int| 0 <= j < r.len() implies !#[trigger] blocks_wrapping(r[j], scoped) by {
            assert(blocks_wrapping(r[j], scoped) == blocks_wrapping(inputs[j], scoped));
        }
    }
    if wrappable(r, scoped) {
        assert forall|j: int| 0 <= j < inputs.len() implies !#[trigger] blocks_wrapping(inputs[j], scoped) by {
            assert(blocks_wrapping(r[j], scoped) == blocks_wrapping(inputs[j], scoped));
        }
    }
}

/// Rewriting a parameter neither creates nor removes a `self: T` that stops wrapping.
pub proof fn lemma_rewrite_arg_blocks(shape: ArgShape, n: nat, scoped: bool)
    ensures
        blocks_wrapping(rewrite_arg(shape, n), scoped) == blocks_wrapping(shape, scoped),
{
    lemma_arg_name_is_ident(n);
    if shape == ArgShape::Ident(self_name()) {
        assert(!has_arg_prefix(self_name())) by {
            if has_arg_prefix(self_name()) {
                assert(self_name().subrange(0, 4)[0] == 'a');
            }
        }
    }
    if let ArgShape::Ident(name) = shape {
        if has_arg_prefix(name) {
            assert(arg_name(n) != self_name()) by {
                assert(self_name()[0] == 's');
                assert(arg_name(n)[0] == 'a');
            }
        }
    } else if shape != ArgShape::Receiver {
        assert(arg_name(n) != self_name()) by {
            assert(self_name()[0] == 's');
            assert(arg_name(n)[0] == 'a');
        }
    }
}

/// After a wrapping that went through, every parameter binds its value to a
/// name: each one is a receiver or an identifier, and every identifier that
/// starts with `arg_` is `arg_{n}` for its own position `n`.
pub proof fn lemma_rewritten_names(inputs: Seq<ArgShape>, scoped: bool)
    requires
        wrappable(inputs, scoped),
    ensures
        forall|i: int|
            0 <= i < inputs.len() ==> (#[trigger] rewrite_inputs(inputs, scoped)[i] is Receiver
                || rewrite_inputs(inputs, scoped)[i] is Ident),
        forall|i: int|
            0 <= i < inputs.len() && #[trigger] rewrite_inputs(inputs, scoped)[i] is Ident
                && has_arg_prefix(rewrite_inputs(inputs, scoped)[i]->Ident_0)
                ==> rewrite_inputs(inputs, scoped)[i] == ArgShape::Ident(arg_name(i as nat)),
{
    let r = rewrite_inputs(inputs, scoped);
    assert forall|i: int| 0 <= i < inputs.len() implies (#[trigger] r[i] is Receiver || r[i] is Ident) && (r[i] is Ident && has_arg_prefix(r[i]->Ident_0) ==> r[i] == ArgShape::Ident(arg_name(i as nat))) by {
        assert(clear_up_to(inputs, scoped, i));
    }
}

/// After a wrapping that went through, no two parameters bind the same name
/// when one of them was named by the wrapping (its name starts with `arg_`):
/// the names that wrapping gives never collide with each other nor with the
/// names that the signature already had.
pub proof fn lemma_given_names_distinct(inputs: Seq<ArgShape>, scoped: bool, i: int, j: int)
    requires
        wrappable(inputs, scoped),
        0 <= i < inputs.len(),
        0 <= j < inputs.len(),
        i != j,
        rewrite_inputs(inputs, scoped)[i] is Ident,
        has_arg_prefix(rewrite_inputs(inputs, scoped)[i]->Ident_0),
    ensures
        rewrite_inputs(inputs, scoped)[j] != rewrite_inputs(inputs, scoped)[i],
{
    lemma_rewritten_names(inputs, scoped);
    let r = rewrite_inputs(inputs, scoped);
    assert(r[i] == ArgShape::Ident(arg_name(i as nat)));
    if r[j] == r[i] {
        assert(r[j] == ArgShape::Ident(arg_name(j as nat)));
        lemma_arg_name_injective(i as nat, j as nat);
    }
}

/// `Signature::clone`: the derived clone, equal to the value cloned.
#[verifier::external_body]
pub(crate) fn sig_clone(sig: &syn::Signature) -> (res: syn::Signature)
    ensures
        res == *sig,
{
    sig.clone()
}

/// `Punctuated::len` on the signature's parameters.
#[verifier::external_body]
pub(crate) fn sig_input_count(sig: &syn::Signature) -> (res: usize)
    ensures
        res == sig_inputs(*sig).len(),
        res == sig_args(*sig).len(),
{
    sig.inputs.len()
}

/// The pattern of the parameter at position `i`, where it is a typed
/// parameter (`FnArg::Typed`).
#[verifier::external_body]
pub(crate) fn sig_typed_pat(sig: &syn::Signature, i: usize) -> (res: Option<&syn::Pat>)
    requires
        i < sig_inputs(*sig).len(),
    ensures
        res is None <==> sig_inputs(*sig)[i as int] is Receiver,
        res matches Some(p) ==> pat_shape(*p) == sig_inputs(*sig)[i as int],
{
    match &sig.inputs[i] {
        syn::FnArg::Receiver(_) => None,
        syn::FnArg::Typed(pt) => Some(&*pt.pat),
    }
}

/// A pattern told apart by its variant: an identifier pattern (a clone of
/// its identifier), `_`, or any other variant.
#[verifier::external_body]
pub(crate) fn pat_case(p: &syn::Pat) -> (res: PatCase)
    ensures
        match res {
            PatCase::Ident(id) => pat_shape(*p) == ArgShape::Ident(ident_text(id)),
            PatCase::Wild => pat_shape(*p) == ArgShape::Wild,
            PatCase::Other => pat_shape(*p) == ArgShape::Other,
        },
{
    match p {
        Pat::Ident(pi) => PatCase::Ident(pi.ident.clone()),
        Pat::Wild(_) => PatCase::Wild,
        Pat::Box(_) | Pat::Lit(_) | Pat::Macro(_) | Pat::Or(_) | Pat::Path(_) | Pat::Range(_)
        | Pat::Reference(_) | Pat::Rest(_) | Pat::Slice(_) | Pat::Struct(_) | Pat::Tuple(_)
        | Pat::TupleStruct(_) | Pat::Type(_) | Pat::Verbatim(_) => PatCase::Other,
        // `Pat` is non-exhaustive: a variant added later is no identifier either
        _ => PatCase::Other,
    }
}

/// `Ident::to_string`.
#[verifier::external_body]
pub(crate) fn ident_string(id: &proc_macro2::Ident) -> (res: String)
    ensures
        res@ == ident_text(*id),
{
    id.to_string()
}

/// The shape of the parameter at position `i`.
pub(crate) fn sig_input_pat(sig: &syn::Signature, i: usize) -> (res: ArgPat)
    requires
        i < sig_inputs(*sig).len(),
    ensures
        res@ == sig_inputs(*sig)[i as int],
{
    match sig_typed_pat(sig, i) {
        None => ArgPat::Receiver,
        Some(p) => match pat_case(p) {
            PatCase::Ident(id) => ArgPat::Ident(ident_string(&id)),
            PatCase::Wild => ArgPat::Wild,
            PatCase::Other => ArgPat::Other,
        },
    }
}

/// Replaces the identifier of the identifier pattern at position `i` by a new
/// identifier at the call site; `ref`, `mut`, a sub-pattern and the rest of
/// the signature stay.
#[verifier::external_body]
pub(crate) fn sig_rename_input(sig: &mut syn::Signature, i: usize, name: &str)
    requires
        i < sig_inputs(*old(sig)).len(),
        sig_inputs(*old(sig))[i as int] is Ident,
        is_plain_ident(name@),
    ensures
        sig_inputs(*final(sig)) == sig_inputs(*old(sig)).update(i as int, ArgShape::Ident(name@)),
        fn_name(*final(sig)) == fn_name(*old(sig)),
        sig_frame(*final(sig)) == sig_frame(*old(sig)),
        sig_outline(*final(sig)) == sig_outline(*old(sig)),
        sig_args(*final(sig)).len() == sig_args(*old(sig)).len(),
        forall|j: int| 0 <= j < sig_args(*old(sig)).len() && j != i ==> #[trigger] sig_args(*final(sig))[j]
            == sig_args(*old(sig))[j],
{
    if let syn::FnArg::Typed(pt) = &mut sig.inputs[i] {
        if let syn::Pat::Ident(p) = &mut *pt.pat {
            p.ident = proc_macro2::Ident::new(name, proc_macro2::Span::call_site());
        }
    }
}

/// Replaces the pattern of the typed parameter at position `i` by a bare
/// identifier pattern, at the call site; the rest of the signature stays.
#[verifier::external_body]
pub(crate) fn sig_replace_input_pat(sig: &mut syn::Signature, i: usize, name: &str)
    requires
        i < sig_inputs(*old(sig)).len(),
        sig_inputs(*old(sig))[i as int] is Wild || sig_inputs(*old(sig))[i as int] is Other,
        is_plain_ident(name@),
    ensures
        sig_inputs(*final(sig)) == sig_inputs(*old(sig)).update(i as int, ArgShape::Ident(name@)),
        fn_name(*final(sig)) == fn_name(*old(sig)),
        sig_frame(*final(sig)) == sig_frame(*old(sig)),
        sig_outline(*final(sig)) == sig_outline(*old(sig)),
        sig_args(*final(sig)).len() == sig_args(*old(sig)).len(),
        forall|j: int| 0 <= j < sig_args(*old(sig)).len() && j != i ==> #[trigger] sig_args(*final(sig))[j]
            == sig_args(*old(sig))[j],
{
    if let syn::FnArg::Typed(pt) = &mut sig.inputs[i] {
        let ident = proc_macro2::Ident::new(name, proc_macro2::Span::call_site());
        let pat = syn::PatIdent { attrs: Vec::new(), by_ref: None, mutability: None, ident, subpat: None };
        *pt.pat = syn::Pat::Ident(pat);
    }
}

/// Replaces the pattern of the typed parameter at position `i` by `_`; the
/// rest of the signature stays.
#[verifier::external_body]
pub(crate) fn sig_blank_input(sig: &mut syn::Signature, i: usize)
    requires
        i < sig_inputs(*old(sig)).len(),
        !(sig_inputs(*old(sig))[i as int] is Receiver),
    ensures
        sig_inputs(*final(sig)) == sig_inputs(*old(sig)).update(i as int, ArgShape::Wild),
        fn_name(*final(sig)) == fn_name(*old(sig)),
        sig_outline(*final(sig)) == sig_outline(*old(sig)),
        sig_args(*final(sig)).len() == sig_args(*old(sig)).len(),
        forall|j: int| 0 <= j < sig_args(*old(sig)).len() && j != i ==> #[trigger] sig_args(*final(sig))[j]
            == sig_args(*old(sig))[j],
{
    if let syn::FnArg::Typed(pt) = &mut sig.inputs[i] {
        let wild = syn::PatWild { attrs: Vec::new(), underscore_token: Default::default() };
        *pt.pat = syn::Pat::Wild(wild);
    }
}

/// The span of the `self` token of the parameter at position `i`, where it
/// is a receiver (`FnArg::Receiver`).
#[verifier::external_body]
pub(crate) fn sig_receiver_span(sig: &syn::Signature, i: usize) -> (res: Option<proc_macro2::Span>)
    requires
        i < sig_inputs(*sig).len(),
    ensures
        res is Some <==> sig_inputs(*sig)[i as int] is Receiver,
{
    match &sig.inputs[i] {
        syn::FnArg::Receiver(r) => Some(r.self_token.span),
        syn::FnArg::Typed(_) => None,
    }
}

/// A clone of the identifier of the parameter at position `i`, where its
/// pattern is an identifier pattern.
pub(crate) fn sig_input_ident(sig: &syn::Signature, i: usize) -> (res: Option<proc_macro2::Ident>)
    requires
        i < sig_inputs(*sig).len(),
    ensures
        res is Some <==> sig_inputs(*sig)[i as int] is Ident,
        res matches Some(id) ==> ArgShape::Ident(ident_text(id)) == sig_inputs(*sig)[i as int],
{
    match sig_typed_pat(sig, i) {
        None => None,
        Some(p) => match pat_case(p) {
            PatCase::Ident(id) => Some(id),
            PatCase::Wild => None,
            PatCase::Other => None,
        },
    }
}

/// A clone of the function's name.
#[verifier::external_body]
pub(crate) fn sig_name(sig: &syn::Signature) -> (res: proc_macro2::Ident)
    ensures
        ident_text(res) == fn_name(*sig),
{
    sig.ident.clone()
}

/// `ToTokens::to_token_stream` of the signature.
#[verifier::external_body]
pub(crate) fn sig_stream(sig: &syn::Signature) -> (res: proc_macro2::TokenStream)
    ensures
        stream_trees(res) == sig_tokens(*sig),
{
    quote::ToTokens::to_token_stream(sig)
}

/// Whether `name` is `self`.
pub fn is_self_name(name: &str) -> (res: bool)
    ensures
        res == (name@ == self_name()),
{
    if name.unicode_len() != 4 {
        return false;
    }
    let res = name.get_char(0) == 's' && name.get_char(1) == 'e' && name.get_char(2) == 'l'
        && name.get_char(3) == 'f';
    proof {
        if res {
            assert(name@ =~= self_name());
        }
    }
    res
}

/// The signature of the helper trait's bodiless declaration: every typed
/// parameter's pattern becomes `_`, except `self: T`.
pub fn blank_signature(sig: &syn::Signature) -> (res: syn::Signature)
    ensures
        sig_inputs(res) == sig_inputs(*sig).map_values(|s: ArgShape| blank_arg(s)),
        fn_name(res) == fn_name(*sig),
        sig_outline(res) == sig_outline(*sig),
        sig_args(res).len() == sig_args(*sig).len(),
        forall|j: int|
            0 <= j < sig_args(*sig).len() && kept_by_blanking(#[trigger] sig_inputs(*sig)[j]) ==> sig_args(res)[j]
                == sig_args(*sig)[j],
{
    let mut out = sig_clone(sig);
    let n = sig_input_count(&out);
    let ghost inputs = sig_inputs(*sig);
    let mut i: usize = 0;
    while i < n
        invariant
            n == inputs.len(),
            i <= n,
            sig_inputs(out).len() == n,
            fn_name(out) == fn_name(*sig),
            sig_outline(out) == sig_outline(*sig),
            sig_args(out).len() == n,
            n == sig_args(*sig).len(),
            forall|j: int| 0 <= j < n && (i <= j || kept_by_blanking(inputs[j])) ==> #[trigger] sig_args(out)[j] == sig_args(*sig)[j],
            forall|j: int| 0 <= j < i ==> sig_inputs(out)[j] == blank_arg(#[trigger] inputs[j]),
            forall|j: int| i <= j < n ==> sig_inputs(out)[j] == #[trigger] inputs[j],
        decreases n - i,
    {
        let pat = sig_input_pat(&out, i);
        let blank = match &pat {
            ArgPat::Receiver => false,
            ArgPat::Ident(name) => !is_self_name(name.as_str()),
            _ => true,
        };
        if blank {
            sig_blank_input(&mut out, i);
        }
        i += 1;
    }
    assert(sig_inputs(out) =~= inputs.map_values(|s: ArgShape| blank_arg(s)));
    out
}

} // verus!
