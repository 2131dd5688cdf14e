# func_wrap

Helper for procedural macro authors that wish to duplicate a received
function inside its own body, so as to wrap it with a prologue, an epilogue,
caching, etc.

`func_wrap` rewrites the parameters of a signature so that each one binds a
name (`_` and destructuring patterns become `arg_{n}`, and so do identifiers
that start with `arg_`), and records the call that forwards those names to a
copy of the function. The expansion of that call defines the copy — as a
nested function, or through a helper trait for default methods and methods
of `impl` blocks — and calls it. `parse_and_func_wrap_with` does this for a
free function, each default method of a trait, or each method of an `impl`
block, and hands every method to a callback; `attr` is an attribute built on
it that replaces each body by the expansion.

Layout:

- `src/` — the library, verified: `names` (the `arg_{n}` names),
  `signature` (parameters and their rewriting, with its laws), `wrap`
  (`func_wrap`), `expand` (the expansion's tokens), `item` (items and
  `attr`), `errors` and `tokens` (syn errors and token streams as models).
- `tests/` — the library's tests.
- `app/` — `ToTokens` for the wrapped call, and `attr` on the compiler's
  `proc_macro::TokenStream`.

The helper trait of an expansion is named `Helper`. A default method's copy
is reached through `Self` (`<Self as Helper<..>>::f`), a method of an `impl`
block's copy through the implementing type (`<Type as Helper<..>>::f`).
