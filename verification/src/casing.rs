//! Handler-name derivation: a type identifier is rendered in snake_case
//! (delegated to the `heck` crate) and suffixed to name its handler.

use vstd::prelude::*;
use vstd::string::StringExecFns;

verus! {

/// The snake_case rendering of `s`.
pub uninterp spec fn snake_of(s: Seq<char>) -> Seq<char>;

/// Relies on heck's `ToSnakeCase` for `str`: the conversion walks the
/// input's characters and depends on them alone.
#[verifier::external_body]
fn to_snake(s: &str) -> (r: String)
    ensures
        r@ == snake_of(s@),
{
    heck::ToSnakeCase::to_snake_case(s)
}

/// Appends the handler-name suffix to an already snake_cased name.
pub fn catcher_suffixed(name: &str) -> (r: String)
    ensures
        r@ == name@ + "_catcher"@,
{
    let mut s: String = name.to_owned();
    s.append("_catcher");
    s
}

/// The generated handler function name for a type identifier: its
/// snake_case rendering with `_catcher` appended.
pub fn snake_case_catcher(ident: &str) -> (r: String)
    ensures
        r@ == snake_of(ident@) + "_catcher"@,
{
    let snake: String = to_snake(ident);
    catcher_suffixed(snake.as_str())
}

} // verus!
