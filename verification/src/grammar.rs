//! The flat invocation grammar: a token sequence naming the keywords
//! `GUTS`, `PURE` and `YIELD`, each immediately followed by one identifier.
//! The parser scans the whole sequence once per keyword (so the keywords
//! may come in any order) and records the identifier immediately following
//! the first bound occurrence of each; it fails only where a keyword is
//! never followed by an identifier.

use vstd::prelude::*;

use crate::model::{GenError, GenerationRequest, Kw, Token};

verus! {

/// The identifier of `t`, where `t` is an identifier token.
pub open spec fn spec_token_ident(t: Token) -> Seq<char> {
    match t {
        Token::Ident(s) => s@,
        _ => Seq::empty(),
    }
}

/// The identifier immediately following the first occurrence of keyword
/// `kw` that an identifier does follow, if any.
pub open spec fn spec_find_binding(tokens: Seq<Token>, kw: Kw) -> Option<Seq<char>>
    decreases tokens.len(),
{
    if tokens.len() == 0 {
        None
    } else if tokens[0] matches Token::Keyword(k) && k == kw && tokens.len() >= 2
        && tokens[1] matches Token::Ident(_) {
        Some(spec_token_ident(tokens[1]))
    } else {
        spec_find_binding(tokens.drop_first(), kw)
    }
}

/// Whether every keyword of the grammar is bound in `tokens`.
pub open spec fn spec_all_bound(tokens: Seq<Token>) -> bool {
    &&& spec_find_binding(tokens, Kw::Guts) is Some
    &&& spec_find_binding(tokens, Kw::Pure) is Some
    &&& spec_find_binding(tokens, Kw::Yield) is Some
}

/// Scans `tokens` for the first occurrence of `kw` that is immediately
/// followed by an identifier, and returns that identifier.
fn find_binding(tokens: &Vec<Token>, kw: Kw) -> (r: Option<String>)
    ensures
        match r {
            Some(s) => spec_find_binding(tokens@, kw) == Some(s@),
            None => spec_find_binding(tokens@, kw) is None,
        },
{
    let n: usize = tokens.len();
    let mut i: usize = 0;
    proof {
        assert(tokens@.skip(0) =~= tokens@);
    }
    while i < n
        invariant
            i <= n,
            n == tokens@.len(),
            spec_find_binding(tokens@, kw) == spec_find_binding(tokens@.skip(i as int), kw),
        decreases n - i,
    {
        let hit: bool = match &tokens[i] {
            Token::Keyword(k) => *k == kw,
            _ => false,
        };
        if hit && i + 1 < n {
            match &tokens[i + 1] {
                Token::Ident(s) => {
                    return Some(s.clone());
                },
                _ => {},
            }
        }
        proof {
            assert(tokens@.skip(i as int).drop_first() =~= tokens@.skip(i as int + 1));
            if i + 1 < n {
                assert(tokens@.skip(i as int)[1] == tokens@[i as int + 1]);
            }
        }
        i = i + 1;
    }
    proof {
        assert(tokens@.skip(n as int) =~= Seq::<Token>::empty());
    }
    None
}

/// Parses a flat token sequence into a generation request. Succeeds if and
/// only if each of `GUTS`, `PURE` and `YIELD` is somewhere immediately
/// followed by an identifier; the first such occurrence of each keyword
/// binds it. A sequence that leaves any keyword unbound is malformed.
pub fn parse_request(tokens: &Vec<Token>) -> (r: Result<GenerationRequest, GenError>)
    ensures
        r is Ok <==> spec_all_bound(tokens@),
        r matches Ok(req) ==> {
            &&& Some(req.guts_ident@) == spec_find_binding(tokens@, Kw::Guts)
            &&& Some(req.pure_ident@) == spec_find_binding(tokens@, Kw::Pure)
            &&& Some(req.yield_ident@) == spec_find_binding(tokens@, Kw::Yield)
        },
        r matches Err(e) ==> e == GenError::MalformedGrammar,
{
    let guts = match find_binding(tokens, Kw::Guts) {
        Some(s) => s,
        None => {
            return Err(GenError::MalformedGrammar);
        },
    };
    let pure_id = match find_binding(tokens, Kw::Pure) {
        Some(s) => s,
        None => {
            return Err(GenError::MalformedGrammar);
        },
    };
    let yield_id = match find_binding(tokens, Kw::Yield) {
        Some(s) => s,
        None => {
            return Err(GenError::MalformedGrammar);
        },
    };
    Ok(GenerationRequest { guts_ident: guts, pure_ident: pure_id, yield_ident: yield_id })
}

} // verus!
