//! Registration tokens: what counts as one, and whether a submitted token
//! is among them.

use vstd::prelude::*;
use crate::text::{same_text, split_ascii_whitespace, texts, trim, trimmed, words};

verus! {

/// The view of an optional string slice.
pub open spec fn opt_str(o: Option<&str>) -> Option<Seq<char>> {
    match o {
        Some(s) => Some(s@),
        None => None,
    }
}

/// The tokens in force: the words of the token file, in order, then the
/// configured token as it stands.
pub open spec fn token_list(file: Option<Seq<char>>, fixed: Option<Seq<char>>) -> Seq<Seq<char>> {
    let listed = match file {
        Some(text) => words(text),
        None => Seq::empty(),
    };
    match fixed {
        Some(token) => listed.push(token),
        None => listed,
    }
}

/// A submitted token is accepted when, without the whitespace around it, it
/// is character for character one of the tokens in force.
pub open spec fn token_accepted(tokens: Seq<Seq<char>>, supplied: Seq<char>) -> bool {
    tokens.contains(trimmed(supplied))
}

/// Collects the tokens in force from the text of the token file and the
/// configured token.
pub fn collect_tokens(file: Option<&str>, fixed: Option<&str>) -> (tokens: Vec<String>)
    ensures
        texts(tokens@) == token_list(opt_str(file), opt_str(fixed)),
{
    let mut tokens = match file {
        Some(text) => split_ascii_whitespace(text),
        None => {
            let none: Vec<String> = Vec::new();
            assert(texts(none@) =~= Seq::<Seq<char>>::empty());
            none
        },
    };
    match fixed {
        Some(token) => {
            let owned = token.to_owned();
            assert(texts(tokens@.push(owned)) =~= texts(tokens@).push(token@));
            tokens.push(owned);
        },
        None => {},
    }
    tokens
}

/// Whether a submitted token is accepted.
pub fn is_token_accepted(tokens: &Vec<String>, supplied: &str) -> (r: bool)
    ensures
        r == token_accepted(texts(tokens@), supplied@),
{
    let wanted = trim(supplied);
    let mut i: usize = 0;
    while i < tokens.len()
        invariant
            0 <= i <= tokens.len(),
            wanted@ == trimmed(supplied@),
            forall|k: int| 0 <= k < i ==> texts(tokens@)[k] != wanted@,
        decreases tokens.len() - i,
    {
        if same_text(tokens[i].as_str(), wanted) {
            assert(texts(tokens@)[i as int] == wanted@);
            return true;
        }
        i += 1;
    }
    false
}

} // verus!
