//! Parsing the input of the entity cache derive macros.

use vstd::prelude::*;

verus! {

/// A token tree of the macro input, as the text it prints to.
#[derive(Clone, Debug)]
pub struct Token {
    pub text: String,
}

/// An attribute of the derive input.
#[derive(Debug)]
pub enum DeriveAttribute {
    /// `id_type`, with its token.
    IdType(Token),
}

/// The parsed derive input.
#[derive(Debug)]
pub struct DeriveStream {
    pub attributes: Vec<DeriveAttribute>,
    pub identifier: Option<Token>,
}

/// The token is the `pub` keyword.
pub open spec fn is_pub(token: Token) -> bool {
    token.text@ == "pub"@
}

/// Some token of the stream is the `pub` keyword.
pub open spec fn has_pub(tokens: Seq<Token>) -> bool {
    exists|i: int| 0 <= i < tokens.len() && is_pub(#[trigger] tokens[i])
}

/// A `pub` token at any position of the stream makes the item `pub`.
pub proof fn lemma_pub_anywhere(tokens: Seq<Token>, i: int)
    requires
        0 <= i < tokens.len(),
        tokens[i].text@ == "pub"@,
    ensures
        has_pub(tokens),
{
    assert(is_pub(tokens[i]));
}

/// An item that is not `pub` has no token `pub` at any position.
pub proof fn lemma_no_pub_anywhere(tokens: Seq<Token>)
    requires
        !has_pub(tokens),
    ensures
        forall|i: int| 0 <= i < tokens.len() ==> (#[trigger] tokens[i]).text@ != "pub"@,
{
    assert forall|i: int| 0 <= i < tokens.len() implies (#[trigger] tokens[i]).text@ != "pub"@ by {
        if tokens[i].text@ == "pub"@ {
            lemma_pub_anywhere(tokens, i);
        }
    }
}

/// Whether some token of the stream is the `pub` keyword.
pub fn has_pub_token(tokens: &Vec<Token>) -> (found: bool)
    ensures
        found == has_pub(tokens@),
{
    proof {
        reveal_strlit("pub");
    }
    let keyword = String::from_str("pub");
    let mut i: usize = 0;
    while i < tokens.len()
        invariant
            i <= tokens.len(),
            keyword@ == "pub"@,
            forall|j: int| 0 <= j < i ==> !is_pub(#[trigger] tokens@[j]),
        decreases tokens.len() - i,
    {
        if tokens[i].text.eq(&keyword) {
            assert(is_pub(tokens@[i as int]));
            return true;
        }
        i = i + 1;
    }
    false
}

impl DeriveStream {
    /// The diagnostic for a derive on an item that is not `pub`.
    pub const PUB_REQUIRED: &'static str = "entitycache traits can only be derived on pub items";

    /// An empty stream.
    pub fn new() -> (s: DeriveStream)
        ensures
            s.attributes@.len() == 0,
            s.identifier is None,
    {
        DeriveStream { attributes: Vec::new(), identifier: None }
    }

    /// Parses the derive input. The derive is refused on an item that is not
    /// `pub`: the result is `None`, and the caller emits `PUB_REQUIRED`.
    /// Input with a `pub` token is not parsed yet.
    pub fn parse(tokens: &Vec<Token>) -> (parsed: Option<DeriveStream>)
        requires
            !has_pub(tokens@),
        ensures
            parsed is None,
    {
        let found = has_pub_token(tokens);
        assert(!found);
        None
    }
}

} // verus!
