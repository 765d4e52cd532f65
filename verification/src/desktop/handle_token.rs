//! Handle tokens: the names by which a client tells its requests apart.
//!
//! The client picks the token before it makes a call, so that it can work
//! out where the portal will announce the result and listen there first.

use vstd::prelude::*;
use vstd::string::*;

use crate::error::Error;
use crate::text::{
    decimal, is_digit, is_path_segment, is_segment_char, is_segment_text,
    lemma_decimal_injective, lemma_decimal_is_digits, push_decimal,
};

verus! {

/// The grammar of a handle token: one element of an object path that does
/// not begin with a digit.
pub open spec fn is_token(s: Seq<char>) -> bool {
    is_path_segment(s) && !is_digit(s[0])
}

/// What every generated token begins with.
pub open spec fn token_prefix() -> Seq<char> {
    seq!['a', 's', 'h', 'p', 'd', '_']
}

/// The token that a generator hands out when its counter stands at `counter`.
pub open spec fn generated_text(counter: u64) -> Seq<char> {
    token_prefix() + decimal(counter as nat)
}

/// The counter after `counter`; after the largest value it starts over.
pub open spec fn next_counter(counter: u64) -> u64 {
    if counter == u64::MAX {
        0
    } else {
        (counter + 1) as u64
    }
}

/// A token that identifies one request. Its text always follows `is_token`.
#[derive(Debug, PartialEq, Eq)]
pub struct HandleToken {
    text: String,
}

impl View for HandleToken {
    type V = Seq<char>;

    closed spec fn view(&self) -> Seq<char> {
        self.text@
    }
}

impl Clone for HandleToken {
    fn clone(&self) -> (r: Self)
        ensures
            r@ == self@,
    {
        proof {
            use_type_invariant(self);
        }
        HandleToken { text: self.text.clone() }
    }
}

impl HandleToken {
    #[verifier::type_invariant]
    spec fn well_formed(self) -> bool {
        is_token(self.text@)
    }

    /// Takes a token that the caller chose. The text is accepted exactly
    /// when it follows the grammar of tokens.
    pub fn new(text: &str) -> (r: Result<HandleToken, Error>)
        ensures
            r is Ok <==> is_token(text@),
            r is Ok ==> r->Ok_0@ == text@,
            r is Err ==> r->Err_0 == Error::ParseError("Invalid handle token"),
    {
        if text.unicode_len() == 0 {
            return Err(Error::ParseError("Invalid handle token"));
        }
        let first = text.get_char(0);
        if first >= '0' && first <= '9' {
            return Err(Error::ParseError("Invalid handle token"));
        }
        if !is_segment_text(text) {
            return Err(Error::ParseError("Invalid handle token"));
        }
        Ok(HandleToken { text: String::from_str(text) })
    }

    /// The text of the token.
    pub fn as_str(&self) -> (r: &str)
        ensures
            r@ == self@,
            is_token(r@),
    {
        proof {
            use_type_invariant(self);
        }
        self.text.as_str()
    }
}

/// Hands out tokens, each different from the one before.
#[derive(Debug)]
pub struct HandleTokenGenerator {
    next: u64,
}

impl View for HandleTokenGenerator {
    type V = u64;

    /// The counter that the next token will carry.
    closed spec fn view(&self) -> u64 {
        self.next
    }
}

impl HandleTokenGenerator {
    /// A generator whose first token is `ashpd_1`.
    pub fn new() -> (r: Self)
        ensures
            r@ == 1,
    {
        HandleTokenGenerator { next: 1 }
    }

    /// A generator whose first token carries `counter`.
    pub fn starting_at(counter: u64) -> (r: Self)
        ensures
            r@ == counter,
    {
        HandleTokenGenerator { next: counter }
    }

    /// Hands out the token of the current counter and moves the counter on.
    pub fn generate(&mut self) -> (token: HandleToken)
        ensures
            token@ == generated_text(old(self)@),
            is_token(token@),
            final(self)@ == next_counter(old(self)@),
            token@ != generated_text(final(self)@),
    {
        let mut text = String::from_str("ashpd_");
        proof {
            reveal_strlit("ashpd_");
            assert(text@ =~= token_prefix());
            lemma_generated_is_token(self.next);
            lemma_successive_tokens_differ(self.next);
        }
        push_decimal(&mut text, self.next);
        self.next = if self.next == u64::MAX {
            0
        } else {
            self.next + 1
        };
        HandleToken { text }
    }
}

impl Default for HandleTokenGenerator {
    fn default() -> (r: Self)
        ensures
            r@ == 1,
    {
        HandleTokenGenerator::new()
    }
}

/// Every generated token follows the grammar of tokens.
pub proof fn lemma_generated_is_token(counter: u64)
    ensures
        is_token(generated_text(counter)),
{
    lemma_decimal_is_digits(counter as nat);
    let digits = decimal(counter as nat);
    let text = generated_text(counter);
    assert forall|i: int| 0 <= i < text.len() implies is_segment_char(#[trigger] text[i]) by {
        if i >= 6 {
            assert(text[i] == digits[i - 6]);
            assert(is_digit(digits[i - 6]));
        }
    }
}

/// Different counters give different tokens.
pub proof fn lemma_generated_injective(a: u64, b: u64)
    requires
        generated_text(a) == generated_text(b),
    ensures
        a == b,
{
    let p = token_prefix();
    let da = decimal(a as nat);
    let db = decimal(b as nat);
    assert(da =~= (p + da).subrange(6, (p + da).len() as int));
    assert(db =~= (p + db).subrange(6, (p + db).len() as int));
    lemma_decimal_injective(a as nat, b as nat);
}

/// Two tokens that a generator hands out one after the other are never
/// equal.
pub proof fn lemma_successive_tokens_differ(counter: u64)
    ensures
        generated_text(counter) != generated_text(next_counter(counter)),
{
    if generated_text(counter) == generated_text(next_counter(counter)) {
        lemma_generated_injective(counter, next_counter(counter));
    }
}

} // verus!
