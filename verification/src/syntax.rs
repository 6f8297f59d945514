//! Lexical values of the textual instruction syntax.
use vstd::prelude::*;

verus! {

/// An unquoted identifier, without a leading `@` sigil.
#[derive(Debug, Clone, PartialEq, Eq)]
pub struct Ident(pub String);

/// An unquoted token whose interpretation is deferred to a resolver.
#[derive(Debug, Clone, PartialEq, Eq)]
pub struct BareToken(pub String);

/// The decoded contents of a quoted string literal.
#[derive(Debug, Clone, PartialEq, Eq)]
pub struct QuotedString(pub String);

impl Ident {
    /// A copy of this identifier.
    pub fn duplicate(&self) -> (r: Ident)
        ensures
            r == *self,
    {
        Ident(self.0.clone())
    }

    /// Borrow the lexical text.
    pub fn as_str(&self) -> (s: &str)
        ensures
            s@ == self.0@,
    {
        self.0.as_str()
    }

    /// Consume this value and return its owned text.
    pub fn into_inner(self) -> (s: String)
        ensures
            s@ == self.0@,
    {
        self.0
    }
}

impl BareToken {
    /// Borrow the lexical text.
    pub fn as_str(&self) -> (s: &str)
        ensures
            s@ == self.0@,
    {
        self.0.as_str()
    }

    /// Consume this value and return its owned text.
    pub fn into_inner(self) -> (s: String)
        ensures
            s@ == self.0@,
    {
        self.0
    }
}

impl QuotedString {
    /// Borrow the decoded text.
    pub fn as_str(&self) -> (s: &str)
        ensures
            s@ == self.0@,
    {
        self.0.as_str()
    }

    /// Consume this value and return its owned text.
    pub fn into_inner(self) -> (s: String)
        ensures
            s@ == self.0@,
    {
        self.0
    }
}

} // verus!
