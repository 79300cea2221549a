//! Value-semantic handles to AST nodes.

use vstd::prelude::*;

verus! {

/// A cursor into the AST of one parse session, pointing to an AST node.
///
/// We call the AST node pointed to by the cursor the cursor's "referent".
/// A cursor is a copyable, immutable value. Two cursors are comparable
/// for equality only when they originate from the same parse session;
/// `same_session` tells whether that is the case, and equality between
/// cursors of different sessions is always `false` rather than undefined.
#[derive(Clone, Copy, PartialEq, Eq, Structural, Debug)]
pub struct Cursor {
    /// Identity of the parse session the referent belongs to.
    pub session: u64,
    /// Identity of the referent within its session.
    pub node: u64,
}

impl Cursor {
    /// The parse session this cursor's referent belongs to.
    pub open spec fn spec_session(self) -> u64 {
        self.session
    }

    /// The identity of the referent within its session.
    pub open spec fn spec_node(self) -> u64 {
        self.node
    }

    /// Build the cursor for node `node` of parse session `session`.
    pub fn new(session: u64, node: u64) -> (c: Cursor)
        ensures
            c.spec_session() == session,
            c.spec_node() == node,
    {
        Cursor { session, node }
    }

    /// The parse session this cursor's referent belongs to.
    pub fn session(&self) -> (s: u64)
        ensures
            s == self.spec_session(),
    {
        self.session
    }

    /// The identity of the referent within its session.
    pub fn node(&self) -> (n: u64)
        ensures
            n == self.spec_node(),
    {
        self.node
    }

    /// Whether `self` and `other` come from the same parse session, the
    /// only scope within which comparing them is meaningful.
    pub fn same_session(&self, other: &Cursor) -> (r: bool)
        ensures
            r == (self.spec_session() == other.spec_session()),
    {
        self.session == other.session
    }
}

} // verus!
