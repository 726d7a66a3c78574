//! The ordered stack of client windows that a layout places.
use vstd::prelude::*;

verus! {

/// An opaque reference to a window known to the display server.
#[derive(Debug, Clone, Copy, PartialEq, Eq, Structural)]
pub struct Xid(pub u32);

/// Client windows in stacking order, with one of them focused when there is
/// any. A stack holds at most `u32::MAX` clients, so that a layout can count
/// them in the unit that rectangles use.
#[derive(Debug)]
pub struct Stack {
    clients: Vec<Xid>,
    focus: usize,
}

impl Stack {
    #[verifier::type_invariant]
    spec fn inv(self) -> bool {
        &&& self.clients.len() <= u32::MAX
        &&& self.clients.len() > 0 ==> self.focus < self.clients.len()
    }

    /// The clients, in stacking order.
    pub closed spec fn clients_seq(self) -> Seq<Xid> {
        self.clients@
    }

    /// The position of the focused client; meaningless for an empty stack.
    pub closed spec fn focus_index(self) -> nat {
        self.focus as nat
    }

    /// The focused client, if the stack holds any.
    pub open spec fn focused_client(self) -> Option<Xid> {
        if self.clients_seq().len() == 0 {
            None
        } else {
            Some(self.clients_seq()[self.focus_index() as int])
        }
    }

    /// A stack of the given clients with the one at position `focus`
    /// focused; `None` when `focus` names no client of a non-empty list, or
    /// the list is longer than `u32::MAX`.
    pub fn new(clients: Vec<Xid>, focus: usize) -> (r: Option<Stack>)
        ensures
            r is Some <==> (clients@.len() <= u32::MAX && (clients@.len() > 0 ==> focus
                < clients@.len())),
            r matches Some(s) ==> s.clients_seq() == clients@ && s.focus_index() == focus,
    {
        if clients.len() > u32::MAX as usize || (clients.len() > 0 && focus >= clients.len()) {
            None
        } else {
            Some(Stack { clients, focus })
        }
    }

    /// A stack with no clients.
    pub fn empty() -> (s: Stack)
        ensures
            s.clients_seq() == Seq::<Xid>::empty(),
    {
        Stack { clients: Vec::new(), focus: 0 }
    }

    /// The number of clients.
    pub fn len(&self) -> (n: u32)
        ensures
            n == self.clients_seq().len(),
    {
        proof {
            use_type_invariant(self);
        }
        self.clients.len() as u32
    }

    /// The clients, in stacking order.
    pub fn clients(&self) -> (c: &Vec<Xid>)
        ensures
            c@ == self.clients_seq(),
    {
        &self.clients
    }

    /// The focused client, if the stack holds any.
    pub fn focused(&self) -> (f: Option<Xid>)
        ensures
            f == self.focused_client(),
    {
        proof {
            use_type_invariant(self);
        }
        if self.clients.len() == 0 {
            None
        } else {
            Some(self.clients[self.focus])
        }
    }
}

} // verus!
