//! The port of the server: a 16-bit number that is not zero.

use vstd::prelude::*;

verus! {

/// A port to connect to. It is never zero.
#[derive(Debug, Clone, Copy, PartialEq, Eq)]
pub struct Port {
    number: u16,
}

impl View for Port {
    type V = u16;

    closed spec fn view(&self) -> u16 {
        self.number
    }
}

impl Port {
    #[verifier::type_invariant]
    spec fn nonzero(self) -> bool {
        self.number != 0
    }

    /// Makes a port of a number, unless the number is zero.
    pub fn new(number: u16) -> (r: Option<Port>)
        ensures
            number == 0 <==> r is None,
            r matches Some(port) ==> port@ == number,
    {
        if number == 0 {
            None
        } else {
            Some(Port { number })
        }
    }

    /// The port's number.
    pub fn get(&self) -> (number: u16)
        ensures
            number == self@,
            number != 0,
    {
        proof {
            use_type_invariant(self);
        }
        self.number
    }
}

} // verus!
