use vstd::prelude::*;

verus! {

/// The operating-system signals that a host may treat as shutdown triggers.
#[derive(Clone, Copy, Debug, PartialEq, Eq, Structural)]
pub enum SignalKind {
    Hangup,
    Interrupt,
    Quit,
    Terminate,
}

/// The POSIX number of a signal kind.
pub open spec fn signal_number_spec(k: SignalKind) -> i32 {
    match k {
        SignalKind::Hangup => 1,
        SignalKind::Interrupt => 2,
        SignalKind::Quit => 3,
        SignalKind::Terminate => 15,
    }
}

impl SignalKind {
    /// The POSIX number of this signal.
    pub fn number(self) -> (r: i32)
        ensures
            r == signal_number_spec(self),
    {
        match self {
            SignalKind::Hangup => 1,
            SignalKind::Interrupt => 2,
            SignalKind::Quit => 3,
            SignalKind::Terminate => 15,
        }
    }

    /// The signal kind with the given POSIX number, if it is one of the known kinds.
    pub fn from_number(n: i32) -> (r: Option<SignalKind>)
        ensures
            r matches Some(k) ==> signal_number_spec(k) == n,
            r is None ==> (forall|k: SignalKind| signal_number_spec(k) != n),
    {
        if n == 1 {
            Some(SignalKind::Hangup)
        } else if n == 2 {
            Some(SignalKind::Interrupt)
        } else if n == 3 {
            Some(SignalKind::Quit)
        } else if n == 15 {
            Some(SignalKind::Terminate)
        } else {
            proof {
                assert forall|k: SignalKind| signal_number_spec(k) != n by {
                    match k {
                        SignalKind::Hangup => {},
                        SignalKind::Interrupt => {},
                        SignalKind::Quit => {},
                        SignalKind::Terminate => {},
                    }
                }
            }
            None
        }
    }
}

} // verus!
