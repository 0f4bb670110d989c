//! The listener binder: finds a port for the server, starting at a preferred
//! port and moving up one port at a time, for a bounded number of attempts.

use vstd::prelude::*;
use vstd::string::*;

verus! {

/// How many ports the server tries before it gives up.
pub const MAX_PORT_ATTEMPTS: u16 = 10;

/// How many attempts can be made from `start_port`: at most `max_attempts`,
/// and none past the last port that exists.
pub open spec fn attempts_available(start_port: u16, max_attempts: u16) -> int {
    if start_port + max_attempts <= u16::MAX + 1 {
        max_attempts as int
    } else {
        u16::MAX + 1 - start_port
    }
}

/// Every attempt to bind `port` fails.
pub open spec fn refuses<L, F: Fn(u16) -> Result<L, String>>(try_bind: F, port: u16) -> bool {
    forall|outcome: Result<L, String>| call_ensures(try_bind, (port,), outcome) ==> outcome is Err
}

/// Every attempt to bind `port` succeeds.
pub open spec fn grants<L, F: Fn(u16) -> Result<L, String>>(try_bind: F, port: u16) -> bool {
    forall|outcome: Result<L, String>| call_ensures(try_bind, (port,), outcome) ==> outcome is Ok
}

/// An attempt to bind `port` can fail with `error`.
pub open spec fn may_fail_with<L, F: Fn(u16) -> Result<L, String>>(
    try_bind: F,
    port: u16,
    error: Seq<char>,
) -> bool {
    exists|reason: String|
        reason@ == error && #[trigger] call_ensures(try_bind, (port,), Err::<L, String>(reason))
}

/// An attempt to bind `port` can fail.
pub open spec fn may_fail<L, F: Fn(u16) -> Result<L, String>>(try_bind: F, port: u16) -> bool {
    exists|reason: String| #[trigger] call_ensures(try_bind, (port,), Err::<L, String>(reason))
}

/// Where a run of attempts stands, as plain numbers: the port it started at,
/// the offset of the port that is tried now, and the limit on attempts.
pub struct PortAttempt {
    pub start_port: u16,
    pub offset: u16,
    pub max_attempts: u16,
}

/// Where a run of attempts stands. The port that is tried now always exists,
/// and its offset is below the limit on attempts.
#[derive(Debug, Clone, Copy)]
pub struct PortAttemptState {
    start_port: u16,
    offset: u16,
    max_attempts: u16,
}

impl View for PortAttemptState {
    type V = PortAttempt;

    closed spec fn view(&self) -> PortAttempt {
        PortAttempt {
            start_port: self.start_port,
            offset: self.offset,
            max_attempts: self.max_attempts,
        }
    }
}

impl PortAttemptState {
    #[verifier::type_invariant]
    spec fn in_reach(self) -> bool {
        self.offset < attempts_available(self.start_port, self.max_attempts)
    }

    /// The state at the first attempt; `None` where no attempt is allowed.
    pub fn first(start_port: u16, max_attempts: u16) -> (state: Option<PortAttemptState>)
        ensures
            state is None <==> max_attempts == 0,
            state matches Some(first) ==> first@ == (PortAttempt { start_port, offset: 0, max_attempts }),
    {
        if max_attempts == 0 {
            None
        } else {
            Some(PortAttemptState { start_port, offset: 0, max_attempts })
        }
    }

    /// The port that is tried in this state.
    pub fn port(&self) -> (port: u16)
        ensures
            port == self@.start_port + self@.offset,
            self@.offset < attempts_available(self@.start_port, self@.max_attempts),
    {
        proof {
            use_type_invariant(self);
        }
        self.start_port + self.offset
    }

    /// How many attempts have been made once the one of this state is over.
    pub fn attempts(&self) -> (attempts: u16)
        ensures
            attempts == self@.offset + 1,
    {
        proof {
            use_type_invariant(self);
        }
        self.offset + 1
    }

    /// The state after a failed attempt; `None` where that attempt was the
    /// last: the limit is reached, or there is no port above.
    pub fn next(&self) -> (state: Option<PortAttemptState>)
        ensures
            state is None <==> self@.offset + 1 == attempts_available(
                self@.start_port,
                self@.max_attempts,
            ),
            state matches Some(next) ==> next@ == (PortAttempt {
                offset: (self@.offset + 1) as u16,
                ..self@
            }),
    {
        proof {
            use_type_invariant(self);
        }
        if self.offset + 1 < self.max_attempts && self.start_port < u16::MAX - self.offset {
            Some(
                PortAttemptState {
                    start_port: self.start_port,
                    offset: self.offset + 1,
                    max_attempts: self.max_attempts,
                },
            )
        } else {
            None
        }
    }
}

/// Why no listener could be bound.
#[derive(Debug)]
pub enum BindError {
    /// Every attempt failed. `attempts` counts them; `last_error` is what the
    /// last one reported, absent only where no attempt was allowed.
    NoPortAvailable { attempts: u16, last_error: Option<String> },
}

/// The character of a decimal digit.
pub open spec fn digit_char(digit: nat) -> char {
    if digit == 0 {
        '0'
    } else if digit == 1 {
        '1'
    } else if digit == 2 {
        '2'
    } else if digit == 3 {
        '3'
    } else if digit == 4 {
        '4'
    } else if digit == 5 {
        '5'
    } else if digit == 6 {
        '6'
    } else if digit == 7 {
        '7'
    } else if digit == 8 {
        '8'
    } else {
        '9'
    }
}

/// A number in decimal notation, without leading zeros.
pub open spec fn decimal(number: nat) -> Seq<char>
    decreases number,
{
    if number < 10 {
        seq![digit_char(number)]
    } else {
        decimal(number / 10).push(digit_char(number % 10))
    }
}

/// What a failed run of attempts reports: how many attempts were made, and
/// the last error, or nothing in its place where no attempt was allowed.
pub open spec fn no_port_message(attempts: nat, last_error: Option<Seq<char>>) -> Seq<char> {
    "No available port found after "@ + decimal(attempts) + " attempts: "@ + match last_error {
        Some(reason) => reason,
        None => Seq::empty(),
    }
}

fn digit_text(digit: u16) -> (text: &'static str)
    requires
        digit < 10,
    ensures
        text@ == seq![digit_char(digit as nat)],
{
    proof {
        reveal_strlit("0");
        reveal_strlit("1");
        reveal_strlit("2");
        reveal_strlit("3");
        reveal_strlit("4");
        reveal_strlit("5");
        reveal_strlit("6");
        reveal_strlit("7");
        reveal_strlit("8");
        reveal_strlit("9");
    }
    let text = if digit == 0 {
        "0"
    } else if digit == 1 {
        "1"
    } else if digit == 2 {
        "2"
    } else if digit == 3 {
        "3"
    } else if digit == 4 {
        "4"
    } else if digit == 5 {
        "5"
    } else if digit == 6 {
        "6"
    } else if digit == 7 {
        "7"
    } else if digit == 8 {
        "8"
    } else {
        "9"
    };
    assert(text@ =~= seq![digit_char(digit as nat)]);
    text
}

fn decimal_text(number: u16) -> (text: String)
    ensures
        text@ == decimal(number as nat),
    decreases number,
{
    if number < 10 {
        String::from_str(digit_text(number))
    } else {
        let mut text = decimal_text(number / 10);
        text.append(digit_text(number % 10));
        text
    }
}

impl BindError {
    /// The error in words.
    pub fn message(&self) -> (text: String)
        ensures
            self matches BindError::NoPortAvailable { attempts, last_error } && text@
                == no_port_message(
                attempts as nat,
                match last_error {
                    Some(reason) => Some(reason@),
                    None => None,
                },
            ),
    {
        match self {
            BindError::NoPortAvailable { attempts, last_error } => {
                let mut text = String::from_str("No available port found after ");
                text.append(decimal_text(*attempts).as_str());
                text.append(" attempts: ");
                match last_error {
                    Some(reason) => {
                        text.append(reason.as_str());
                    },
                    None => {
                        assert(text@ + Seq::<char>::empty() =~= text@);
                    },
                }
                text
            },
        }
    }
}

/// Binds a listener on the first port that can be had, trying `start_port`,
/// then the next port up, and so on, for at most `max_attempts` attempts and
/// never past the last port. `try_bind` makes one attempt; `warn` is told of
/// each failed attempt that is followed by another, with the port that
/// failed, the error, and the port that is tried next.
///
/// On success the result holds the listener that `try_bind` gave and its
/// port, and every port below it is one on which an attempt can fail. Where
/// the first ports always fail and the next one always succeeds, the result
/// is that port. Where every port in reach always fails, the result is
/// `NoPortAvailable` with the number of attempts and the last error.
pub fn bind_listener<L, F: Fn(u16) -> Result<L, String>, W: Fn(u16, String, u16)>(
    start_port: u16,
    max_attempts: u16,
    try_bind: F,
    warn: W,
) -> (bound: Result<(L, u16), BindError>)
    requires
        forall|port: u16|
            start_port <= port < start_port + max_attempts ==> call_requires(try_bind, (port,)),
        forall|port: u16, reason: String, next: u16| call_requires(warn, (port, reason, next)),
    ensures
        bound matches Ok((listener, port)) ==> {
            &&& start_port <= port < start_port + attempts_available(start_port, max_attempts)
            &&& call_ensures(try_bind, (port,), Ok::<L, String>(listener))
            &&& forall|below: u16| start_port <= below < port ==> may_fail(try_bind, below)
        },
        bound matches Err(BindError::NoPortAvailable { attempts, last_error }) ==> {
            &&& attempts == attempts_available(start_port, max_attempts)
            &&& forall|tried: u16|
                start_port <= tried < start_port + attempts ==> may_fail(try_bind, tried)
            &&& last_error is Some <==> attempts > 0
            &&& last_error matches Some(reason) ==> may_fail_with(
                try_bind,
                (start_port + attempts - 1) as u16,
                reason@,
            )
        },
        forall|free: u16|
            start_port <= free < start_port + attempts_available(start_port, max_attempts)
                && #[trigger] grants(try_bind, free) && (forall|below: u16|
                start_port <= below < free ==> refuses(try_bind, below)) ==> (bound matches Ok(
                (_, port),
            ) && port == free),
        (forall|port: u16|
            start_port <= port < start_port + attempts_available(start_port, max_attempts)
                ==> refuses(try_bind, port)) ==> bound is Err,
{
    let mut state = match PortAttemptState::first(start_port, max_attempts) {
        Some(state) => state,
        None => {
            return Err(BindError::NoPortAvailable { attempts: 0, last_error: None });
        },
    };
    loop
        invariant
            state@.start_port == start_port,
            state@.max_attempts == max_attempts,
            forall|port: u16|
                start_port <= port < start_port + max_attempts ==> call_requires(try_bind, (port,)),
            forall|port: u16, reason: String, next: u16| call_requires(warn, (port, reason, next)),
            forall|below: u16|
                start_port <= below < start_port + state@.offset ==> may_fail(try_bind, below),
        decreases max_attempts - state@.offset,
    {
        let port = state.port();
        match try_bind(port) {
            Ok(listener) => {
                assert(!refuses(try_bind, port));
                assert forall|below: u16| start_port <= below < port implies !grants(
                    try_bind,
                    below,
                ) by {
                    assert(may_fail(try_bind, below));
                }
                return Ok((listener, port));
            },
            Err(reason) => {
                assert(may_fail(try_bind, port));
                assert(may_fail_with(try_bind, port, reason@));
                assert(!grants(try_bind, port));
                match state.next() {
                    Some(next) => {
                        warn(port, reason, next.port());
                        state = next;
                    },
                    None => {
                        assert forall|tried: u16|
                            start_port <= tried < start_port + attempts_available(
                                start_port,
                                max_attempts,
                            ) implies !grants(try_bind, tried) by {
                            assert(may_fail(try_bind, tried));
                        }
                        return Err(
                            BindError::NoPortAvailable {
                                attempts: state.attempts(),
                                last_error: Some(reason),
                            },
                        );
                    },
                }
            },
        }
    }
}

} // verus!
