//! Wire contract of the GameMode portal interface
//! (`org.freedesktop.portal.GameMode`).
//!
//! The interface lets sandboxed applications query and toggle GameMode for a
//! process, by raw process id or by pid file descriptor pair. Every reply
//! carries one of three small status enums, each encoded on the wire as a
//! fixed signed 32-bit integer. This module declares those enums, their
//! integer encodings with round-trip proofs, and the member names and
//! argument signatures of the interface's methods.

use vstd::prelude::*;

verus! {

/// The status of the game mode.
#[derive(Clone, Copy, PartialEq, Eq, Structural, Debug)]
pub enum GameModeStatus {
    /// GameMode is inactive.
    Inactive,
    /// GameMode is active.
    Active,
    /// GameMode is active and the queried process is registered.
    Registered,
    /// The query failed inside GameMode.
    Rejected,
}

/// The signed integer that carries a [`GameModeStatus`] on the wire.
pub open spec fn game_mode_status_wire(s: GameModeStatus) -> int {
    match s {
        GameModeStatus::Inactive => 0,
        GameModeStatus::Active => 1,
        GameModeStatus::Registered => 2,
        GameModeStatus::Rejected => -1,
    }
}

/// The status, if any, that a wire integer decodes to.
pub open spec fn game_mode_status_of_wire(c: int) -> Option<GameModeStatus> {
    if c == 0 {
        Some(GameModeStatus::Inactive)
    } else if c == 1 {
        Some(GameModeStatus::Active)
    } else if c == 2 {
        Some(GameModeStatus::Registered)
    } else if c == -1 {
        Some(GameModeStatus::Rejected)
    } else {
        None
    }
}

impl GameModeStatus {
    /// Encode this status as its wire integer.
    pub fn to_wire(self) -> (r: i32)
        ensures
            r as int == game_mode_status_wire(self),
    {
        match self {
            GameModeStatus::Inactive => 0,
            GameModeStatus::Active => 1,
            GameModeStatus::Registered => 2,
            GameModeStatus::Rejected => -1,
        }
    }

    /// Decode a wire integer; any integer outside the declared encodings is
    /// rejected.
    pub fn from_wire(c: i32) -> (r: Option<GameModeStatus>)
        ensures
            r == game_mode_status_of_wire(c as int),
    {
        if c == 0 {
            Some(GameModeStatus::Inactive)
        } else if c == 1 {
            Some(GameModeStatus::Active)
        } else if c == 2 {
            Some(GameModeStatus::Registered)
        } else if c == -1 {
            Some(GameModeStatus::Rejected)
        } else {
            None
        }
    }
}

/// Every status value round-trips through its wire encoding.
pub proof fn lemma_game_mode_status_round_trip(s: GameModeStatus)
    ensures
        game_mode_status_of_wire(game_mode_status_wire(s)) == Some(s),
{
}

/// A wire integer that decodes to a status re-encodes to the same integer.
pub proof fn lemma_game_mode_wire_round_trip(c: int)
    requires
        game_mode_status_of_wire(c) is Some,
    ensures
        game_mode_status_wire(game_mode_status_of_wire(c)->Some_0) == c,
{
}

/// The status of a register request.
#[derive(Clone, Copy, PartialEq, Eq, Structural, Debug)]
pub enum RegisterStatus {
    /// The game was successfully registered.
    Success,
    /// The request was rejected by GameMode.
    Rejected,
}

/// The signed integer that carries a [`RegisterStatus`] on the wire.
pub open spec fn register_status_wire(s: RegisterStatus) -> int {
    match s {
        RegisterStatus::Success => 0,
        RegisterStatus::Rejected => -1,
    }
}

/// The register status, if any, that a wire integer decodes to.
pub open spec fn register_status_of_wire(c: int) -> Option<RegisterStatus> {
    if c == 0 {
        Some(RegisterStatus::Success)
    } else if c == -1 {
        Some(RegisterStatus::Rejected)
    } else {
        None
    }
}

impl RegisterStatus {
    /// Encode this status as its wire integer.
    pub fn to_wire(self) -> (r: i32)
        ensures
            r as int == register_status_wire(self),
    {
        match self {
            RegisterStatus::Success => 0,
            RegisterStatus::Rejected => -1,
        }
    }

    /// Decode a wire integer; any integer outside the declared encodings is
    /// rejected.
    pub fn from_wire(c: i32) -> (r: Option<RegisterStatus>)
        ensures
            r == register_status_of_wire(c as int),
    {
        if c == 0 {
            Some(RegisterStatus::Success)
        } else if c == -1 {
            Some(RegisterStatus::Rejected)
        } else {
            None
        }
    }
}

/// Every register status round-trips through its wire encoding.
pub proof fn lemma_register_status_round_trip(s: RegisterStatus)
    ensures
        register_status_of_wire(register_status_wire(s)) == Some(s),
{
}

/// A wire integer that decodes to a register status re-encodes to the same
/// integer.
pub proof fn lemma_register_wire_round_trip(c: int)
    requires
        register_status_of_wire(c) is Some,
    ensures
        register_status_wire(register_status_of_wire(c)->Some_0) == c,
{
}

/// The status of an un-register request.
#[derive(Clone, Copy, PartialEq, Eq, Structural, Debug)]
pub enum UnregisterStatus {
    /// The game was successfully un-registered.
    Success,
    /// The request was rejected by GameMode.
    Rejected,
}

/// The signed integer that carries an [`UnregisterStatus`] on the wire.
pub open spec fn unregister_status_wire(s: UnregisterStatus) -> int {
    match s {
        UnregisterStatus::Success => 0,
        UnregisterStatus::Rejected => -1,
    }
}

/// The un-register status, if any, that a wire integer decodes to.
pub open spec fn unregister_status_of_wire(c: int) -> Option<UnregisterStatus> {
    if c == 0 {
        Some(UnregisterStatus::Success)
    } else if c == -1 {
        Some(UnregisterStatus::Rejected)
    } else {
        None
    }
}

impl UnregisterStatus {
    /// Encode this status as its wire integer.
    pub fn to_wire(self) -> (r: i32)
        ensures
            r as int == unregister_status_wire(self),
    {
        match self {
            UnregisterStatus::Success => 0,
            UnregisterStatus::Rejected => -1,
        }
    }

    /// Decode a wire integer; any integer outside the declared encodings is
    /// rejected.
    pub fn from_wire(c: i32) -> (r: Option<UnregisterStatus>)
        ensures
            r == unregister_status_of_wire(c as int),
    {
        if c == 0 {
            Some(UnregisterStatus::Success)
        } else if c == -1 {
            Some(UnregisterStatus::Rejected)
        } else {
            None
        }
    }
}

/// Every un-register status round-trips through its wire encoding.
pub proof fn lemma_unregister_status_round_trip(s: UnregisterStatus)
    ensures
        unregister_status_of_wire(unregister_status_wire(s)) == Some(s),
{
}

/// A wire integer that decodes to an un-register status re-encodes to the
/// same integer.
pub proof fn lemma_unregister_wire_round_trip(c: int)
    requires
        unregister_status_of_wire(c) is Some,
    ensures
        unregister_status_wire(unregister_status_of_wire(c)->Some_0) == c,
{
}

/// The methods of the GameMode portal interface.
#[derive(Clone, Copy, PartialEq, Eq, Structural, Debug)]
pub enum GameModeMethod {
    /// Query the GameMode status for a process by pid.
    QueryStatus,
    /// Query the GameMode status for a process by pid file descriptor pair.
    QueryStatusByPidFd,
    /// Query the GameMode status for a process by pid pair.
    QueryStatusByPid,
    /// Register a game by pid.
    RegisterGame,
    /// Register a game by pid file descriptor pair.
    RegisterGameByPidFd,
    /// Register a game by pid pair.
    RegisterGameByPid,
    /// Un-register a game by pid.
    UnregisterGame,
    /// Un-register a game by pid file descriptor pair.
    UnregisterGameByPidFd,
    /// Un-register a game by pid pair.
    UnregisterGameByPid,
}

/// The member name under which a method is called on the bus.
pub open spec fn game_mode_method_name(m: GameModeMethod) -> Seq<char> {
    match m {
        GameModeMethod::QueryStatus => "QueryStatus"@,
        GameModeMethod::QueryStatusByPidFd => "QueryStatusByPIDFd"@,
        GameModeMethod::QueryStatusByPid => "QueryStatusByPID"@,
        GameModeMethod::RegisterGame => "RegisterGame"@,
        GameModeMethod::RegisterGameByPidFd => "RegisterGameByPIDFd"@,
        GameModeMethod::RegisterGameByPid => "RegisterGameByPID"@,
        GameModeMethod::UnregisterGame => "UnregisterGame"@,
        GameModeMethod::UnregisterGameByPidFd => "UnregisterGameByPIDFd"@,
        GameModeMethod::UnregisterGameByPid => "UnregisterGameByPID"@,
    }
}

/// The signature of a method's argument list: `i` a signed 32-bit integer,
/// `h` a file descriptor.
pub open spec fn game_mode_method_args(m: GameModeMethod) -> Seq<char> {
    match m {
        GameModeMethod::QueryStatus => "i"@,
        GameModeMethod::QueryStatusByPidFd => "hh"@,
        GameModeMethod::QueryStatusByPid => "ii"@,
        GameModeMethod::RegisterGame => "i"@,
        GameModeMethod::RegisterGameByPidFd => "hh"@,
        GameModeMethod::RegisterGameByPid => "ii"@,
        GameModeMethod::UnregisterGame => "i"@,
        GameModeMethod::UnregisterGameByPidFd => "hh"@,
        GameModeMethod::UnregisterGameByPid => "ii"@,
    }
}

impl GameModeMethod {
    /// The name of the interface that declares these methods.
    pub fn interface_name() -> (r: &'static str)
        ensures
            r@ == "org.freedesktop.portal.GameMode"@,
    {
        "org.freedesktop.portal.GameMode"
    }

    /// The bus name of the service that implements the interface.
    pub fn service_name() -> (r: &'static str)
        ensures
            r@ == "org.freedesktop.portal.Desktop"@,
    {
        "org.freedesktop.portal.Desktop"
    }

    /// The object path on which the interface is reached.
    pub fn object_path() -> (r: &'static str)
        ensures
            r@ == "/org/freedesktop/portal/desktop"@,
    {
        "/org/freedesktop/portal/desktop"
    }

    /// The member name under which this method is called on the bus.
    pub fn wire_name(self) -> (r: &'static str)
        ensures
            r@ == game_mode_method_name(self),
    {
        match self {
            GameModeMethod::QueryStatus => "QueryStatus",
            GameModeMethod::QueryStatusByPidFd => "QueryStatusByPIDFd",
            GameModeMethod::QueryStatusByPid => "QueryStatusByPID",
            GameModeMethod::RegisterGame => "RegisterGame",
            GameModeMethod::RegisterGameByPidFd => "RegisterGameByPIDFd",
            GameModeMethod::RegisterGameByPid => "RegisterGameByPID",
            GameModeMethod::UnregisterGame => "UnregisterGame",
            GameModeMethod::UnregisterGameByPidFd => "UnregisterGameByPIDFd",
            GameModeMethod::UnregisterGameByPid => "UnregisterGameByPID",
        }
    }

    /// The signature of this method's argument list.
    pub fn args_signature(self) -> (r: &'static str)
        ensures
            r@ == game_mode_method_args(self),
    {
        match self {
            GameModeMethod::QueryStatus => "i",
            GameModeMethod::QueryStatusByPidFd => "hh",
            GameModeMethod::QueryStatusByPid => "ii",
            GameModeMethod::RegisterGame => "i",
            GameModeMethod::RegisterGameByPidFd => "hh",
            GameModeMethod::RegisterGameByPid => "ii",
            GameModeMethod::UnregisterGame => "i",
            GameModeMethod::UnregisterGameByPidFd => "hh",
            GameModeMethod::UnregisterGameByPid => "ii",
        }
    }

    /// The signature of this method's reply: every method answers with one
    /// signed 32-bit status integer.
    pub fn reply_signature(self) -> (r: &'static str)
        ensures
            r@ == "i"@,
    {
        "i"
    }
}

} // verus!
