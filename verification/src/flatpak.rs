//! Wire contract of the Flatpak host interface
//! (`org.freedesktop.portal.Flatpak`).
//!
//! The interface lets a sandboxed application spawn a new, optionally more
//! tightly sandboxed, instance of itself on the host, send a Unix signal to
//! a process it spawned, and create an update-monitor handle. The sandbox
//! itself — pid translation, enforcement, process lifecycle — is owned by
//! the remote service; this module declares the option structures the calls
//! take, the bit values of their flag words, and the member names and
//! argument signatures of the interface's methods.

use vstd::prelude::*;

verus! {

/// Share the display access (X11, wayland) with the caller.
pub const SANDBOX_FLAG_SHARE_DISPLAY: u32 = 1;

/// Share the sound access (pulseaudio) with the caller.
pub const SANDBOX_FLAG_SHARE_SOUND: u32 = 2;

/// Share the gpu access with the caller.
pub const SANDBOX_FLAG_SHARE_GPU: u32 = 4;

/// Allow sandbox access to (filtered) session bus.
pub const SANDBOX_FLAG_SESSION_BUS: u32 = 8;

/// Allow sandbox access to accessibility bus.
pub const SANDBOX_FLAG_A11Y_BUS: u32 = 16;

/// Bit of the `supports` property: the expose-sandbox-pids flag of the
/// spawn call is supported.
pub const SUPPORTS_EXPOSE_PIDS: u32 = 1;

/// Options of a sandboxed spawn request. A file descriptor is carried by
/// its raw number.
#[derive(Debug)]
pub struct SpawnOptions {
    /// File descriptors of files inside the sandbox that will be exposed to
    /// the new sandbox, for reading and writing.
    pub sandbox_expose_fd: Vec<i32>,
    /// File descriptors of files inside the sandbox that will be exposed to
    /// the new sandbox, readonly.
    pub sandbox_expose_fd_ro: Vec<i32>,
    /// Flags affecting the created sandbox, a combination of the
    /// `SANDBOX_FLAG` bits.
    pub sandbox_flags: Option<u32>,
}

/// Options of a create-update-monitor request; the interface declares none
/// yet.
#[derive(Debug)]
pub struct CreateMonitorOptions {}

/// The methods of the Flatpak host interface.
#[derive(Clone, Copy, PartialEq, Eq, Structural, Debug)]
pub enum FlatpakMethod {
    /// Create an update-monitor handle for the calling application.
    CreateUpdateMonitor,
    /// Spawn a new sandboxed process.
    Spawn,
    /// Send a Unix signal to a spawned process.
    SpawnSignal,
}

/// The member name under which a method is called on the bus.
pub open spec fn flatpak_method_name(m: FlatpakMethod) -> Seq<char> {
    match m {
        FlatpakMethod::CreateUpdateMonitor => "CreateUpdateMonitor"@,
        FlatpakMethod::Spawn => "Spawn"@,
        FlatpakMethod::SpawnSignal => "SpawnSignal"@,
    }
}

/// The signature of a method's argument list: `ay` the working directory as
/// bytes, `aay` the argument vector, `a{uh}` the descriptor-number-to-fd
/// map, `a{ss}` the environment, `u` a flag word, `b` a boolean, `a{sv}` an
/// options dictionary.
pub open spec fn flatpak_method_args(m: FlatpakMethod) -> Seq<char> {
    match m {
        FlatpakMethod::CreateUpdateMonitor => "a{sv}"@,
        FlatpakMethod::Spawn => "ayaaya{uh}a{ss}ua{sv}"@,
        FlatpakMethod::SpawnSignal => "uub"@,
    }
}

/// The signature of a method's reply: `o` an object path, `u` the pid of
/// the spawned process, and nothing for the signal call.
pub open spec fn flatpak_method_reply(m: FlatpakMethod) -> Seq<char> {
    match m {
        FlatpakMethod::CreateUpdateMonitor => "o"@,
        FlatpakMethod::Spawn => "u"@,
        FlatpakMethod::SpawnSignal => ""@,
    }
}

impl FlatpakMethod {
    /// The name of the interface that declares these methods.
    pub fn interface_name() -> (r: &'static str)
        ensures
            r@ == "org.freedesktop.portal.Flatpak"@,
    {
        "org.freedesktop.portal.Flatpak"
    }

    /// The bus name of the service that implements the interface.
    pub fn service_name() -> (r: &'static str)
        ensures
            r@ == "org.freedesktop.portal.Flatpak"@,
    {
        "org.freedesktop.portal.Flatpak"
    }

    /// The object path on which the interface is reached.
    pub fn object_path() -> (r: &'static str)
        ensures
            r@ == "/org/freedesktop/portal/Flatpak"@,
    {
        "/org/freedesktop/portal/Flatpak"
    }

    /// The member name under which this method is called on the bus.
    pub fn wire_name(self) -> (r: &'static str)
        ensures
            r@ == flatpak_method_name(self),
    {
        match self {
            FlatpakMethod::CreateUpdateMonitor => "CreateUpdateMonitor",
            FlatpakMethod::Spawn => "Spawn",
            FlatpakMethod::SpawnSignal => "SpawnSignal",
        }
    }

    /// The signature of this method's argument list.
    pub fn args_signature(self) -> (r: &'static str)
        ensures
            r@ == flatpak_method_args(self),
    {
        match self {
            FlatpakMethod::CreateUpdateMonitor => "a{sv}",
            FlatpakMethod::Spawn => "ayaaya{uh}a{ss}ua{sv}",
            FlatpakMethod::SpawnSignal => "uub",
        }
    }

    /// The signature of this method's reply.
    pub fn reply_signature(self) -> (r: &'static str)
        ensures
            r@ == flatpak_method_reply(self),
    {
        match self {
            FlatpakMethod::CreateUpdateMonitor => "o",
            FlatpakMethod::Spawn => "u",
            FlatpakMethod::SpawnSignal => "",
        }
    }
}

} // verus!
