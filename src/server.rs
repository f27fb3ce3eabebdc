use crate::error::ConfigError;
use vstd::prelude::*;

verus! {

/// The transport used to reach the target.
#[derive(Debug, Clone, Copy, PartialEq, Eq, Structural)]
pub enum BridgeKind {
    UsbBridge,
    UartBridge,
}

/// The long-running operation to start, if any.
#[derive(Debug, Clone, Copy, PartialEq, Eq, Structural)]
pub enum ServerKind {
    /// No server: a one-shot operation.
    NoServer,
    /// A Wishbone bridge server.
    Wishbone,
    /// A GDB server.
    Gdb,
    /// A randomised read/write test.
    RandomTest,
}

/// The server kind that a name selects, if the name is known.
pub open spec fn server_kind_named(s: Seq<char>) -> Option<ServerKind> {
    if s == "gdb"@ {
        Some(ServerKind::Gdb)
    } else if s == "wishbone"@ {
        Some(ServerKind::Wishbone)
    } else if s == "random-test"@ {
        Some(ServerKind::RandomTest)
    } else if s == "none"@ {
        Some(ServerKind::NoServer)
    } else {
        None
    }
}

fn str_equals(a: &str, b: &str) -> (r: bool)
    ensures
        r == (a@ == b@),
{
    let n = a.unicode_len();
    if n != b.unicode_len() {
        return false;
    }
    let mut i: usize = 0;
    while i < n
        invariant
            n == a@.len(),
            n == b@.len(),
            0 <= i <= n,
            forall|j: int| 0 <= j < i ==> a@[j] == b@[j],
        decreases n - i,
    {
        if a.get_char(i) != b.get_char(i) {
            return false;
        }
        i = i + 1;
    }
    assert(a@ =~= b@);
    true
}

impl ServerKind {
    /// Resolves the server-kind flag: absent means no server, a known name
    /// selects its server, any other text is an error that carries it.
    pub fn from_string(item: &Option<&str>) -> (r: Result<ServerKind, ConfigError>)
        ensures
            match *item {
                None => r matches Ok(k) && k == ServerKind::NoServer,
                Some(s) => match server_kind_named(s@) {
                    Some(k) => r matches Ok(x) && x == k,
                    None => r matches Err(ConfigError::UnknownServerKind(t)) && t@ == s@,
                },
            },
    {
        match *item {
            None => Ok(ServerKind::NoServer),
            Some(s) => {
                if str_equals(s, "gdb") {
                    Ok(ServerKind::Gdb)
                } else if str_equals(s, "wishbone") {
                    Ok(ServerKind::Wishbone)
                } else if str_equals(s, "random-test") {
                    Ok(ServerKind::RandomTest)
                } else if str_equals(s, "none") {
                    Ok(ServerKind::NoServer)
                } else {
                    Err(ConfigError::UnknownServerKind(s.to_owned()))
                }
            },
        }
    }
}

} // verus!
