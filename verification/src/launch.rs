//! Starting the program, and ending it.
use vstd::prelude::*;

use crate::text::same_text;
use crate::user::{User, UserView};

verus! {

/// Whom the local user is taken to be, given the mode of the program.
pub open spec fn identity_of(mode: Seq<char>) -> UserView {
    if mode == "client"@ {
        UserView {
            username: "client"@,
            email: "localhost@localhost"@,
            user_id: "a7d399659b333e931046e4959e635e32"@,
        }
    } else {
        UserView {
            username: "server"@,
            email: "localhost@localhost"@,
            user_id: "e8b32bc4d7b564ac6075a1418ad8841e"@,
        }
    }
}

/// Whom the local user is taken to be, given the mode of the program.
pub fn identity(mode: &str) -> (r: User)
    ensures
        r@ == identity_of(mode@),
{
    if same_text(mode, "client") {
        User::new(
            "client".to_owned(),
            "localhost@localhost".to_owned(),
            "a7d399659b333e931046e4959e635e32".to_owned(),
        )
    } else {
        User::new(
            "server".to_owned(),
            "localhost@localhost".to_owned(),
            "e8b32bc4d7b564ac6075a1418ad8841e".to_owned(),
        )
    }
}

/// What the program runs besides the console.
#[derive(Debug, Clone, Copy, PartialEq, Eq, Structural)]
pub enum Role {
    /// It takes in connections.
    Server,
    /// It connects to a server.
    Client,
    /// Neither.
    Idle,
}

/// What the program runs, given its mode.
pub open spec fn role_of(mode: Seq<char>) -> Role {
    if mode == "server"@ {
        Role::Server
    } else if mode == "client"@ {
        Role::Client
    } else {
        Role::Idle
    }
}

/// What the program runs, given its mode. A mode that is neither `server` nor
/// `client` is no error.
pub fn role(mode: &str) -> (r: Role)
    ensures
        r == role_of(mode@),
{
    if same_text(mode, "server") {
        Role::Server
    } else if same_text(mode, "client") {
        Role::Client
    } else {
        Role::Idle
    }
}

/// Whether the console is started, or put off until there is a session.
pub fn console_starts(sessions: usize) -> (r: bool)
    ensures
        r == (sessions > 0),
{
    sessions > 0
}

/// What an interrupt does.
#[derive(Debug, Clone, Copy, PartialEq, Eq, Structural)]
pub enum Interrupt {
    /// The program is asked to close.
    Close,
    /// The program ends at once.
    ForceExit,
}

/// Takes in an interrupt, and says what it does, given how many there have been
/// before: the first asks the program to close, the next one ends it.
pub fn interrupt(before: usize) -> (r: (usize, Interrupt))
    requires
        before < usize::MAX,
    ensures
        r.0 == before + 1,
        r.1 == (if before == 0 { Interrupt::Close } else { Interrupt::ForceExit }),
{
    let count: usize = before + 1;
    if count >= 2 {
        (count, Interrupt::ForceExit)
    } else {
        (count, Interrupt::Close)
    }
}

/// What the main loop does.
#[derive(Debug, Clone, Copy, PartialEq, Eq, Structural)]
pub enum Shutdown {
    /// It goes on.
    Run,
    /// The program ends.
    Exit,
    /// Every session is closed, then the program ends.
    CloseSessions,
}

/// What the main loop does, given whether the program has been asked to close
/// and how many sessions there are.
pub fn shutdown(should_close: bool, sessions: usize) -> (r: Shutdown)
    ensures
        r == (if !should_close {
            Shutdown::Run
        } else if sessions == 0 {
            Shutdown::Exit
        } else {
            Shutdown::CloseSessions
        }),
{
    if should_close {
        if sessions == 0 {
            Shutdown::Exit
        } else {
            Shutdown::CloseSessions
        }
    } else {
        Shutdown::Run
    }
}

/// A program in the mode `client` speaks as the client, and one in the mode
/// `server` as the server: the two are told apart by name and by identifier.
pub proof fn roles_speak_under_their_own_names(client: Seq<char>, server: Seq<char>)
    requires
        role_of(client) == Role::Client,
        role_of(server) == Role::Server,
    ensures
        identity_of(client).username == client,
        identity_of(server).username == server,
        identity_of(client).username != identity_of(server).username,
        identity_of(client).user_id != identity_of(server).user_id,
{
    reveal_strlit("client");
    reveal_strlit("server");
    reveal_strlit("a7d399659b333e931046e4959e635e32");
    reveal_strlit("e8b32bc4d7b564ac6075a1418ad8841e");
    assert("client"@[0] != "server"@[0]);
    assert("a7d399659b333e931046e4959e635e32"@[0] != "e8b32bc4d7b564ac6075a1418ad8841e"@[0]);
}

} // verus!
