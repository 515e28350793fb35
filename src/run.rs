//! What a chat run is given.
use vstd::prelude::*;
use vstd::string::*;

verus! {

/// Who speaks in a chat message.
#[derive(Clone, Copy, Debug, PartialEq, Eq, Structural)]
pub enum Role {
    User,
    System,
    Assistant,
}

/// The role that a name stands for, if any.
pub open spec fn role_of(s: Seq<char>) -> Option<Role> {
    if s == "user"@ {
        Some(Role::User)
    } else if s == "system"@ {
        Some(Role::System)
    } else if s == "assistant"@ {
        Some(Role::Assistant)
    } else {
        None
    }
}

impl Role {
    /// Reads `user`, `system` or `assistant`; any other name is refused.
    pub fn parse(s: &str) -> (r: Result<Role, ()>)
        ensures
            match role_of(s@) {
                Some(role) => r == Ok::<Role, ()>(role),
                None => r is Err,
            },
    {
        proof {
            reveal_strlit("user");
            reveal_strlit("system");
            reveal_strlit("assistant");
        }
        let name = String::from_str(s);
        if name == String::from_str("user") {
            Ok(Role::User)
        } else if name == String::from_str("system") {
            Ok(Role::System)
        } else if name == String::from_str("assistant") {
            Ok(Role::Assistant)
        } else {
            Err(())
        }
    }
}

impl core::str::FromStr for Role {
    type Err = ();

    fn from_str(s: &str) -> Result<Role, ()> {
        Role::parse(s)
    }
}

/// The text of one chat message.
pub struct Message(pub String);

/// A tool that a chat may call.
pub struct Tool();

/// The inputs of a chat run.
pub struct OllamaRunParams {
    pub messages: Vec<Message>,
    pub tools: Vec<Tool>,
    pub prompt: String,
    pub suffix: String,
    pub think: bool,
    pub think_level: String,
    pub is_think_set: bool,
}

} // verus!
