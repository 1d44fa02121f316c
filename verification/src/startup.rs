//! The command line: how a session is opened, and how a provider is chosen.

use vstd::prelude::*;

use crate::harness::{AuthProviderInfo, SessionConfig, SessionPersistence};
use crate::text;

verus! {

broadcast use vstd::string::group_string_axioms;

/// Why a command line is refused.
#[derive(Clone, Copy, Debug, PartialEq, Eq, Structural)]
pub enum ArgumentError {
    SessionTarget,
    ForkTarget,
    Exclusive,
}

impl ArgumentError {
    /// The refusal in words.
    pub open spec fn text(self) -> Seq<char> {
        match self {
            ArgumentError::SessionTarget => "--session requires a path or session ID"@,
            ArgumentError::ForkTarget => "--fork requires a path or session ID"@,
            ArgumentError::Exclusive =>
                "--continue, --session, --fork, and --no-session are mutually exclusive"@,
        }
    }

    /// The refusal in words.
    pub fn message(&self) -> (r: String)
        ensures
            r@ == self.text(),
    {
        match self {
            ArgumentError::SessionTarget => "--session requires a path or session ID".to_owned(),
            ArgumentError::ForkTarget => "--fork requires a path or session ID".to_owned(),
            ArgumentError::Exclusive =>
                "--continue, --session, --fork, and --no-session are mutually exclusive".to_owned(),
        }
    }
}

/// Whether the first argument that reads `flag` is at `i`.
pub open spec fn flag_at(args: Seq<String>, flag: Seq<char>, i: int) -> bool {
    &&& 0 <= i < args.len()
    &&& args[i]@ == flag
    &&& forall|j: int| 0 <= j < i ==> (#[trigger] args[j])@ != flag
}

/// What follows a flag on the command line.
pub enum FlagValue {
    Absent,
    Missing,
    Given(String),
}

/// What follows the first `flag` on the command line.
pub open spec fn flag_value(args: Seq<String>, flag: Seq<char>) -> FlagValue {
    if text::lists(args, flag) {
        let i = choose|i: int| flag_at(args, flag, i);
        if i + 1 < args.len() {
            FlagValue::Given(args[i + 1])
        } else {
            FlagValue::Missing
        }
    } else {
        FlagValue::Absent
    }
}

/// Where the first argument that reads `flag` is.
fn find_flag(args: &Vec<String>, flag: &str) -> (r: Option<usize>)
    ensures
        match r {
            Some(i) => flag_at(args@, flag@, i as int) && text::lists(args@, flag@) && forall|x: int|
                flag_at(args@, flag@, x) ==> x == i,
            None => !text::lists(args@, flag@),
        },
{
    let mut i: usize = 0;
    while i < args.len()
        invariant
            i <= args.len(),
            forall|j: int| 0 <= j < i ==> (#[trigger] args@[j])@ != flag@,
        decreases args.len() - i,
    {
        if text::same_text(args[i].as_str(), flag) {
            assert(flag_at(args@, flag@, i as int));
            assert forall|x: int| flag_at(args@, flag@, x) implies x == i by {
                if i < x {
                    assert(args@[i as int]@ != flag@);
                }
            }
            return Some(i);
        }
        i += 1;
    }
    None
}

/// What follows the first `flag` on the command line.
pub fn value_of(args: &Vec<String>, flag: &str) -> (r: FlagValue)
    ensures
        r == flag_value(args@, flag@),
{
    match find_flag(args, flag) {
        Some(i) => {
            assert((choose|c: int| flag_at(args@, flag@, c)) == i);
            if args.len() - i > 1 {
                FlagValue::Given(args[i + 1].clone())
            } else {
                FlagValue::Missing
            }
        },
        None => FlagValue::Absent,
    }
}

/// Whether the command line asks to go on with the latest session.
pub open spec fn continues(args: Seq<String>) -> bool {
    text::lists(args, "--continue"@) || text::lists(args, "-c"@)
}

/// How many of the four ways to pick a session the command line uses.
pub open spec fn choices(args: Seq<String>) -> int {
    (if continues(args) { 1int } else { 0int }) + (if text::lists(args, "--no-session"@) {
        1int
    } else {
        0int
    }) + (if text::lists(args, "--session"@) {
        1int
    } else {
        0int
    }) + (if text::lists(args, "--fork"@) {
        1int
    } else {
        0int
    })
}

/// How the session is opened that a command line asks for.
pub fn session_persistence(args: &Vec<String>) -> (r: Result<SessionPersistence, ArgumentError>)
    ensures
        ({
            let session = flag_value(args@, "--session"@);
            let fork = flag_value(args@, "--fork"@);
            match r {
                Err(ArgumentError::SessionTarget) => session is Missing,
                Err(ArgumentError::ForkTarget) => !(session is Missing) && fork is Missing,
                Err(ArgumentError::Exclusive) => !(session is Missing) && !(fork is Missing)
                    && choices(args@) > 1,
                Ok(mode) => {
                    &&& !(session is Missing)
                    &&& !(fork is Missing)
                    &&& choices(args@) <= 1
                    &&& if continues(args@) {
                        mode is Continue
                    } else if text::lists(args@, "--no-session"@) {
                        mode is InMemory
                    } else {
                        match (session, fork) {
                            (FlagValue::Given(target), _) => mode == SessionPersistence::Open(
                                target,
                            ),
                            (_, FlagValue::Given(target)) => mode == SessionPersistence::Fork(
                                target,
                            ),
                            _ => mode is Persistent,
                        }
                    }
                },
            }
        }),
{
    let continue_recent: bool = text::list_has(args, "--continue") || text::list_has(args, "-c");
    let in_memory: bool = text::list_has(args, "--no-session");
    let session: FlagValue = value_of(args, "--session");
    let fork: FlagValue = value_of(args, "--fork");
    let (has_session, target): (bool, Option<String>) = match session {
        FlagValue::Missing => {
            return Err(ArgumentError::SessionTarget);
        },
        FlagValue::Given(target) => (true, Some(target)),
        FlagValue::Absent => (false, None),
    };
    let (has_fork, fork_target): (bool, Option<String>) = match fork {
        FlagValue::Missing => {
            return Err(ArgumentError::ForkTarget);
        },
        FlagValue::Given(target) => (true, Some(target)),
        FlagValue::Absent => (false, None),
    };
    let mut selected: usize = 0;
    if continue_recent {
        selected += 1;
    }
    if in_memory {
        selected += 1;
    }
    if has_session {
        selected += 1;
    }
    if has_fork {
        selected += 1;
    }
    if selected > 1 {
        return Err(ArgumentError::Exclusive);
    }
    Ok(
        if continue_recent {
            SessionPersistence::Continue
        } else if in_memory {
            SessionPersistence::InMemory
        } else {
            match (target, fork_target) {
                (Some(target), _) => SessionPersistence::Open(target),
                (None, Some(target)) => SessionPersistence::Fork(target),
                (None, None) => SessionPersistence::Persistent,
            }
        },
    )
}

/// A session that leaves nothing behind.
pub fn ephemeral_session() -> (r: SessionConfig)
    ensures
        r.persistence is InMemory,
        r.model is None,
        r.cwd is None,
        r.parent_session_path is None,
        r.thinking_level is None,
        r.tools is None,
{
    SessionConfig {
        model: None,
        cwd: None,
        persistence: SessionPersistence::InMemory,
        parent_session_path: None,
        thinking_level: None,
        tools: None,
    }
}

/// Why no provider was chosen.
#[derive(Clone, Copy, Debug, PartialEq, Eq, Structural)]
pub enum SelectionError {
    NoProviders,
    Invalid,
    OutOfRange,
}

impl SelectionError {
    /// The refusal in words.
    pub open spec fn text(self) -> Seq<char> {
        match self {
            SelectionError::NoProviders => "Pi reported no authentication providers"@,
            SelectionError::Invalid => "invalid provider selection"@,
            SelectionError::OutOfRange => "provider selection out of range"@,
        }
    }

    /// The refusal in words.
    pub fn message(&self) -> (r: String)
        ensures
            r@ == self.text(),
    {
        match self {
            SelectionError::NoProviders => "Pi reported no authentication providers".to_owned(),
            SelectionError::Invalid => "invalid provider selection".to_owned(),
            SelectionError::OutOfRange => "provider selection out of range".to_owned(),
        }
    }
}

/// Which of `count` providers a typed number from one on picks. Zero picks the first.
pub fn choose_provider(count: usize, selection: &str) -> (r: Result<usize, SelectionError>)
    ensures
        ({
            let typed = text::parsed(text::trim(selection@));
            match r {
                Err(SelectionError::NoProviders) => count == 0,
                Err(SelectionError::Invalid) => count > 0 && (typed is None || typed->0
                    > usize::MAX),
                Err(SelectionError::OutOfRange) => count > 0 && typed is Some && typed->0
                    <= usize::MAX && typed->0 > count,
                Ok(i) => i < count && typed is Some && typed->0 <= count && i == (if typed->0 > 0 {
                    typed->0 - 1
                } else {
                    0
                }),
            }
        }),
{
    if count == 0 {
        return Err(SelectionError::NoProviders);
    }
    let trimmed: String = text::trimmed(selection);
    match text::parse_number(trimmed.as_str()) {
        None => Err(SelectionError::Invalid),
        Some(n) => {
            let index: usize = n.saturating_sub(1);
            if index < count {
                Ok(index)
            } else {
                Err(SelectionError::OutOfRange)
            }
        },
    }
}

/// Why nobody is logged in.
#[derive(Clone, Debug)]
pub enum LoginError {
    UnknownProvider { id: String },
    Oauth { display_name: String },
    EmptyKey,
}

impl LoginError {
    /// The refusal in words.
    pub open spec fn text(self) -> Seq<char> {
        match self {
            LoginError::UnknownProvider { id } => "unknown provider: "@ + id@,
            LoginError::Oauth { display_name } => display_name@
                + " uses OAuth; use the official Pi /login flow until OAuth callbacks are bridged"@,
            LoginError::EmptyKey => "API key cannot be empty"@,
        }
    }

    /// The refusal in words.
    pub fn message(&self) -> (r: String)
        ensures
            r@ == self.text(),
    {
        match self {
            LoginError::UnknownProvider { id } => text::joined("unknown provider: ", id.as_str()),
            LoginError::Oauth { display_name } => text::joined(
                display_name.as_str(),
                " uses OAuth; use the official Pi /login flow until OAuth callbacks are bridged",
            ),
            LoginError::EmptyKey => "API key cannot be empty".to_owned(),
        }
    }
}

/// Whether the first provider `id` of a list is at `i`.
pub open spec fn provider_at(providers: Seq<AuthProviderInfo>, id: Seq<char>, i: int) -> bool {
    &&& 0 <= i < providers.len()
    &&& providers[i].id@ == id
    &&& forall|j: int| 0 <= j < i ==> (#[trigger] providers[j]).id@ != id
}

/// Which provider was asked for by name.
pub fn find_provider(providers: &Vec<AuthProviderInfo>, id: &str) -> (r: Result<usize, LoginError>)
    ensures
        match r {
            Ok(i) => provider_at(providers@, id@, i as int),
            Err(error) => {
                &&& error matches LoginError::UnknownProvider { id: named }
                &&& named@ == id@
                &&& forall|i: int| 0 <= i < providers@.len() ==> (#[trigger] providers@[i]).id@ != id@
            },
        },
{
    let mut i: usize = 0;
    while i < providers.len()
        invariant
            i <= providers@.len(),
            forall|j: int| 0 <= j < i ==> (#[trigger] providers@[j]).id@ != id@,
        decreases providers@.len() - i,
    {
        if text::same_text(providers[i].id.as_str(), id) {
            return Ok(i);
        }
        i += 1;
    }
    Err(LoginError::UnknownProvider { id: id.to_owned() })
}

/// Whether a key can be stored for a provider: one that signs in by OAuth takes none.
pub fn takes_key(provider: &AuthProviderInfo) -> (r: Result<(), LoginError>)
    ensures
        match r {
            Ok(_) => provider.auth_type@ != "oauth"@,
            Err(error) => {
                &&& provider.auth_type@ == "oauth"@
                &&& error matches LoginError::Oauth { display_name }
                &&& display_name@ == provider.display_name@
            },
        },
{
    if text::same_text(provider.auth_type.as_str(), "oauth") {
        Err(LoginError::Oauth { display_name: provider.display_name.clone() })
    } else {
        Ok(())
    }
}

/// Whether a typed key can be stored: an empty one cannot.
pub fn accept_key(key: &str) -> (r: Result<(), LoginError>)
    ensures
        r is Ok <==> key@.len() > 0,
        r matches Err(error) ==> error is EmptyKey,
{
    let chars: Vec<char> = text::chars_of(key);
    if chars.len() == 0 {
        Err(LoginError::EmptyKey)
    } else {
        Ok(())
    }
}

/// A key press while a secret is typed.
#[derive(Clone, Copy, Debug, PartialEq, Eq, Structural)]
pub enum SecretKey {
    Enter,
    Backspace,
    Char { character: char, control: bool },
    Other,
}

/// What a key press does while a secret is typed.
#[derive(Clone, Copy, Debug, PartialEq, Eq, Structural)]
pub enum SecretStep {
    Continue,
    Done,
    Cancelled,
}

/// Applies a key press to a secret that is being typed.
pub fn type_secret(secret: &mut String, key: SecretKey) -> (r: SecretStep)
    ensures
        match key {
            SecretKey::Enter => r is Done && final(secret)@ == old(secret)@,
            SecretKey::Backspace => r is Continue && final(secret)@ == (if old(secret)@.len() > 0 {
                old(secret)@.drop_last()
            } else {
                old(secret)@
            }),
            SecretKey::Char { character, control } => if !control {
                r is Continue && final(secret)@ == old(secret)@.push(character)
            } else if character == 'c' {
                r is Cancelled && final(secret)@ == old(secret)@
            } else {
                r is Continue && final(secret)@ == old(secret)@
            },
            SecretKey::Other => r is Continue && final(secret)@ == old(secret)@,
        },
{
    match key {
        SecretKey::Enter => SecretStep::Done,
        SecretKey::Backspace => {
            let chars: Vec<char> = text::chars_of(secret.as_str());
            if chars.len() > 0 {
                let rest: String = text::string_between(&chars, 0, chars.len() - 1);
                assert(chars@.subrange(0, chars@.len() - 1) =~= chars@.drop_last());
                *secret = rest;
            }
            SecretStep::Continue
        },
        SecretKey::Char { character, control } => {
            if !control {
                secret.push(character);
                SecretStep::Continue
            } else if character == 'c' {
                SecretStep::Cancelled
            } else {
                SecretStep::Continue
            }
        },
        SecretKey::Other => SecretStep::Continue,
    }
}

/// What is shown of a secret: one bullet for each character.
pub fn masked(secret: &str) -> (r: String)
    ensures
        r@.len() == secret@.len(),
        forall|i: int| 0 <= i < r@.len() ==> #[trigger] r@[i] == '•',
{
    let chars: Vec<char> = text::chars_of(secret);
    let mut out = String::new();
    let mut i: usize = 0;
    while i < chars.len()
        invariant
            i <= chars.len(),
            out@.len() == i,
            forall|j: int| 0 <= j < i ==> #[trigger] out@[j] == '•',
        decreases chars.len() - i,
    {
        out.push('•');
        i += 1;
    }
    out
}

/// Two ways of picking a session on one command line are always refused.
pub proof fn choices_exclude_each_other(args: Seq<String>, a: Seq<char>, b: Seq<char>)
    requires
        seq!["--continue"@, "--no-session"@, "--session"@, "--fork"@].contains(a),
        seq!["--continue"@, "--no-session"@, "--session"@, "--fork"@].contains(b),
        a != b,
        text::lists(args, a),
        text::lists(args, b),
    ensures
        choices(args) > 1,
{
}

/// A flag is followed by what stands behind its first place on the command line.
pub proof fn flags_are_followed_by_their_value(args: Seq<String>, flag: Seq<char>, i: int)
    requires
        0 <= i < args.len(),
        args[i]@ == flag,
        forall|j: int| 0 <= j < i ==> (#[trigger] args[j])@ != flag,
    ensures
        i + 1 < args.len() ==> flag_value(args, flag) == FlagValue::Given(args[i + 1]),
        i + 1 == args.len() ==> flag_value(args, flag) is Missing,
{
    assert(flag_at(args, flag, i));
    let k = choose|k: int| flag_at(args, flag, k);
    assert(flag_at(args, flag, k));
    if k < i {
        assert(args[k]@ != flag);
    } else if i < k {
        assert(args[i]@ != flag);
    }
    assert(text::lists(args, flag));
}

/// A flag that is not on the command line is absent.
pub proof fn missing_flags_are_absent(args: Seq<String>, flag: Seq<char>)
    requires
        forall|j: int| 0 <= j < args.len() ==> (#[trigger] args[j])@ != flag,
    ensures
        flag_value(args, flag) is Absent,
{
}

/// Going on with the latest session is asked for in two ways.
pub proof fn going_on_is_asked_for(args: Seq<String>, i: int)
    requires
        0 <= i < args.len(),
        args[i]@ == "--continue"@ || args[i]@ == "-c"@,
    ensures
        continues(args),
        choices(args) >= 1,
{
}

/// A command line with none of the four choices makes none.
pub proof fn nothing_is_chosen_by_itself(args: Seq<String>)
    requires
        forall|j: int|
            0 <= j < args.len() ==> (#[trigger] args[j])@ != "--continue"@ && args[j]@ != "-c"@
                && args[j]@ != "--no-session"@ && args[j]@ != "--session"@ && args[j]@ != "--fork"@,
    ensures
        choices(args) == 0,
        !continues(args),
{
}

} // verus!
