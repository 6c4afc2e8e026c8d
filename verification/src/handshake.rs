//! The request that opens a connection, and the wait for the agent's answer.

use crate::errors::{AcpError, AcpErrorV};
use crate::model::Duplicate;
use crate::text;
use vstd::prelude::*;

verus! {

/// Whether a session is forked from another.
pub open spec fn forks(fork_from: Option<Seq<char>>, agent_advertises_fork: bool) -> bool {
    &&& fork_from matches Some(parent)
    &&& parent.len() > 0
    &&& agent_advertises_fork
}

/// Whether a session is forked: a parent is named, and the agent can fork.
pub fn should_fork(fork_from: Option<&str>, agent_advertises_fork: bool) -> (r: bool)
    ensures
        r == forks(
            match fork_from {
                Some(parent) => Some(parent@),
                None => None,
            },
            agent_advertises_fork,
        ),
{
    match fork_from {
        Some(parent) => !text::is_empty(parent) && agent_advertises_fork,
        None => false,
    }
}

/// The file access that the client offers.
#[derive(Debug, PartialEq, Eq)]
pub struct FileSystemCapabilities {
    pub read_text_file: bool,
    pub write_text_file: bool,
}

/// The model of [`FileSystemCapabilities`].
#[verifier::ext_equal]
pub struct FileSystemCapabilitiesV {
    pub read_text_file: bool,
    pub write_text_file: bool,
}

impl DeepView for FileSystemCapabilities {
    type V = FileSystemCapabilitiesV;

    open spec fn deep_view(&self) -> FileSystemCapabilitiesV {
        FileSystemCapabilitiesV {
            read_text_file: self.read_text_file.deep_view(),
            write_text_file: self.write_text_file.deep_view(),
        }
    }
}

impl Duplicate for FileSystemCapabilities {
    fn duplicate(&self) -> (r: Self) {
        FileSystemCapabilities {
            read_text_file: self.read_text_file.duplicate(),
            write_text_file: self.write_text_file.duplicate(),
        }
    }
}

/// The questions to the user that the client offers.
#[derive(Debug, PartialEq, Eq)]
pub struct ElicitationCapabilities {
    pub form: bool,
}

/// The model of [`ElicitationCapabilities`].
#[verifier::ext_equal]
pub struct ElicitationCapabilitiesV {
    pub form: bool,
}

impl DeepView for ElicitationCapabilities {
    type V = ElicitationCapabilitiesV;

    open spec fn deep_view(&self) -> ElicitationCapabilitiesV {
        ElicitationCapabilitiesV {
            form: self.form.deep_view(),
        }
    }
}

impl Duplicate for ElicitationCapabilities {
    fn duplicate(&self) -> (r: Self) {
        ElicitationCapabilities {
            form: self.form.duplicate(),
        }
    }
}

/// What the client offers to an agent.
#[derive(Debug, PartialEq, Eq)]
pub struct ClientCapabilities {
    pub fs: FileSystemCapabilities,
    pub terminal: bool,
    pub elicitation: Option<ElicitationCapabilities>,
}

/// The model of [`ClientCapabilities`].
#[verifier::ext_equal]
pub struct ClientCapabilitiesV {
    pub fs: FileSystemCapabilitiesV,
    pub terminal: bool,
    pub elicitation: Option<ElicitationCapabilitiesV>,
}

impl DeepView for ClientCapabilities {
    type V = ClientCapabilitiesV;

    open spec fn deep_view(&self) -> ClientCapabilitiesV {
        ClientCapabilitiesV {
            fs: self.fs.deep_view(),
            terminal: self.terminal.deep_view(),
            elicitation: self.elicitation.deep_view(),
        }
    }
}

impl Duplicate for ClientCapabilities {
    fn duplicate(&self) -> (r: Self) {
        ClientCapabilities {
            fs: self.fs.duplicate(),
            terminal: self.terminal.duplicate(),
            elicitation: self.elicitation.duplicate(),
        }
    }
}

/// The name and version of the client.
#[derive(Debug, PartialEq, Eq)]
pub struct Implementation {
    pub name: String,
    pub version: String,
    pub title: Option<String>,
}

/// The model of [`Implementation`].
#[verifier::ext_equal]
pub struct ImplementationV {
    pub name: Seq<char>,
    pub version: Seq<char>,
    pub title: Option<Seq<char>>,
}

impl DeepView for Implementation {
    type V = ImplementationV;

    open spec fn deep_view(&self) -> ImplementationV {
        ImplementationV {
            name: self.name.deep_view(),
            version: self.version.deep_view(),
            title: self.title.deep_view(),
        }
    }
}

impl Duplicate for Implementation {
    fn duplicate(&self) -> (r: Self) {
        Implementation {
            name: self.name.duplicate(),
            version: self.version.duplicate(),
            title: self.title.duplicate(),
        }
    }
}

/// The request that opens a connection.
#[derive(Debug, PartialEq, Eq)]
pub struct InitializeRequest {
    pub protocol_version: u32,
    pub client_capabilities: ClientCapabilities,
    pub client_info: Option<Implementation>,
}

/// The model of [`InitializeRequest`].
#[verifier::ext_equal]
pub struct InitializeRequestV {
    pub protocol_version: u32,
    pub client_capabilities: ClientCapabilitiesV,
    pub client_info: Option<ImplementationV>,
}

impl DeepView for InitializeRequest {
    type V = InitializeRequestV;

    open spec fn deep_view(&self) -> InitializeRequestV {
        InitializeRequestV {
            protocol_version: self.protocol_version.deep_view(),
            client_capabilities: self.client_capabilities.deep_view(),
            client_info: self.client_info.deep_view(),
        }
    }
}

impl Duplicate for InitializeRequest {
    fn duplicate(&self) -> (r: Self) {
        InitializeRequest {
            protocol_version: self.protocol_version.duplicate(),
            client_capabilities: self.client_capabilities.duplicate(),
            client_info: self.client_info.duplicate(),
        }
    }
}

/// How the wait for the agent's answer ended.
#[derive(Debug, PartialEq, Eq)]
pub enum HandshakeWait {
    /// The agent has answered.
    Ready,
    /// The connection has failed.
    Failed(AcpError),
    /// The connection ended without a word.
    Dropped,
    /// The agent has not answered in time.
    TimedOut,
}

/// The model of [`HandshakeWait`].
#[verifier::ext_equal]
pub enum HandshakeWaitV {
    Ready,
    Failed(AcpErrorV),
    Dropped,
    TimedOut,
}

impl DeepView for HandshakeWait {
    type V = HandshakeWaitV;

    open spec fn deep_view(&self) -> HandshakeWaitV {
        match self {
            HandshakeWait::Ready => HandshakeWaitV::Ready,
            HandshakeWait::Failed(value) => HandshakeWaitV::Failed(value.deep_view()),
            HandshakeWait::Dropped => HandshakeWaitV::Dropped,
            HandshakeWait::TimedOut => HandshakeWaitV::TimedOut,
        }
    }
}

impl Duplicate for HandshakeWait {
    fn duplicate(&self) -> (r: Self) {
        match self {
            HandshakeWait::Ready => HandshakeWait::Ready,
            HandshakeWait::Failed(value) => HandshakeWait::Failed(value.duplicate()),
            HandshakeWait::Dropped => HandshakeWait::Dropped,
            HandshakeWait::TimedOut => HandshakeWait::TimedOut,
        }
    }
}

/// What becomes of the agent's process after the wait.
#[derive(Debug, Clone, Copy, PartialEq, Eq, Structural)]
pub enum ChildAction {
    /// It goes on.
    Keep,
    /// It is looked at: it may have ended.
    Inspect,
    /// It is ended.
    Kill,
}

impl DeepView for ChildAction {
    type V = ChildAction;

    open spec fn deep_view(&self) -> ChildAction {
        *self
    }
}

impl Duplicate for ChildAction {
    fn duplicate(&self) -> (r: Self) {
        *self
    }
}

/// The request that opens a connection. Where the agent does its own input
/// and output, it is offered neither files nor a terminal.
pub open spec fn initialize_request(
    local_io: bool,
    client_version: Seq<char>,
) -> InitializeRequestV {
    InitializeRequestV {
        protocol_version: 1,
        client_capabilities: ClientCapabilitiesV {
            fs: FileSystemCapabilitiesV { read_text_file: !local_io, write_text_file: !local_io },
            terminal: !local_io,
            elicitation: Some(ElicitationCapabilitiesV { form: true }),
        },
        client_info: Some(
            ImplementationV {
                name: "agent-of-empires"@,
                version: client_version,
                title: Some("Agent of Empires"@),
            },
        ),
    }
}

/// Builds the request that opens a connection. It always names the client:
/// some agents refuse a client without a name.
pub fn build_initialize_request(local_io: bool, client_version: &str) -> (r: InitializeRequest)
    ensures
        r.deep_view() == initialize_request(local_io, client_version@),
{
    let delegate = !local_io;
    InitializeRequest {
        protocol_version: 1,
        client_capabilities: ClientCapabilities {
            fs: FileSystemCapabilities { read_text_file: delegate, write_text_file: delegate },
            terminal: delegate,
            elicitation: Some(ElicitationCapabilities { form: true }),
        },
        client_info: Some(
            Implementation {
                name: "agent-of-empires".to_owned(),
                version: client_version.to_owned(),
                title: Some("Agent of Empires".to_owned()),
            },
        ),
    }
}

/// Whether one of `names` that is not empty is listed.
pub open spec fn names_listed(listed: Seq<Seq<char>>, names: Seq<Seq<char>>) -> bool {
    exists|i: int|
        0 <= i < names.len() && (#[trigger] names[i]).len() > 0 && listed.contains(names[i])
}

/// The texts of a list of string slices.
pub open spec fn slices(names: Seq<&str>) -> Seq<Seq<char>> {
    names.map_values(|name: &str| name@)
}

/// The texts of a list of strings.
pub open spec fn strings(names: Seq<String>) -> Seq<Seq<char>> {
    names.map_values(|name: String| name@)
}

fn is_listed(listed: &[String], name: &str) -> (r: bool)
    ensures
        r == strings(listed@).contains(name@),
{
    let ghost all = strings(listed@);
    let mut i: usize = 0;
    while i < listed.len()
        invariant
            i <= listed@.len(),
            all == strings(listed@),
            forall|j: int| 0 <= j < i ==> #[trigger] all[j] != name@,
        decreases listed@.len() - i,
    {
        assert(all[i as int] == listed@[i as int]@);
        if text::same(listed[i].as_str(), name) {
            return true;
        }
        i = i + 1;
    }
    false
}

/// Whether one of `names`, the keys that a session's agent goes by, is listed
/// as doing its own input and output. An empty name is never meant.
pub fn local_io_listed(listed: &[String], names: &[&str]) -> (r: bool)
    ensures
        r == names_listed(strings(listed@), slices(names@)),
{
    let ghost all = slices(names@);
    let mut i: usize = 0;
    while i < names.len()
        invariant
            i <= names@.len(),
            all == slices(names@),
            forall|j: int|
                0 <= j < i ==> (#[trigger] all[j]).len() == 0 || !strings(listed@).contains(all[j]),
        decreases names@.len() - i,
    {
        let name = names[i];
        assert(all[i as int] == name@);
        if !text::is_empty(name) && is_listed(listed, name) {
            return true;
        }
        i = i + 1;
    }
    false
}

/// Whether the configuration names one of `names`. `listed` is what it lists,
/// where there is a configuration.
pub fn uses_local_io(listed: Option<&[String]>, names: &[&str]) -> (r: bool)
    ensures
        r == (match listed {
            Some(listed) => names_listed(strings(listed@), slices(names@)),
            None => false,
        }),
{
    match listed {
        Some(listed) => local_io_listed(listed, names),
        None => false,
    }
}

/// How long the client waits for the agent's answer, in seconds.
pub const HANDSHAKE_TIMEOUT_SECS: u64 = 30;

/// What is said of an agent that has not answered in time.
pub open spec fn timeout_message(install_hint: Option<Seq<char>>) -> Seq<char> {
    "agent did not complete the ACP initialize handshake within "@ + text::decimal(
        HANDSHAKE_TIMEOUT_SECS as nat,
    )
        + "s. Common causes: the adapter is still downloading on first run, or the configured agent command isn't a real ACP server. Try `"@
        + (match install_hint {
        Some(hint) => hint,
        None => "install the adapter for the configured agent and re-run"@,
    }) + "` and re-run."@
}

/// The error that the wait ends with, where it ends with one.
pub open spec fn handshake_error(
    wait: HandshakeWaitV,
    install_hint: Option<Seq<char>>,
) -> Option<AcpErrorV> {
    match wait {
        HandshakeWaitV::Ready => None,
        HandshakeWaitV::Failed(error) => Some(error),
        HandshakeWaitV::Dropped => Some(
            AcpErrorV::Spawn(
                "ACP connection task ended before completing the initialize handshake"@,
            ),
        ),
        HandshakeWaitV::TimedOut => Some(AcpErrorV::Spawn(timeout_message(install_hint))),
    }
}

/// An error that also tells what the agent's process has written before it
/// exited: behind the error's message, on a line of its own. A limit has no
/// message, and stays as it is.
pub open spec fn told_with(error: AcpErrorV, stderr: Option<Seq<char>>) -> AcpErrorV {
    match stderr {
        None => error,
        Some(text) => match error {
            AcpErrorV::Spawn(message) => AcpErrorV::Spawn(message + "\n"@ + text),
            AcpErrorV::RateLimited(info) => AcpErrorV::RateLimited(info),
            AcpErrorV::IncompatibleAgent { detail, message } => AcpErrorV::IncompatibleAgent {
                detail,
                message: message + "\n"@ + text,
            },
        },
    }
}

fn append_line(message: String, line: &str) -> (r: String)
    ensures
        r@ == message@ + "\n"@ + line@,
{
    let mut r = message;
    r.append("\n");
    r.append(line);
    r
}

/// Adds to an error what the agent's process has written before it exited, so
/// that the message says why it died.
pub fn with_stderr(error: AcpError, stderr: Option<String>) -> (r: AcpError)
    ensures
        r.deep_view() == told_with(error.deep_view(), stderr.deep_view()),
{
    match stderr {
        None => error,
        Some(text) => match error {
            AcpError::Spawn(message) => AcpError::Spawn(append_line(message, text.as_str())),
            AcpError::RateLimited(info) => AcpError::RateLimited(info),
            AcpError::IncompatibleAgent { detail, message } => AcpError::IncompatibleAgent {
                detail,
                message: append_line(message, text.as_str()),
            },
        },
    }
}

/// What becomes of the agent's process.
pub open spec fn child_action(wait: HandshakeWaitV) -> ChildAction {
    match wait {
        HandshakeWaitV::Failed(_) => ChildAction::Inspect,
        HandshakeWaitV::TimedOut => ChildAction::Kill,
        _ => ChildAction::Keep,
    }
}

/// What the wait for the agent's answer comes to. The wait is bounded, so that
/// an agent that never answers gives an error that says what to do:
/// `install_hint` is how the agent's program is installed. `stderr` is what the
/// agent's process has written, where it exited before it answered; the error
/// tells it, so that the caller sees why the agent died.
pub fn wait_for_handshake(
    wait: HandshakeWait,
    install_hint: Option<String>,
    stderr: Option<String>,
) -> (r: (Result<(), AcpError>, ChildAction))
    ensures
        match handshake_error(wait.deep_view(), install_hint.deep_view()) {
            None => r.0 is Ok,
            Some(error) => r.0 matches Err(e) && e.deep_view() == told_with(
                error,
                stderr.deep_view(),
            ),
        },
        r.1 == child_action(wait.deep_view()),
{
    match wait {
        HandshakeWait::Ready => (Ok(()), ChildAction::Keep),
        HandshakeWait::Failed(error) => (Err(with_stderr(error, stderr)), ChildAction::Inspect),
        HandshakeWait::Dropped => {
            let message =
                "ACP connection task ended before completing the initialize handshake".to_owned();
            (Err(with_stderr(AcpError::Spawn(message), stderr)), ChildAction::Keep)
        },
        HandshakeWait::TimedOut => {
            let seconds = text::decimal_text(HANDSHAKE_TIMEOUT_SECS);
            let hint = match install_hint {
                Some(hint) => hint,
                None => "install the adapter for the configured agent and re-run".to_owned(),
            };
            let mut message =
                "agent did not complete the ACP initialize handshake within ".to_owned();
            message.append(seconds.as_str());
            message.append(
                "s. Common causes: the adapter is still downloading on first run, or the configured agent command isn't a real ACP server. Try `",
            );
            message.append(hint.as_str());
            message.append("` and re-run.");
            (Err(with_stderr(AcpError::Spawn(message), stderr)), ChildAction::Kill)
        },
    }
}

/// An agent that dies before it has answered shows why: whatever the wait ends
/// with, an error with a message has what the agent has written at its end.
pub proof fn law_a_dead_agent_shows_why(
    wait: HandshakeWaitV,
    install_hint: Option<Seq<char>>,
    text: Seq<char>,
)
    requires
        wait !is Ready,
        wait matches HandshakeWaitV::Failed(error) ==> error !is RateLimited,
    ensures
        handshake_error(wait, install_hint) is Some,
        match told_with(handshake_error(wait, install_hint)->0, Some(text)) {
            AcpErrorV::Spawn(message) => text.is_suffix_of(message),
            AcpErrorV::IncompatibleAgent { message, .. } => text.is_suffix_of(message),
            AcpErrorV::RateLimited(_) => false,
        },
{
    let message = match handshake_error(wait, install_hint)->0 {
        AcpErrorV::Spawn(message) => message,
        AcpErrorV::IncompatibleAgent { message, .. } => message,
        AcpErrorV::RateLimited(_) => seq![],
    };
    let told = message + "\n"@ + text;
    assert(told.subrange(told.len() - text.len(), told.len() as int) =~= text);
}

/// An agent that does its own input and output is offered neither files nor
/// a terminal; questions to the user are offered to every agent.
pub proof fn law_local_io_withholds_delegation(local_io: bool, client_version: Seq<char>)
    ensures
        ({
            let offered = initialize_request(local_io, client_version).client_capabilities;
            &&& offered.terminal == !local_io
            &&& offered.fs.read_text_file == !local_io
            &&& offered.fs.write_text_file == !local_io
            &&& offered.elicitation is Some
        }),
{
}

/// A session is forked exactly where a parent is named and the agent can fork.
pub proof fn law_a_fork_needs_a_parent_and_an_agent(parent: Seq<char>, can: bool)
    ensures
        forks(Some(parent), can) <==> can && parent.len() > 0,
        !forks(None, can),
{
}

/// The client says who it is: by a name that is not empty, in its own version, in the
/// first version of the protocol. It can put forms to the user.
pub proof fn law_the_client_says_who_it_is(local_io: bool, client_version: Seq<char>)
    ensures
        ({
            let request = initialize_request(local_io, client_version);
            &&& request.protocol_version == 1
            &&& request.client_info matches Some(info)
            &&& info.name == "agent-of-empires"@
            &&& info.name.len() > 0
            &&& info.version == client_version
            &&& request.client_capabilities.elicitation matches Some(forms)
            &&& forms.form
        }),
{
    reveal_strlit("agent-of-empires");
}

/// An agent is listed under one of its names, which has to be the same name; an empty
/// name is never listed.
pub proof fn law_listed_names_are_the_same_names(
    listed: Seq<Seq<char>>,
    names: Seq<Seq<char>>,
    i: int,
    j: int,
)
    ensures
        0 <= i < names.len() && 0 <= j < listed.len() && names[i] == listed[j] && names[i].len() > 0
            ==> names_listed(listed, names),
        (forall|k: int| 0 <= k < names.len() ==> (#[trigger] names[k]).len() == 0) ==> !names_listed(
            listed,
            names,
        ),
        listed.len() == 0 ==> !names_listed(listed, names),
{
}

/// The wait fails exactly where the agent did not answer well: with the error that it
/// gave, or with one that says what happened. Who waited too long is told how to
/// install the agent, where that is known.
pub proof fn law_the_wait_fails_for_its_reason(
    wait: HandshakeWaitV,
    install_hint: Option<Seq<char>>,
)
    ensures
        handshake_error(wait, install_hint) is None <==> wait is Ready,
        wait matches HandshakeWaitV::Failed(error) ==> handshake_error(wait, install_hint) == Some(
            error,
        ),
        wait is Dropped || wait is TimedOut ==> handshake_error(wait, install_hint)->0 is Spawn,
        wait is Dropped ==> handshake_error(wait, install_hint)->0->Spawn_0
            == "ACP connection task ended before completing the initialize handshake"@,
        HANDSHAKE_TIMEOUT_SECS == 30,
        wait is TimedOut && install_hint is Some ==> text::has_text(
            handshake_error(wait, install_hint)->0->Spawn_0,
            install_hint->0,
        ),
        child_action(wait) is Kill <==> wait is TimedOut,
        child_action(wait) is Inspect <==> wait is Failed,
{
    if wait is TimedOut && install_hint is Some {
        let hint = install_hint->0;
        let before = "agent did not complete the ACP initialize handshake within "@
            + text::decimal(HANDSHAKE_TIMEOUT_SECS as nat)
            + "s. Common causes: the adapter is still downloading on first run, or the configured agent command isn't a real ACP server. Try `"@;
        text::law_parts_are_found(before, hint, "` and re-run."@);
        assert(timeout_message(install_hint) == before + hint + "` and re-run."@);
    }
}

/// Without anything from the agent's process an error stays as it is; with it, the
/// error is of the same kind and begins with what it said before.
pub proof fn law_errors_keep_what_they_say(error: AcpErrorV, text: Seq<char>)
    ensures
        told_with(error, None) == error,
        match (error, told_with(error, Some(text))) {
            (AcpErrorV::Spawn(message), AcpErrorV::Spawn(told)) => text::begins_with(told, message),
            (AcpErrorV::RateLimited(info), AcpErrorV::RateLimited(same)) => same == info,
            (
                AcpErrorV::IncompatibleAgent { detail, message },
                AcpErrorV::IncompatibleAgent { detail: same, message: told },
            ) => same == detail && text::begins_with(told, message),
            _ => false,
        },
{
    let message = match error {
        AcpErrorV::Spawn(message) => message,
        AcpErrorV::IncompatibleAgent { message, .. } => message,
        AcpErrorV::RateLimited(_) => seq![],
    };
    let told = message + "\n"@ + text;
    assert(told.subrange(0, message.len() as int) =~= message);
}

}
