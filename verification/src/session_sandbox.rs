//! The container that a sandboxed session runs in, and the command line that
//! runs the agent inside it.

use crate::errors::{AcpError, AcpErrorV};
use crate::model;
use crate::model::Duplicate;
use crate::text;
use std::path::PathBuf;
use vstd::prelude::*;
use vstd::string::*;

verus! {

/// `std::path::PathBuf`, of which nothing is known but which value it is.
#[verifier::external_type_specification]
#[verifier::external_body]
pub struct ExPathBuf(std::path::PathBuf);

/// `PathBuf::clone` gives the same path.
pub assume_specification[ <std::path::PathBuf as Clone>::clone ](
    path: &std::path::PathBuf,
) -> (r: std::path::PathBuf)
    ensures
        r == *path,
;

/// The path that `PathBuf::from` makes of a text.
pub uninterp spec fn path_of(text: Seq<char>) -> PathBuf;

/// `PathBuf::from(String)`: the path is a function of the text alone, here
/// called [`path_of`].
#[verifier::external_body]
fn path_from(text: String) -> (r: PathBuf)
    ensures
        r == path_of(text@),
{
    PathBuf::from(text)
}

/// What is stored of a session's sandbox.
#[derive(Debug, PartialEq, Eq)]
pub struct SandboxInfo {
    pub enabled: bool,
    pub container_id: Option<String>,
    pub image: String,
    pub container_name: String,
    pub extra_env: Option<Vec<String>>,
    pub custom_instruction: Option<String>,
    pub before_start_env: Vec<String>,
    /// The working directory that the container was created with.
    pub container_workdir: Option<String>,
}

/// The model of [`SandboxInfo`].
#[verifier::ext_equal]
pub struct SandboxInfoV {
    pub enabled: bool,
    pub container_id: Option<Seq<char>>,
    pub image: Seq<char>,
    pub container_name: Seq<char>,
    pub extra_env: Option<Seq<Seq<char>>>,
    pub custom_instruction: Option<Seq<char>>,
    pub before_start_env: Seq<Seq<char>>,
    pub container_workdir: Option<Seq<char>>,
}

impl DeepView for SandboxInfo {
    type V = SandboxInfoV;

    open spec fn deep_view(&self) -> SandboxInfoV {
        SandboxInfoV {
            enabled: self.enabled.deep_view(),
            container_id: self.container_id.deep_view(),
            image: self.image.deep_view(),
            container_name: self.container_name.deep_view(),
            extra_env: self.extra_env.deep_view(),
            custom_instruction: self.custom_instruction.deep_view(),
            before_start_env: self.before_start_env.deep_view(),
            container_workdir: self.container_workdir.deep_view(),
        }
    }
}

impl Duplicate for SandboxInfo {
    fn duplicate(&self) -> (r: Self) {
        SandboxInfo {
            enabled: self.enabled.duplicate(),
            container_id: self.container_id.duplicate(),
            image: self.image.duplicate(),
            container_name: self.container_name.duplicate(),
            extra_env: self.extra_env.duplicate(),
            custom_instruction: self.custom_instruction.duplicate(),
            before_start_env: self.before_start_env.duplicate(),
            container_workdir: self.container_workdir.duplicate(),
        }
    }
}

/// A directory of the host and where the container sees it.
#[derive(Debug, PartialEq, Eq)]
pub struct VolumePath {
    pub host_path: String,
    pub container_path: String,
}

/// The model of [`VolumePath`].
#[verifier::ext_equal]
pub struct VolumePathV {
    pub host_path: Seq<char>,
    pub container_path: Seq<char>,
}

impl DeepView for VolumePath {
    type V = VolumePathV;

    open spec fn deep_view(&self) -> VolumePathV {
        VolumePathV {
            host_path: self.host_path.deep_view(),
            container_path: self.container_path.deep_view(),
        }
    }
}

impl Duplicate for VolumePath {
    fn duplicate(&self) -> (r: Self) {
        VolumePath {
            host_path: self.host_path.duplicate(),
            container_path: self.container_path.duplicate(),
        }
    }
}

/// The volumes and the working directory that a container for a project
/// would be created with now.
#[derive(Debug, PartialEq, Eq)]
pub struct VolumePaths {
    pub volumes: Vec<VolumePath>,
    pub workdir: String,
}

/// The model of [`VolumePaths`].
#[verifier::ext_equal]
pub struct VolumePathsV {
    pub volumes: Seq<VolumePathV>,
    pub workdir: Seq<char>,
}

impl DeepView for VolumePaths {
    type V = VolumePathsV;

    open spec fn deep_view(&self) -> VolumePathsV {
        VolumePathsV {
            volumes: self.volumes.deep_view(),
            workdir: self.workdir.deep_view(),
        }
    }
}

impl Duplicate for VolumePaths {
    fn duplicate(&self) -> (r: Self) {
        VolumePaths {
            volumes: self.volumes.duplicate(),
            workdir: self.workdir.duplicate(),
        }
    }
}

/// An entry of a container's environment. The value of an inherited one is
/// handed over without being written on the command line.
#[derive(Debug, PartialEq, Eq)]
pub enum EnvEntry {
    Literal { key: String, value: String },
    Inherit { key: String, value: String },
}

/// The model of [`EnvEntry`].
#[verifier::ext_equal]
pub enum EnvEntryV {
    Literal { key: Seq<char>, value: Seq<char> },
    Inherit { key: Seq<char>, value: Seq<char> },
}

impl DeepView for EnvEntry {
    type V = EnvEntryV;

    open spec fn deep_view(&self) -> EnvEntryV {
        match self {
            EnvEntry::Literal { key, value } => {
                EnvEntryV::Literal {
                    key: key.deep_view(),
                    value: value.deep_view(),
                }
            },
            EnvEntry::Inherit { key, value } => {
                EnvEntryV::Inherit {
                    key: key.deep_view(),
                    value: value.deep_view(),
                }
            },
        }
    }
}

impl Duplicate for EnvEntry {
    fn duplicate(&self) -> (r: Self) {
        match self {
            EnvEntry::Literal { key, value } => {
                EnvEntry::Literal {
                    key: key.duplicate(),
                    value: value.duplicate(),
                }
            },
            EnvEntry::Inherit { key, value } => {
                EnvEntry::Inherit {
                    key: key.duplicate(),
                    value: value.duplicate(),
                }
            },
        }
    }
}

/// The command that starts an agent.
#[derive(Debug, PartialEq, Eq)]
pub struct AgentSpec {
    pub command: String,
    pub args: Vec<String>,
}

/// The model of [`AgentSpec`].
#[verifier::ext_equal]
pub struct AgentSpecV {
    pub command: Seq<char>,
    pub args: Seq<Seq<char>>,
}

impl DeepView for AgentSpec {
    type V = AgentSpecV;

    open spec fn deep_view(&self) -> AgentSpecV {
        AgentSpecV {
            command: self.command.deep_view(),
            args: self.args.deep_view(),
        }
    }
}

impl Duplicate for AgentSpec {
    fn duplicate(&self) -> (r: Self) {
        AgentSpec {
            command: self.command.duplicate(),
            args: self.args.duplicate(),
        }
    }
}

/// How an agent is started, and the environment that the request asks for.
#[derive(Debug, PartialEq, Eq)]
pub struct SpawnConfig {
    pub spec: AgentSpec,
    pub provider_env: Vec<(String, String)>,
}

/// The model of [`SpawnConfig`].
#[verifier::ext_equal]
pub struct SpawnConfigV {
    pub spec: AgentSpecV,
    pub provider_env: Seq<(Seq<char>, Seq<char>)>,
}

impl DeepView for SpawnConfig {
    type V = SpawnConfigV;

    open spec fn deep_view(&self) -> SpawnConfigV {
        SpawnConfigV {
            spec: self.spec.deep_view(),
            provider_env: self.provider_env.deep_view(),
        }
    }
}

impl Duplicate for SpawnConfig {
    fn duplicate(&self) -> (r: Self) {
        SpawnConfig {
            spec: self.spec.duplicate(),
            provider_env: self.provider_env.duplicate(),
        }
    }
}

/// What the host contributes to a sandboxed agent.
#[derive(Debug, PartialEq, Eq)]
pub struct SandboxHost {
    /// The program that runs containers.
    pub docker_binary: String,
    /// The environment that the sandbox is configured with.
    pub env_entries: Vec<EnvEntry>,
    /// The variable for the directory of artifacts, and its value.
    pub artifact_dir: (String, String),
    /// The variables of the host that the agent may see.
    pub allowlisted_env: Vec<(String, String)>,
    /// Variables that a request may not set.
    pub denied_keys: Vec<String>,
    /// Variables that name a path of the host.
    pub host_only_keys: Vec<String>,
}

/// The model of [`SandboxHost`].
#[verifier::ext_equal]
pub struct SandboxHostV {
    pub docker_binary: Seq<char>,
    pub env_entries: Seq<EnvEntryV>,
    pub artifact_dir: (Seq<char>, Seq<char>),
    pub allowlisted_env: Seq<(Seq<char>, Seq<char>)>,
    pub denied_keys: Seq<Seq<char>>,
    pub host_only_keys: Seq<Seq<char>>,
}

impl DeepView for SandboxHost {
    type V = SandboxHostV;

    open spec fn deep_view(&self) -> SandboxHostV {
        SandboxHostV {
            docker_binary: self.docker_binary.deep_view(),
            env_entries: self.env_entries.deep_view(),
            artifact_dir: self.artifact_dir.deep_view(),
            allowlisted_env: self.allowlisted_env.deep_view(),
            denied_keys: self.denied_keys.deep_view(),
            host_only_keys: self.host_only_keys.deep_view(),
        }
    }
}

impl Duplicate for SandboxHost {
    fn duplicate(&self) -> (r: Self) {
        SandboxHost {
            docker_binary: self.docker_binary.duplicate(),
            env_entries: self.env_entries.duplicate(),
            artifact_dir: self.artifact_dir.duplicate(),
            allowlisted_env: self.allowlisted_env.duplicate(),
            denied_keys: self.denied_keys.duplicate(),
            host_only_keys: self.host_only_keys.duplicate(),
        }
    }
}

/// The command line for a sandboxed agent. The variables of `inherit_env` are
/// set for the program, whose `-e` flags then hand them into the container.
#[derive(Debug, PartialEq, Eq)]
pub struct SandboxArgv {
    pub docker_binary: String,
    pub docker_args: Vec<String>,
    pub inherit_env: Vec<(String, String)>,
}

/// The model of [`SandboxArgv`].
#[verifier::ext_equal]
pub struct SandboxArgvV {
    pub docker_binary: Seq<char>,
    pub docker_args: Seq<Seq<char>>,
    pub inherit_env: Seq<(Seq<char>, Seq<char>)>,
}

impl DeepView for SandboxArgv {
    type V = SandboxArgvV;

    open spec fn deep_view(&self) -> SandboxArgvV {
        SandboxArgvV {
            docker_binary: self.docker_binary.deep_view(),
            docker_args: self.docker_args.deep_view(),
            inherit_env: self.inherit_env.deep_view(),
        }
    }
}

impl Duplicate for SandboxArgv {
    fn duplicate(&self) -> (r: Self) {
        SandboxArgv {
            docker_binary: self.docker_binary.duplicate(),
            docker_args: self.docker_args.duplicate(),
            inherit_env: self.inherit_env.duplicate(),
        }
    }
}

/// Which directory of the host a path of the container stands for.
#[derive(Debug, PartialEq, Eq)]
pub struct SandboxPathMap {
    /// Paths of the container with their paths of the host.
    pub mounts: Vec<(PathBuf, PathBuf)>,
}

/// The sandbox of a session.
#[derive(Debug, PartialEq, Eq)]
pub struct SessionSandbox {
    pub container_name: String,
    pub container_workdir: PathBuf,
    /// What the environment is resolved from whenever a terminal is opened.
    pub sandbox_info: SandboxInfo,
    /// The profile that the session was created under.
    pub source_profile: Option<String>,
    /// The project's path on the host.
    pub project_path: PathBuf,
}

/// The model of [`SessionSandbox`].
#[verifier::ext_equal]
pub struct SessionSandboxV {
    pub container_name: Seq<char>,
    pub container_workdir: PathBuf,
    pub sandbox_info: SandboxInfoV,
    pub source_profile: Option<Seq<char>>,
    pub project_path: PathBuf,
}

impl DeepView for SessionSandbox {
    type V = SessionSandboxV;

    open spec fn deep_view(&self) -> SessionSandboxV {
        SessionSandboxV {
            container_name: self.container_name.deep_view(),
            container_workdir: self.container_workdir,
            sandbox_info: self.sandbox_info.deep_view(),
            source_profile: self.source_profile.deep_view(),
            project_path: self.project_path,
        }
    }
}

/// The working directory inside the container: the one that the container was
/// created with, else the one that it has now, and only where there is none
/// yet the one that it would be created with.
pub open spec fn effective_workdir(
    pinned: Option<Seq<char>>,
    live: Option<Seq<char>>,
    computed: Seq<char>,
) -> Seq<char> {
    match (pinned, live) {
        (Some(workdir), _) => workdir,
        (None, Some(workdir)) => workdir,
        (None, None) => computed,
    }
}

/// The mounts of a list of volumes.
pub open spec fn mounts_of(volumes: Seq<VolumePathV>) -> Seq<(PathBuf, PathBuf)> {
    volumes.map_values(
        |volume: VolumePathV| (path_of(volume.container_path), path_of(volume.host_path)),
    )
}

/// The profile under which a sandbox's environment is resolved. A session
/// that was stored without one goes by the default profile.
pub open spec fn env_profile(sandbox: SessionSandboxV) -> Seq<char> {
    match sandbox.source_profile {
        Some(profile) => profile,
        None => ""@,
    }
}

fn make_mounts(volumes: Vec<VolumePath>) -> (r: Vec<(PathBuf, PathBuf)>)
    ensures
        r@ == mounts_of(volumes.deep_view()),
{
    let ghost all = mounts_of(volumes.deep_view());
    let mut r: Vec<(PathBuf, PathBuf)> = Vec::new();
    let mut i: usize = 0;
    while i < volumes.len()
        invariant
            i <= volumes@.len(),
            all == mounts_of(volumes.deep_view()),
            r@.len() == i,
            forall|j: int| 0 <= j < i ==> #[trigger] r@[j] == all[j],
        decreases volumes@.len() - i,
    {
        let container_path = path_from(volumes[i].container_path.clone());
        let host_path = path_from(volumes[i].host_path.clone());
        r.push((container_path, host_path));
        i = i + 1;
    }
    proof {
        assert(r@ =~= all);
    }
    r
}

impl SessionSandbox {
    /// Builds a session's sandbox, and the map of its mounts, from what is
    /// stored of it. `computed` is what a container for the project would be
    /// created with now, and `live_workdir` the working directory that the
    /// container has now, which only matters where none is stored.
    pub fn from_info(
        sandbox: &SandboxInfo,
        project_path: &PathBuf,
        source_profile: Option<String>,
        computed: Result<VolumePaths, String>,
        live_workdir: Option<String>,
    ) -> (r: Result<(Self, SandboxPathMap), AcpError>)
        ensures
            match computed {
                Err(error) => r matches Err(e) && e.deep_view() == AcpErrorV::Spawn(
                    "compute container workdir: "@ + error@,
                ),
                Ok(paths) => r matches Ok((session, map)) && session.deep_view() == (
                SessionSandboxV {
                    container_name: sandbox.container_name@,
                    container_workdir: path_of(
                        effective_workdir(
                            sandbox.container_workdir.deep_view(),
                            live_workdir.deep_view(),
                            paths.workdir@,
                        ),
                    ),
                    sandbox_info: sandbox.deep_view(),
                    source_profile: source_profile.deep_view(),
                    project_path: *project_path,
                }) && map.mounts@ == mounts_of(paths.deep_view().volumes),
            },
    {
        let paths = match computed {
            Ok(paths) => paths,
            Err(error) => {
                return Err(
                    AcpError::Spawn(text::cat("compute container workdir: ", error.as_str())),
                );
            },
        };
        let workdir = match &sandbox.container_workdir {
            Some(pinned) => pinned.clone(),
            None => match live_workdir {
                Some(live) => live,
                None => paths.workdir,
            },
        };
        let mounts = make_mounts(paths.volumes);
        Ok(
            (
                SessionSandbox {
                    container_name: sandbox.container_name.clone(),
                    container_workdir: path_from(workdir),
                    sandbox_info: sandbox.duplicate(),
                    source_profile,
                    project_path: project_path.clone(),
                },
                SandboxPathMap { mounts },
            ),
        )
    }

    /// The environment of this sandbox as it is now. `collect` reads it for a
    /// profile, the project's path and what is stored of the sandbox. It is
    /// called each time, so that a value that has changed on the host reaches
    /// the next terminal.
    pub fn current_env_entries<F: Fn(&str, &PathBuf, &SandboxInfo) -> Vec<EnvEntry>>(
        &self,
        collect: F,
    ) -> (r: Vec<EnvEntry>)
        requires
            forall|profile: &str|
                profile@ == env_profile(self.deep_view()) ==> call_requires(
                    collect,
                    (profile, &self.project_path, &self.sandbox_info),
                ),
        ensures
            exists|profile: &str|
                profile@ == env_profile(self.deep_view()) && call_ensures(
                    collect,
                    (profile, &self.project_path, &self.sandbox_info),
                    r,
                ),
    {
        let profile = match &self.source_profile {
            Some(profile) => profile.as_str(),
            None => "",
        };
        assert(profile@ == env_profile(self.deep_view()));
        collect(profile, &self.project_path, &self.sandbox_info)
    }
}

/// The key of an entry.
pub open spec fn entry_key(entry: EnvEntryV) -> Seq<char> {
    match entry {
        EnvEntryV::Literal { key, .. } => key,
        EnvEntryV::Inherit { key, .. } => key,
    }
}

/// The keys of a list of entries.
pub open spec fn entry_keys(entries: Seq<EnvEntryV>) -> Seq<Seq<char>> {
    entries.map_values(|entry: EnvEntryV| entry_key(entry))
}

/// The flags of an entry: `-e KEY=VALUE`, or `-e KEY` for an inherited one.
pub open spec fn entry_flags(entry: EnvEntryV) -> Seq<Seq<char>> {
    match entry {
        EnvEntryV::Literal { key, value } => seq!["-e"@, key + "="@ + value],
        EnvEntryV::Inherit { key, .. } => seq!["-e"@, key],
    }
}

/// The flags of a list of entries.
pub open spec fn env_flags(entries: Seq<EnvEntryV>) -> Seq<Seq<char>>
    decreases entries.len(),
{
    if entries.len() == 0 {
        seq![]
    } else {
        env_flags(entries.drop_last()) + entry_flags(entries.last())
    }
}

/// The variables that the entries of a list inherit.
pub open spec fn inherited(entries: Seq<EnvEntryV>) -> Seq<(Seq<char>, Seq<char>)>
    decreases entries.len(),
{
    if entries.len() == 0 {
        seq![]
    } else {
        match entries.last() {
            EnvEntryV::Inherit { key, value } => inherited(entries.drop_last()).push((key, value)),
            EnvEntryV::Literal { .. } => inherited(entries.drop_last()),
        }
    }
}

/// The flags of a list of variables: `-e KEY` for each.
pub open spec fn key_flags(pairs: Seq<(Seq<char>, Seq<char>)>) -> Seq<Seq<char>>
    decreases pairs.len(),
{
    if pairs.len() == 0 {
        seq![]
    } else {
        key_flags(pairs.drop_last()) + seq!["-e"@, pairs.last().0]
    }
}

/// Whether variable `i` of a list is handed on: its key is not skipped, is
/// not taken, and does not stand earlier in the list.
pub open spec fn claims_key(
    pairs: Seq<(Seq<char>, Seq<char>)>,
    skipped: Seq<Seq<char>>,
    taken: Seq<Seq<char>>,
    i: int,
) -> bool {
    &&& !skipped.contains(pairs[i].0)
    &&& !taken.contains(pairs[i].0)
    &&& forall|j: int| 0 <= j < i ==> (#[trigger] pairs[j]).0 != pairs[i].0
}

/// The variables of a list that are handed on, in its order.
pub open spec fn claimed(
    pairs: Seq<(Seq<char>, Seq<char>)>,
    skipped: Seq<Seq<char>>,
    taken: Seq<Seq<char>>,
) -> Seq<(Seq<char>, Seq<char>)>
    decreases pairs.len(),
{
    if pairs.len() == 0 {
        seq![]
    } else if claims_key(pairs, skipped, taken, pairs.len() - 1) {
        claimed(pairs.drop_last(), skipped, taken).push(pairs.last())
    } else {
        claimed(pairs.drop_last(), skipped, taken)
    }
}

/// The keys of a list of variables.
pub open spec fn pair_keys(pairs: Seq<(Seq<char>, Seq<char>)>) -> Seq<Seq<char>> {
    pairs.map_values(|pair: (Seq<char>, Seq<char>)| pair.0)
}

/// The environment of a sandbox, with the variable for the directory of
/// artifacts.
pub open spec fn sandbox_entries(host: SandboxHostV) -> Seq<EnvEntryV> {
    host.env_entries.push(
        EnvEntryV::Literal { key: host.artifact_dir.0, value: host.artifact_dir.1 },
    )
}

/// The variables of the request that are handed on: those that it may set and
/// that the sandbox's own environment leaves free.
pub open spec fn request_env(config: SpawnConfigV, host: SandboxHostV) -> Seq<
    (Seq<char>, Seq<char>),
> {
    claimed(config.provider_env, host.denied_keys, entry_keys(sandbox_entries(host)))
}

/// The variables of the host that are handed on: those that name no path of
/// the host and that both the sandbox and the request leave free.
pub open spec fn host_env(config: SpawnConfigV, host: SandboxHostV) -> Seq<
    (Seq<char>, Seq<char>),
> {
    claimed(
        host.allowlisted_env,
        host.host_only_keys,
        entry_keys(sandbox_entries(host)) + pair_keys(request_env(config, host)),
    )
}

/// The command line for a sandboxed agent: `exec -i -w WORKDIR`, the
/// environment, the container's name and the agent's command.
pub open spec fn docker_argv(
    config: SpawnConfigV,
    container_name: Seq<char>,
    container_workdir: Seq<char>,
    host: SandboxHostV,
) -> SandboxArgvV {
    SandboxArgvV {
        docker_binary: host.docker_binary,
        docker_args: seq!["exec"@, "-i"@, "-w"@, container_workdir] + env_flags(
            sandbox_entries(host),
        ) + key_flags(request_env(config, host)) + key_flags(host_env(config, host)) + seq![
            container_name,
            config.spec.command,
        ] + config.spec.args,
        inherit_env: inherited(sandbox_entries(host)) + request_env(config, host) + host_env(
            config,
            host,
        ),
    }
}

fn write_entries(
    entries: &Vec<EnvEntry>,
    args: &mut Vec<String>,
    inherit_env: &mut Vec<(String, String)>,
    keys: &mut Vec<String>,
)
    ensures
        final(args).deep_view() == old(args).deep_view() + env_flags(entries.deep_view()),
        final(inherit_env).deep_view() == old(inherit_env).deep_view() + inherited(
            entries.deep_view(),
        ),
        final(keys).deep_view() == old(keys).deep_view() + entry_keys(entries.deep_view()),
{
    let ghost all = entries.deep_view();
    let ghost args0 = args.deep_view();
    let ghost env0 = inherit_env.deep_view();
    let ghost keys0 = keys.deep_view();
    let mut i: usize = 0;
    proof {
        assert(args0 + env_flags(all.take(0)) =~= args0);
        assert(env0 + inherited(all.take(0)) =~= env0);
        assert(keys0 + entry_keys(all.take(0)) =~= keys0);
    }
    while i < entries.len()
        invariant
            i <= entries@.len(),
            all == entries.deep_view(),
            args.deep_view() == args0 + env_flags(all.take(i as int)),
            inherit_env.deep_view() == env0 + inherited(all.take(i as int)),
            keys.deep_view() == keys0 + entry_keys(all.take(i as int)),
        decreases entries@.len() - i,
    {
        proof {
            let next = all.take(i + 1);
            assert(next.drop_last() =~= all.take(i as int));
            assert(next.last() == all[i as int]);
            assert(entry_keys(next) =~= entry_keys(all.take(i as int)).push(
                entry_key(all[i as int]),
            ));
        }
        let ghost args1 = args.deep_view();
        let ghost env1 = inherit_env.deep_view();
        let ghost keys1 = keys.deep_view();
        match &entries[i] {
            EnvEntry::Literal { key, value } => {
                let mut assignment = key.clone();
                assignment.append("=");
                assignment.append(value.as_str());
                model::push(args, "-e".to_owned());
                model::push(args, assignment);
                model::push(keys, key.clone());
            },
            EnvEntry::Inherit { key, value } => {
                model::push(args, "-e".to_owned());
                model::push(args, key.clone());
                model::push(inherit_env, (key.clone(), value.clone()));
                model::push(keys, key.clone());
            },
        }
        proof {
            assert(args.deep_view() =~= args1 + entry_flags(all[i as int]));
            assert(args.deep_view() =~= args0 + env_flags(all.take(i + 1)));
            assert(inherit_env.deep_view() =~= env0 + inherited(all.take(i + 1)));
            assert(keys.deep_view() =~= keys0 + entry_keys(all.take(i + 1)));
        }
        i = i + 1;
    }
    proof {
        assert(all.take(i as int) =~= all);
    }
}

proof fn lemma_claimed_keys(
    pairs: Seq<(Seq<char>, Seq<char>)>,
    skipped: Seq<Seq<char>>,
    taken: Seq<Seq<char>>,
    n: int,
    key: Seq<char>,
)
    requires
        0 <= n <= pairs.len(),
        !skipped.contains(key),
        !taken.contains(key),
    ensures
        pair_keys(claimed(pairs.take(n), skipped, taken)).contains(key) == (exists|j: int|
            0 <= j < n && (#[trigger] pairs[j]).0 == key),
    decreases n,
{
    let first = pairs.take(n);
    let keys = pair_keys(claimed(first, skipped, taken));
    if n == 0 {
        assert(keys.len() == 0);
    } else {
        let before = pairs.take(n - 1);
        assert(first.drop_last() =~= before);
        lemma_claimed_keys(pairs, skipped, taken, n - 1, key);
        let old_keys = pair_keys(claimed(before, skipped, taken));
        if claims_key(first, skipped, taken, n - 1) {
            assert(keys =~= old_keys.push(pairs[n - 1].0));
            if old_keys.contains(key) {
                let k = choose|k: int| 0 <= k < old_keys.len() && old_keys[k] == key;
                assert(keys[k] == key);
            }
            if pairs[n - 1].0 == key {
                assert(keys[old_keys.len() as int] == key);
            }
            if keys.contains(key) && pairs[n - 1].0 != key {
                let k = choose|k: int| 0 <= k < keys.len() && keys[k] == key;
                assert(old_keys[k] == key);
            }
        } else if pairs[n - 1].0 == key {
            let j = choose|j: int| 0 <= j < n - 1 && (#[trigger] first[j]).0 == first[n - 1].0;
            assert(pairs[j].0 == key);
        }
    }
}

fn write_pairs(
    pairs: &Vec<(String, String)>,
    skipped: &Vec<String>,
    args: &mut Vec<String>,
    inherit_env: &mut Vec<(String, String)>,
    keys: &mut Vec<String>,
)
    ensures
        ({
            let handed = claimed(
                pairs.deep_view(),
                skipped.deep_view(),
                old(keys).deep_view(),
            );
            &&& final(args).deep_view() == old(args).deep_view() + key_flags(handed)
            &&& final(inherit_env).deep_view() == old(inherit_env).deep_view() + handed
            &&& final(keys).deep_view() == old(keys).deep_view() + pair_keys(handed)
        }),
{
    let ghost all = pairs.deep_view();
    let ghost skip = skipped.deep_view();
    let ghost args0 = args.deep_view();
    let ghost env0 = inherit_env.deep_view();
    let ghost keys0 = keys.deep_view();
    let mut i: usize = 0;
    proof {
        assert(args0 + key_flags(claimed(all.take(0), skip, keys0)) =~= args0);
        assert(env0 + claimed(all.take(0), skip, keys0) =~= env0);
        assert(keys0 + pair_keys(claimed(all.take(0), skip, keys0)) =~= keys0);
    }
    while i < pairs.len()
        invariant
            i <= pairs@.len(),
            all == pairs.deep_view(),
            skip == skipped.deep_view(),
            args.deep_view() == args0 + key_flags(claimed(all.take(i as int), skip, keys0)),
            inherit_env.deep_view() == env0 + claimed(all.take(i as int), skip, keys0),
            keys.deep_view() == keys0 + pair_keys(claimed(all.take(i as int), skip, keys0)),
        decreases pairs@.len() - i,
    {
        let ghost handed = claimed(all.take(i as int), skip, keys0);
        let ghost next = all.take(i + 1);
        let key = pairs[i].0.as_str();
        assert(all[i as int].0 == key@);
        let is_skipped = text::contains_name(skipped, key);
        let is_taken = text::contains_name(keys, key);
        proof {
            assert(next.drop_last() =~= all.take(i as int));
            assert(next.last() == all[i as int]);
            let seen = keys.deep_view();
            if !is_skipped && !keys0.contains(key@) {
                lemma_claimed_keys(all, skip, keys0, i as int, key@);
                assert(seen.contains(key@) == pair_keys(handed).contains(key@)) by {
                    if seen.contains(key@) {
                        let k = choose|k: int| 0 <= k < seen.len() && seen[k] == key@;
                        if k < keys0.len() {
                            assert(keys0[k] == key@);
                        } else {
                            assert(pair_keys(handed)[k - keys0.len()] == key@);
                        }
                    }
                    if pair_keys(handed).contains(key@) {
                        let k = choose|k: int|
                            0 <= k < pair_keys(handed).len() && pair_keys(handed)[k] == key@;
                        assert(seen[keys0.len() + k] == key@);
                    }
                }
                if is_taken {
                    let j = choose|j: int| 0 <= j < i && (#[trigger] all[j]).0 == key@;
                    assert(next[j].0 == next[i as int].0);
                } else {
                    assert forall|j: int| 0 <= j < i implies (#[trigger] next[j]).0 != next[i as int].0 by {
                        assert(all[j].0 != key@);
                    }
                }
            } else if keys0.contains(key@) {
                let k = choose|k: int| 0 <= k < keys0.len() && keys0[k] == key@;
                assert(seen[k] == key@);
            }
            assert(claims_key(next, skip, keys0, i as int) == (!is_skipped && !is_taken));
        }
        if !is_skipped && !is_taken {
            let ghost args1 = args.deep_view();
            model::push(args, "-e".to_owned());
            model::push(args, pairs[i].0.clone());
            model::push(inherit_env, pairs[i].duplicate());
            model::push(keys, pairs[i].0.clone());
            proof {
                let more = handed.push(all[i as int]);
                assert(claimed(next, skip, keys0) == more);
                assert(more.drop_last() =~= handed);
                assert(args.deep_view() =~= args1 + seq!["-e"@, key@]);
                assert(args.deep_view() =~= args0 + key_flags(more));
                assert(inherit_env.deep_view() =~= env0 + more);
                assert(pair_keys(more) =~= pair_keys(handed).push(key@));
                assert(keys.deep_view() =~= keys0 + pair_keys(more));
            }
        }
        i = i + 1;
    }
    proof {
        assert(all.take(i as int) =~= all);
    }
}

/// Builds the command line for a sandboxed agent. The program that runs
/// containers hands the agent's input and output across their boundary. Of a
/// key that several sources name, the sandbox's own environment wins, then
/// the request's, then the host's.
pub fn build_sandbox_docker_argv(
    config: &SpawnConfig,
    sandbox: &SandboxInfo,
    container_workdir: &str,
    host: &SandboxHost,
) -> (r: Result<SandboxArgv, AcpError>)
    ensures
        r matches Ok(argv) && argv.deep_view() == docker_argv(
            config.deep_view(),
            sandbox.container_name@,
            container_workdir@,
            host.deep_view(),
        ),
{
    let mut entries = host.env_entries.duplicate();
    model::push(
        &mut entries,
        EnvEntry::Literal { key: host.artifact_dir.0.clone(), value: host.artifact_dir.1.clone() },
    );
    let mut docker_args = model::two("exec".to_owned(), "-i".to_owned());
    model::push(&mut docker_args, "-w".to_owned());
    model::push(&mut docker_args, container_workdir.to_owned());
    proof {
        assert(docker_args.deep_view() =~= seq!["exec"@, "-i"@, "-w"@, container_workdir@]);
    }
    let mut inherit_env: Vec<(String, String)> = model::empty();
    let mut keys: Vec<String> = model::empty();
    write_entries(&entries, &mut docker_args, &mut inherit_env, &mut keys);
    proof {
        let all = sandbox_entries(host.deep_view());
        assert(inherit_env.deep_view() =~= inherited(all));
        assert(keys.deep_view() =~= entry_keys(all));
    }
    write_pairs(
        &config.provider_env,
        &host.denied_keys,
        &mut docker_args,
        &mut inherit_env,
        &mut keys,
    );
    write_pairs(
        &host.allowlisted_env,
        &host.host_only_keys,
        &mut docker_args,
        &mut inherit_env,
        &mut keys,
    );
    model::extend(
        &mut docker_args,
        model::two(sandbox.container_name.clone(), config.spec.command.clone()),
    );
    model::extend(&mut docker_args, config.spec.args.duplicate());
    Ok(SandboxArgv { docker_binary: host.docker_binary.clone(), docker_args, inherit_env })
}

/// The directory that a session is opened in: a sandboxed agent is given the
/// container's working directory, since the host's path means nothing to it.
pub fn agent_request_cwd(container_workdir: Option<&PathBuf>, host_cwd: &PathBuf) -> (r: PathBuf)
    ensures
        r == (match container_workdir {
            Some(workdir) => *workdir,
            None => *host_cwd,
        }),
{
    match container_workdir {
        Some(workdir) => workdir.clone(),
        None => host_cwd.clone(),
    }
}

/// What is handed on of a list names no skipped key, no taken key, and no key
/// twice.
pub proof fn lemma_claimed_is_clean(
    pairs: Seq<(Seq<char>, Seq<char>)>,
    skipped: Seq<Seq<char>>,
    taken: Seq<Seq<char>>,
)
    ensures
        ({
            let handed = claimed(pairs, skipped, taken);
            &&& forall|i: int|
                0 <= i < handed.len() ==> !skipped.contains((#[trigger] handed[i]).0)
                    && !taken.contains(handed[i].0) && pair_keys(pairs).contains(handed[i].0)
            &&& forall|i: int, j: int|
                0 <= i < j < handed.len() ==> (#[trigger] handed[i]).0 != (
                #[trigger] handed[j]).0
        }),
    decreases pairs.len(),
{
    if pairs.len() > 0 {
        let rest = pairs.drop_last();
        lemma_claimed_is_clean(rest, skipped, taken);
        let before = claimed(rest, skipped, taken);
        let handed = claimed(pairs, skipped, taken);
        assert forall|i: int| 0 <= i < before.len() implies pair_keys(pairs).contains(
            (#[trigger] before[i]).0,
        ) by {
            let keys = pair_keys(rest);
            let k = choose|k: int| 0 <= k < keys.len() && keys[k] == before[i].0;
            assert(pair_keys(pairs)[k] == before[i].0);
        }
        if claims_key(pairs, skipped, taken, pairs.len() - 1) {
            assert(pair_keys(pairs)[pairs.len() - 1] == pairs.last().0);
            assert forall|i: int| 0 <= i < before.len() implies (#[trigger] before[i]).0
                != pairs.last().0 by {
                let keys = pair_keys(rest);
                let k = choose|k: int| 0 <= k < keys.len() && keys[k] == before[i].0;
                assert(pairs[k].0 == before[i].0);
            }
        }
    }
}

/// The sources of a sandboxed agent's environment never name the same key:
/// the request's variables avoid those of the sandbox, the host's avoid both,
/// and neither source names a key twice.
pub proof fn law_first_source_wins(config: SpawnConfigV, host: SandboxHostV)
    ensures
        ({
            let own = entry_keys(sandbox_entries(host));
            let request = request_env(config, host);
            let ambient = host_env(config, host);
            &&& forall|i: int| 0 <= i < request.len() ==> !own.contains((#[trigger] request[i]).0)
            &&& forall|i: int|
                0 <= i < ambient.len() ==> !own.contains((#[trigger] ambient[i]).0) && !pair_keys(
                    request,
                ).contains(ambient[i].0)
            &&& forall|i: int, j: int|
                0 <= i < j < request.len() ==> (#[trigger] request[i]).0 != (
                #[trigger] request[j]).0
            &&& forall|i: int, j: int|
                0 <= i < j < ambient.len() ==> (#[trigger] ambient[i]).0 != (
                #[trigger] ambient[j]).0
        }),
{
    let own = entry_keys(sandbox_entries(host));
    let request = request_env(config, host);
    let ambient = host_env(config, host);
    let taken = own + pair_keys(request);
    lemma_claimed_is_clean(config.provider_env, host.denied_keys, own);
    lemma_claimed_is_clean(host.allowlisted_env, host.host_only_keys, taken);
    assert forall|i: int| 0 <= i < ambient.len() implies !own.contains((#[trigger] ambient[i]).0)
        && !pair_keys(request).contains(ambient[i].0) by {
        let key = ambient[i].0;
        assert(!taken.contains(key));
        if own.contains(key) {
            let k = choose|k: int| 0 <= k < own.len() && own[k] == key;
            assert(taken[k] == key);
        }
        if pair_keys(request).contains(key) {
            let k = choose|k: int| 0 <= k < pair_keys(request).len() && pair_keys(request)[k] == key;
            assert(taken[own.len() + k] == key);
        }
    }
}

/// A variable that a request may not set is not handed on for it, and one
/// that names a path of the host is not handed on for the host.
pub proof fn law_barred_keys_stay_out(config: SpawnConfigV, host: SandboxHostV)
    ensures
        forall|i: int|
            0 <= i < request_env(config, host).len() ==> !host.denied_keys.contains(
                (#[trigger] request_env(config, host)[i]).0,
            ),
        forall|i: int|
            0 <= i < host_env(config, host).len() ==> !host.host_only_keys.contains(
                (#[trigger] host_env(config, host)[i]).0,
            ),
{
    let own = entry_keys(sandbox_entries(host));
    lemma_claimed_is_clean(config.provider_env, host.denied_keys, own);
    lemma_claimed_is_clean(
        host.allowlisted_env,
        host.host_only_keys,
        own + pair_keys(request_env(config, host)),
    );
}

/// Flags `2 * i` and `2 * i + 1` are `-e` and the key of variable `i`.
pub open spec fn names_only(
    flags: Seq<Seq<char>>,
    pairs: Seq<(Seq<char>, Seq<char>)>,
    i: int,
) -> bool {
    flags[2 * i] == "-e"@ && flags[2 * i + 1] == pairs[i].0
}

/// The values of variables stay off the command line: all that a list of
/// variables puts there is `-e` and their keys.
pub proof fn law_values_stay_off_the_command_line(pairs: Seq<(Seq<char>, Seq<char>)>)
    ensures
        key_flags(pairs).len() == 2 * pairs.len(),
        forall|i: int|
            0 <= i < pairs.len() ==> #[trigger] names_only(key_flags(pairs), pairs, i),
    decreases pairs.len(),
{
    if pairs.len() > 0 {
        let before = pairs.drop_last();
        law_values_stay_off_the_command_line(before);
        let rest = key_flags(before);
        assert forall|i: int| 0 <= i < pairs.len() implies #[trigger] names_only(
            key_flags(pairs),
            pairs,
            i,
        ) by {
            if i < pairs.len() - 1 {
                assert(names_only(rest, before, i));
                assert(before[i] == pairs[i]);
                assert(key_flags(pairs)[2 * i] == rest[2 * i]);
                assert(key_flags(pairs)[2 * i + 1] == rest[2 * i + 1]);
            }
        }
    }
}

/// Whether `flag` follows a `-e` on a command line.
pub open spec fn sets(args: Seq<Seq<char>>, flag: Seq<char>) -> bool {
    exists|k: int| #[trigger] sets_at(args, flag, k)
}

/// Whether `flag` follows a `-e` at position `k`.
pub open spec fn sets_at(args: Seq<Seq<char>>, flag: Seq<char>, k: int) -> bool {
    0 <= k && k + 1 < args.len() && args[k] == "-e"@ && args[k + 1] == flag
}

proof fn lemma_sets_within(
    before: Seq<Seq<char>>,
    part: Seq<Seq<char>>,
    after: Seq<Seq<char>>,
    flag: Seq<char>,
)
    requires
        sets(part, flag),
    ensures
        sets(before + part + after, flag),
{
    let k = choose|k: int| sets_at(part, flag, k);
    let all = before + part + after;
    assert(all[before.len() + k] == part[k]);
    assert(all[before.len() + k + 1] == part[k + 1]);
    assert(sets_at(all, flag, before.len() + k));
}

proof fn lemma_claimed_keeps(
    pairs: Seq<(Seq<char>, Seq<char>)>,
    skipped: Seq<Seq<char>>,
    taken: Seq<Seq<char>>,
    i: int,
)
    requires
        0 <= i < pairs.len(),
        !skipped.contains(pairs[i].0),
        !taken.contains(pairs[i].0),
        forall|j: int| 0 <= j < i ==> (#[trigger] pairs[j]).0 != pairs[i].0,
    ensures
        claimed(pairs, skipped, taken).contains(pairs[i]),
    decreases pairs.len(),
{
    let handed = claimed(pairs, skipped, taken);
    if i < pairs.len() - 1 {
        let rest = pairs.drop_last();
        assert forall|j: int| 0 <= j < i implies (#[trigger] rest[j]).0 != rest[i].0 by {
            assert(rest[j] == pairs[j]);
        }
        lemma_claimed_keeps(rest, skipped, taken, i);
        let before = claimed(rest, skipped, taken);
        let k = choose|k: int| 0 <= k < before.len() && before[k] == pairs[i];
        assert(handed[k] == pairs[i]);
    } else {
        assert(claims_key(pairs, skipped, taken, i));
        assert(handed.last() == pairs[i]);
    }
}

proof fn lemma_keys_are_set(pairs: Seq<(Seq<char>, Seq<char>)>, pair: (Seq<char>, Seq<char>))
    requires
        pairs.contains(pair),
    ensures
        sets(key_flags(pairs), pair.0),
{
    law_values_stay_off_the_command_line(pairs);
    let i = choose|i: int| 0 <= i < pairs.len() && pairs[i] == pair;
    assert(names_only(key_flags(pairs), pairs, i));
    assert(sets_at(key_flags(pairs), pair.0, 2 * i));
}

proof fn lemma_entries_are_set(entries: Seq<EnvEntryV>, i: int)
    requires
        0 <= i < entries.len(),
    ensures
        match entries[i] {
            EnvEntryV::Literal { key, value } => sets(env_flags(entries), key + "="@ + value),
            EnvEntryV::Inherit { key, value } => sets(env_flags(entries), key) && inherited(
                entries,
            ).contains((key, value)),
        },
    decreases entries.len(),
{
    let rest = entries.drop_last();
    let flag = match entries[i] {
        EnvEntryV::Literal { key, value } => key + "="@ + value,
        EnvEntryV::Inherit { key, .. } => key,
    };
    let none = Seq::<Seq<char>>::empty();
    if i < rest.len() {
        lemma_entries_are_set(rest, i);
        assert(rest[i] == entries[i]);
        lemma_sets_within(none, env_flags(rest), entry_flags(entries.last()), flag);
        assert(none + env_flags(rest) + entry_flags(entries.last()) =~= env_flags(entries));
        if let EnvEntryV::Inherit { key, value } = entries[i] {
            let before = inherited(rest);
            let k = choose|k: int| 0 <= k < before.len() && before[k] == (key, value);
            assert(inherited(entries)[k] == (key, value));
        }
    } else {
        let own = entry_flags(entries.last());
        assert(sets_at(own, flag, 0));
        lemma_sets_within(env_flags(rest), own, none, flag);
        assert(env_flags(rest) + own + none =~= env_flags(entries));
        if let EnvEntryV::Inherit { key, value } = entries[i] {
            assert(inherited(entries).last() == (key, value));
        }
    }
}

/// The agent is run in its container and in its directory: the command line enters
/// the container by its name, and ends with the agent's own command and arguments.
pub proof fn law_the_agent_runs_in_its_container(
    config: SpawnConfigV,
    container_name: Seq<char>,
    container_workdir: Seq<char>,
    host: SandboxHostV,
)
    ensures
        ({
            let argv = docker_argv(config, container_name, container_workdir, host);
            let args = argv.docker_args;
            let n = config.spec.args.len();
            &&& argv.docker_binary == host.docker_binary
            &&& args.len() >= 6 + n
            &&& args[0] == "exec"@ && args[1] == "-i"@ && args[2] == "-w"@
            &&& args[3] == container_workdir
            &&& args[args.len() - n - 2] == container_name
            &&& args[args.len() - n - 1] == config.spec.command
            &&& args.skip(args.len() - n) == config.spec.args
        }),
{
    let args = docker_argv(config, container_name, container_workdir, host).docker_args;
    assert(args.skip(args.len() - config.spec.args.len()) =~= config.spec.args);
}

/// Every variable of the sandbox's own environment reaches the agent: one with a
/// value of its own by that value, and one that is inherited by its key alone, with
/// the value beside the command line. So does the directory of artifacts.
pub proof fn law_the_sandbox_environment_reaches_the_agent(
    config: SpawnConfigV,
    container_name: Seq<char>,
    container_workdir: Seq<char>,
    host: SandboxHostV,
    i: int,
)
    requires
        0 <= i < host.env_entries.len(),
    ensures
        ({
            let argv = docker_argv(config, container_name, container_workdir, host);
            &&& match host.env_entries[i] {
                EnvEntryV::Literal { key, value } => sets(argv.docker_args, key + "="@ + value),
                EnvEntryV::Inherit { key, value } => sets(argv.docker_args, key)
                    && argv.inherit_env.contains((key, value)),
            }
            &&& sets(argv.docker_args, host.artifact_dir.0 + "="@ + host.artifact_dir.1)
        }),
{
    let argv = docker_argv(config, container_name, container_workdir, host);
    let entries = sandbox_entries(host);
    lemma_entries_are_set(entries, i);
    lemma_entries_are_set(entries, entries.len() - 1);
    let head = seq!["exec"@, "-i"@, "-w"@, container_workdir];
    let tail = key_flags(request_env(config, host)) + key_flags(host_env(config, host)) + seq![
        container_name,
        config.spec.command,
    ] + config.spec.args;
    assert(head + env_flags(entries) + tail =~= argv.docker_args);
    lemma_sets_within(
        head,
        env_flags(entries),
        tail,
        host.artifact_dir.0 + "="@ + host.artifact_dir.1,
    );
    match host.env_entries[i] {
        EnvEntryV::Literal { key, value } => {
            lemma_sets_within(head, env_flags(entries), tail, key + "="@ + value);
        },
        EnvEntryV::Inherit { key, value } => {
            lemma_sets_within(head, env_flags(entries), tail, key);
            let own = inherited(entries);
            let k = choose|k: int| 0 <= k < own.len() && own[k] == (key, value);
            assert(argv.inherit_env[k] == (key, value));
        },
    }
}

/// Every variable of the request reaches the agent, unless it may not be set, the
/// sandbox sets it, or it stands in the request before: by its key on the command line,
/// and with its value beside it.
pub proof fn law_the_requests_variables_reach_the_agent(
    config: SpawnConfigV,
    container_name: Seq<char>,
    container_workdir: Seq<char>,
    host: SandboxHostV,
    i: int,
)
    requires
        0 <= i < config.provider_env.len(),
        !host.denied_keys.contains(config.provider_env[i].0),
        host.artifact_dir.0 != config.provider_env[i].0,
        forall|k: int|
            0 <= k < host.env_entries.len() ==> entry_key(#[trigger] host.env_entries[k])
                != config.provider_env[i].0,
        forall|j: int|
            0 <= j < i ==> (#[trigger] config.provider_env[j]).0 != config.provider_env[i].0,
    ensures
        ({
            let argv = docker_argv(config, container_name, container_workdir, host);
            &&& sets(argv.docker_args, config.provider_env[i].0)
            &&& argv.inherit_env.contains(config.provider_env[i])
        }),
{
    let argv = docker_argv(config, container_name, container_workdir, host);
    let entries = sandbox_entries(host);
    let pair = config.provider_env[i];
    lemma_key_is_free(host, pair.0);
    lemma_claimed_keeps(config.provider_env, host.denied_keys, entry_keys(entries), i);
    let request = request_env(config, host);
    lemma_keys_are_set(request, pair);
    let head = seq!["exec"@, "-i"@, "-w"@, container_workdir] + env_flags(entries);
    let tail = key_flags(host_env(config, host)) + seq![container_name, config.spec.command]
        + config.spec.args;
    assert(head + key_flags(request) + tail =~= argv.docker_args);
    lemma_sets_within(head, key_flags(request), tail, pair.0);
    let k = choose|k: int| 0 <= k < request.len() && request[k] == pair;
    assert(argv.inherit_env[inherited(entries).len() + k] == pair);
}

/// Every variable of the host that is listed reaches the agent, unless it names a path
/// of the host, or the sandbox, the request or an earlier one sets it.
pub proof fn law_the_hosts_variables_reach_the_agent(
    config: SpawnConfigV,
    container_name: Seq<char>,
    container_workdir: Seq<char>,
    host: SandboxHostV,
    i: int,
)
    requires
        0 <= i < host.allowlisted_env.len(),
        !host.host_only_keys.contains(host.allowlisted_env[i].0),
        host.artifact_dir.0 != host.allowlisted_env[i].0,
        forall|k: int|
            0 <= k < host.env_entries.len() ==> entry_key(#[trigger] host.env_entries[k])
                != host.allowlisted_env[i].0,
        forall|k: int|
            0 <= k < config.provider_env.len() ==> (#[trigger] config.provider_env[k]).0
                != host.allowlisted_env[i].0,
        forall|j: int|
            0 <= j < i ==> (#[trigger] host.allowlisted_env[j]).0 != host.allowlisted_env[i].0,
    ensures
        ({
            let argv = docker_argv(config, container_name, container_workdir, host);
            &&& sets(argv.docker_args, host.allowlisted_env[i].0)
            &&& argv.inherit_env.contains(host.allowlisted_env[i])
        }),
{
    let argv = docker_argv(config, container_name, container_workdir, host);
    let entries = sandbox_entries(host);
    let pair = host.allowlisted_env[i];
    let request = request_env(config, host);
    let ambient = host_env(config, host);
    let taken = entry_keys(entries) + pair_keys(request);
    lemma_key_is_free(host, pair.0);
    lemma_claimed_is_clean(config.provider_env, host.denied_keys, entry_keys(entries));
    if taken.contains(pair.0) {
        let k = choose|k: int| 0 <= k < taken.len() && taken[k] == pair.0;
        if k < entry_keys(entries).len() {
            assert(entry_keys(entries)[k] == pair.0);
        } else {
            let m = k - entry_keys(entries).len();
            assert(request[m].0 == pair.0);
            let keys = pair_keys(config.provider_env);
            let n = choose|n: int| 0 <= n < keys.len() && keys[n] == pair.0;
            assert(config.provider_env[n].0 == pair.0);
        }
    }
    lemma_claimed_keeps(host.allowlisted_env, host.host_only_keys, taken, i);
    lemma_keys_are_set(ambient, pair);
    let head = seq!["exec"@, "-i"@, "-w"@, container_workdir] + env_flags(entries) + key_flags(
        request,
    );
    let tail = seq![container_name, config.spec.command] + config.spec.args;
    assert(head + key_flags(ambient) + tail =~= argv.docker_args);
    lemma_sets_within(head, key_flags(ambient), tail, pair.0);
    let k = choose|k: int| 0 <= k < ambient.len() && ambient[k] == pair;
    assert(argv.inherit_env[inherited(entries).len() + request.len() + k] == pair);
}

proof fn lemma_key_is_free(host: SandboxHostV, key: Seq<char>)
    requires
        host.artifact_dir.0 != key,
        forall|k: int|
            0 <= k < host.env_entries.len() ==> entry_key(#[trigger] host.env_entries[k]) != key,
    ensures
        !entry_keys(sandbox_entries(host)).contains(key),
{
    let keys = entry_keys(sandbox_entries(host));
    assert forall|k: int| 0 <= k < keys.len() implies #[trigger] keys[k] != key by {
        if k < host.env_entries.len() {
            assert(keys[k] == entry_key(host.env_entries[k]));
        }
    }
}

/// The directory that a container was created with goes before the one that it has,
/// and both before the one that it would be created with.
pub proof fn law_the_pinned_directory_comes_first(
    pinned: Option<Seq<char>>,
    live: Option<Seq<char>>,
    computed: Seq<char>,
)
    ensures
        pinned matches Some(workdir) ==> effective_workdir(pinned, live, computed) == workdir,
        pinned is None && live is Some ==> effective_workdir(pinned, live, computed) == live->0,
        pinned is None && live is None ==> effective_workdir(pinned, live, computed) == computed,
{
}

/// Each volume is mounted from its path on the host to its path in the container.
pub proof fn law_volumes_are_mounted_as_they_are(volumes: Seq<VolumePathV>, i: int)
    requires
        0 <= i < volumes.len(),
    ensures
        mounts_of(volumes).len() == volumes.len(),
        mounts_of(volumes)[i].0 == path_of(volumes[i].container_path),
        mounts_of(volumes)[i].1 == path_of(volumes[i].host_path),
{
}

}
