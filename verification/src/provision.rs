//! Provisioning a local bridge script and describing how to launch it.
//!
//! The host performs the outside work (querying the package manager,
//! installing, touching the filesystem); this module makes every decision:
//! whether an install or a write is needed, which local path the bridge
//! ends up at, and what command launches it.

use vstd::prelude::*;

verus! {

/// How the bridge entry point is obtained: install a package pinned to an
/// exact version, or write a file embedded in the extension once.
pub enum BridgeSpec {
    PackageInstall { name: String, version: String, entry_path: String },
    EmbeddedFile { filename: String, contents: String },
}

/// Why a provisioning or launch attempt failed.  Every failure is terminal
/// for the current attempt; nothing is retried internally.
#[derive(Clone, Copy, Debug, PartialEq, Eq, Structural)]
pub enum ProvisionError {
    InstallFailed,
    WriteFailed,
    PathResolution,
    InterpreterNotFound,
}

/// What the host must spawn: an executable, its ordered arguments, and the
/// extra environment entries (always empty; the child inherits the parent's
/// ambient environment).
pub struct CommandDescriptor {
    pub command: String,
    pub args: Vec<String>,
    pub env: Vec<(String, String)>,
}

/// What the host observed before asking for the next provisioning step:
/// the installed version of the package (for a `PackageInstall` spec), or
/// whether the target file exists (for an `EmbeddedFile` spec).
pub enum Observation {
    InstalledVersion { version: Option<String> },
    FileExists { exists: bool },
}

/// The next step of provisioning: an outside action the host must perform,
/// or the resolved local path of the bridge entry point.
pub enum ProvisionStep {
    Install { name: String, version: String },
    WriteFile { path: String, contents: String },
    Ready { path: String },
}

/// A relative path is joined onto a directory by inserting a separator,
/// unless the directory already ends with one.
pub open spec fn spec_join_path(dir: Seq<char>, rel: Seq<char>) -> Seq<char> {
    if dir.len() > 0 && dir.last() == '/' {
        dir + rel
    } else {
        dir + seq!['/'] + rel
    }
}

/// An install of the pinned version is needed exactly when the installed
/// version is absent or differs from the pinned one.
pub open spec fn spec_needs_install(pinned: Seq<char>, installed: Option<Seq<char>>) -> bool {
    match installed {
        Some(v) => v != pinned,
        None => true,
    }
}

/// The contents to write, if any: an absent file receives the embedded
/// contents verbatim, an existing file is left untouched.
pub open spec fn spec_write_request(contents: Seq<char>, file_exists: bool) -> Option<Seq<char>> {
    if file_exists {
        None
    } else {
        Some(contents)
    }
}

/// The observation the host hands over answers the question the spec kind
/// poses: installed version for a package, file existence for an embedded
/// file.
pub open spec fn observation_matches(bridge: &BridgeSpec, obs: &Observation) -> bool {
    match (bridge, obs) {
        (BridgeSpec::PackageInstall { .. }, Observation::InstalledVersion { .. }) => true,
        (BridgeSpec::EmbeddedFile { .. }, Observation::FileExists { .. }) => true,
        _ => false,
    }
}

/// Join a relative path onto a directory.
pub fn join_path(dir: &str, rel: &str) -> (p: String)
    ensures
        p@ == spec_join_path(dir@, rel@),
{
    let n = dir.unicode_len();
    let mut p = dir.to_owned();
    if n == 0 || dir.get_char(n - 1) != '/' {
        p.append("/");
        proof {
            reveal_strlit("/");
            assert(p@ =~= dir@ + seq!['/']);
        }
    }
    p.append(rel);
    proof {
        assert(p@ =~= spec_join_path(dir@, rel@));
    }
    p
}

/// Decide whether the pinned version must be installed.
pub fn needs_install(pinned: &String, installed: &Option<String>) -> (b: bool)
    ensures
        b == spec_needs_install(pinned@, installed.deep_view()),
{
    match installed {
        Some(v) => !(*v == *pinned),
        None => true,
    }
}

/// One decision round of `ensure_available`: given the spec, the working
/// directory (if it could be determined) and what the host observed,
/// either name the outside action to perform next, or resolve the local
/// path of the bridge entry point.
///
/// An install is requested only for a missing or different version; a
/// write is requested only for an absent file, and always carries the
/// embedded contents verbatim.  Once the observation shows the wanted
/// state, the step is `Ready` with the joined path.
pub fn ensure_available_step(
    bridge: &BridgeSpec,
    working_dir: &Option<String>,
    obs: &Observation,
) -> (r: Result<ProvisionStep, ProvisionError>)
    requires
        observation_matches(bridge, obs),
    ensures
        working_dir is None ==> r == Err::<ProvisionStep, ProvisionError>(
            ProvisionError::PathResolution,
        ),
        (working_dir matches Some(wd) ==> match (bridge, obs) {
            (
                BridgeSpec::PackageInstall { name, version, entry_path },
                Observation::InstalledVersion { version: inst },
            ) => {
                if spec_needs_install(version@, inst.deep_view()) {
                    r matches Ok(ProvisionStep::Install { name: n, version: v }) && n@ == name@
                        && v@ == version@
                } else {
                    r matches Ok(ProvisionStep::Ready { path }) && path@ == spec_join_path(
                        wd@,
                        entry_path@,
                    )
                }
            },
            (
                BridgeSpec::EmbeddedFile { filename, contents },
                Observation::FileExists { exists },
            ) => {
                match spec_write_request(contents@, *exists) {
                    Some(c) => r matches Ok(ProvisionStep::WriteFile { path, contents: w })
                        && path@ == spec_join_path(wd@, filename@) && w@ == c,
                    None => r matches Ok(ProvisionStep::Ready { path }) && path@
                        == spec_join_path(wd@, filename@),
                }
            },
            _ => true,
        }),
{
    let wd = match working_dir {
        Some(wd) => wd,
        None => {
            return Err(ProvisionError::PathResolution);
        },
    };
    match (bridge, obs) {
        (
            BridgeSpec::PackageInstall { name, version, entry_path },
            Observation::InstalledVersion { version: inst },
        ) => {
            if needs_install(version, inst) {
                Ok(ProvisionStep::Install { name: name.clone(), version: version.clone() })
            } else {
                Ok(ProvisionStep::Ready { path: join_path(wd.as_str(), entry_path.as_str()) })
            }
        },
        (BridgeSpec::EmbeddedFile { filename, contents }, Observation::FileExists { exists }) => {
            let path = join_path(wd.as_str(), filename.as_str());
            if *exists {
                Ok(ProvisionStep::Ready { path })
            } else {
                Ok(ProvisionStep::WriteFile { path, contents: contents.clone() })
            }
        },
        // The requires clause rules this pairing out.
        _ => Err(ProvisionError::PathResolution),
    }
}

/// Build the launch descriptor for a provisioned bridge: the interpreter
/// runs the local script against the endpoint, with exactly those two
/// arguments and no injected environment.
pub fn build_command(
    local_path: String,
    endpoint: String,
    interpreter: Option<String>,
) -> (r: Result<CommandDescriptor, ProvisionError>)
    ensures
        interpreter is None ==> r == Err::<CommandDescriptor, ProvisionError>(
            ProvisionError::InterpreterNotFound,
        ),
        (interpreter matches Some(bin) ==> r matches Ok(d) && d.command == bin && d.args@
            == seq![local_path, endpoint] && d.env@ == Seq::<(String, String)>::empty()),
{
    match interpreter {
        Some(bin) => {
            let mut args: Vec<String> = Vec::new();
            args.push(local_path);
            args.push(endpoint);
            proof {
                assert(args@ =~= seq![local_path, endpoint]);
            }
            Ok(CommandDescriptor { command: bin, args, env: Vec::new() })
        },
        None => Err(ProvisionError::InterpreterNotFound),
    }
}

/// The description of an error, for the host to surface to the user.
pub open spec fn spec_error_message(e: ProvisionError) -> Seq<char> {
    match e {
        ProvisionError::InstallFailed => "failed to install the bridge package"@,
        ProvisionError::WriteFailed => "failed to write the bridge script"@,
        ProvisionError::PathResolution => "could not determine the extension working directory"@,
        ProvisionError::InterpreterNotFound => "could not locate a runtime interpreter for the bridge"@,
    }
}

impl ProvisionError {
    /// Human-readable description of the failure.
    pub fn message(&self) -> (s: String)
        ensures
            s@ == spec_error_message(*self),
    {
        match self {
            ProvisionError::InstallFailed => "failed to install the bridge package".to_owned(),
            ProvisionError::WriteFailed => "failed to write the bridge script".to_owned(),
            ProvisionError::PathResolution => "could not determine the extension working directory".to_owned(),
            ProvisionError::InterpreterNotFound => "could not locate a runtime interpreter for the bridge".to_owned(),
        }
    }
}

/// Law: provisioning a package is idempotent.  Once the pinned version is
/// the installed version — in particular right after a successful install
/// of it — no later call decides to install again, so across repeated
/// calls with unchanged installed state the install step runs at most
/// once.
pub proof fn lemma_install_idempotent(pinned: Seq<char>)
    ensures
        !spec_needs_install(pinned, Some(pinned)),
{
}

/// Law: an existing bridge file is never overwritten.  Whenever the target
/// file exists, no write is requested, whatever the embedded contents are,
/// so local modifications persist across repeated calls.
pub proof fn lemma_existing_file_preserved(contents: Seq<char>)
    ensures
        spec_write_request(contents, true) is None,
{
}

} // verus!
