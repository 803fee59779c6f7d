//! Registering the early-boot activation guard: where its installer and binary
//! are looked for, and the elevated command that installs it.
use vstd::prelude::*;
use crate::autostart::{powershell_quote, powershell_quote_spec};
use crate::shutdown::TargetOs;
use crate::text::{concat2, owned, texts};

verus! {

/// What a candidate path is relative to.
#[derive(Clone, Copy, Debug, PartialEq, Eq, Structural)]
pub enum PathBase {
    /// The application's bundled resources.
    Resource,
    /// The directory of the running executable.
    ExeDir,
    /// The repository root (parent of the build's manifest directory).
    ProjectRoot,
    /// The build's manifest directory.
    ManifestDir,
    /// No base: the relative part is the whole path.
    Absolute,
}

/// A place to look for a file: a base and a path under it.
#[derive(Clone, Debug)]
pub struct PathCandidate {
    pub base: PathBase,
    pub rel: String,
}

/// Whether a candidate has the given base and relative path.
pub open spec fn candidate_is(c: PathCandidate, base: PathBase, rel: Seq<char>) -> bool {
    c.base == base && c.rel@ == rel
}

fn candidate(base: PathBase, rel: &str) -> (c: PathCandidate)
    ensures
        candidate_is(c, base, rel@),
{
    PathCandidate { base, rel: owned(rel) }
}

/// Where the Linux installer script is looked for, in order.
pub fn linux_install_script_candidates() -> (r: Vec<PathCandidate>)
    ensures
        r@.len() == 6,
        candidate_is(r@[0], PathBase::Resource, "install-guard.sh"@),
        candidate_is(r@[1], PathBase::Resource, "linux/install-guard.sh"@),
        candidate_is(r@[2], PathBase::ExeDir, "install-guard.sh"@),
        candidate_is(r@[3], PathBase::ExeDir, "installer/linux/install-guard.sh"@),
        candidate_is(r@[4], PathBase::ProjectRoot, "installer/linux/install-guard.sh"@),
        candidate_is(r@[5], PathBase::ManifestDir, "../installer/linux/install-guard.sh"@),
{
    let mut r: Vec<PathCandidate> = Vec::new();
    r.push(candidate(PathBase::Resource, "install-guard.sh"));
    r.push(candidate(PathBase::Resource, "linux/install-guard.sh"));
    r.push(candidate(PathBase::ExeDir, "install-guard.sh"));
    r.push(candidate(PathBase::ExeDir, "installer/linux/install-guard.sh"));
    r.push(candidate(PathBase::ProjectRoot, "installer/linux/install-guard.sh"));
    r.push(candidate(PathBase::ManifestDir, "../installer/linux/install-guard.sh"));
    r
}

/// Where the Windows registration script is looked for, in order.
pub fn windows_register_script_candidates() -> (r: Vec<PathCandidate>)
    ensures
        r@.len() == 6,
        candidate_is(r@[0], PathBase::Resource, "register-guard.ps1"@),
        candidate_is(r@[1], PathBase::Resource, "windows/register-guard.ps1"@),
        candidate_is(r@[2], PathBase::ExeDir, "register-guard.ps1"@),
        candidate_is(r@[3], PathBase::ExeDir, "installer/windows/register-guard.ps1"@),
        candidate_is(r@[4], PathBase::ProjectRoot, "installer/windows/register-guard.ps1"@),
        candidate_is(r@[5], PathBase::ManifestDir, "../installer/windows/register-guard.ps1"@),
{
    let mut r: Vec<PathCandidate> = Vec::new();
    r.push(candidate(PathBase::Resource, "register-guard.ps1"));
    r.push(candidate(PathBase::Resource, "windows/register-guard.ps1"));
    r.push(candidate(PathBase::ExeDir, "register-guard.ps1"));
    r.push(candidate(PathBase::ExeDir, "installer/windows/register-guard.ps1"));
    r.push(candidate(PathBase::ProjectRoot, "installer/windows/register-guard.ps1"));
    r.push(candidate(PathBase::ManifestDir, "../installer/windows/register-guard.ps1"));
    r
}

/// Where the guard binary is looked for, in order: next to the running
/// program, in the resources, in the development builds (debug first), in
/// the installer directory, then in the system binary directories.
pub fn guard_binary_candidates() -> (r: Vec<PathCandidate>)
    ensures
        r@.len() == 7,
        candidate_is(r@[0], PathBase::ExeDir, "sleepguard-guard"@),
        candidate_is(r@[1], PathBase::Resource, "sleepguard-guard"@),
        candidate_is(r@[2], PathBase::ManifestDir, "target/debug/sleepguard-guard"@),
        candidate_is(r@[3], PathBase::ManifestDir, "target/release/sleepguard-guard"@),
        candidate_is(r@[4], PathBase::ProjectRoot, "installer/linux/sleepguard-guard"@),
        candidate_is(r@[5], PathBase::Absolute, "/usr/local/bin/sleepguard-guard"@),
        candidate_is(r@[6], PathBase::Absolute, "/usr/bin/sleepguard-guard"@),
{
    let mut r: Vec<PathCandidate> = Vec::new();
    r.push(candidate(PathBase::ExeDir, "sleepguard-guard"));
    r.push(candidate(PathBase::Resource, "sleepguard-guard"));
    r.push(candidate(PathBase::ManifestDir, "target/debug/sleepguard-guard"));
    r.push(candidate(PathBase::ManifestDir, "target/release/sleepguard-guard"));
    r.push(candidate(PathBase::ProjectRoot, "installer/linux/sleepguard-guard"));
    r.push(candidate(PathBase::Absolute, "/usr/local/bin/sleepguard-guard"));
    r.push(candidate(PathBase::Absolute, "/usr/bin/sleepguard-guard"));
    r
}

/// What was found at a candidate path: whether it is a file and, if it could
/// be resolved, its canonical form.
#[derive(Clone, Debug)]
pub struct FileProbe {
    pub path: String,
    pub is_file: bool,
    pub canonical: Option<String>,
}

/// The first probed path that is a file, in canonical form when it has one.
pub open spec fn first_existing(probes: Seq<FileProbe>) -> Option<Seq<char>>
    decreases probes.len(),
{
    if probes.len() == 0 {
        None
    } else if probes[0].is_file {
        match probes[0].canonical {
            Some(c) => Some(c@),
            None => Some(probes[0].path@),
        }
    } else {
        first_existing(probes.drop_first())
    }
}

/// The first candidate that is a file, canonicalized when possible.
pub fn absolute_existing_file(probes: &Vec<FileProbe>) -> (r: Option<String>)
    ensures
        match r {
            Some(s) => first_existing(probes@) == Some(s@),
            None => first_existing(probes@) is None,
        },
{
    let n: usize = probes.len();
    let mut i: usize = 0;
    assert(probes@.subrange(0, n as int) =~= probes@);
    while i < n
        invariant
            n == probes@.len(),
            i <= n,
            first_existing(probes@) == first_existing(probes@.subrange(i as int, n as int)),
        decreases n - i,
    {
        let ghost rest = probes@.subrange(i as int, n as int);
        assert(rest[0] == probes@[i as int]);
        let p = &probes[i];
        if p.is_file {
            return match &p.canonical {
                Some(c) => Some(c.clone()),
                None => Some(p.path.clone()),
            };
        }
        assert(rest.drop_first() =~= probes@.subrange(i + 1, n as int));
        i = i + 1;
    }
    None
}

/// The error when the Linux installer script is not found.
pub const LINUX_SCRIPT_MISSING: &'static str = "No se encontró install-guard.sh. Ejecuta desde el repo o reinstala el paquete.";

/// The error when the Windows registration script is not found.
pub const WINDOWS_SCRIPT_MISSING: &'static str = "No se encontró register-guard.ps1. Ejecuta desde el repo o reinstala el paquete.";

/// The error when the guard binary is not found.
pub const GUARD_BINARY_MISSING: &'static str = "No se encontró sleepguard-guard. En desarrollo compílalo con:\n  cargo build -p sleepguard-guard --manifest-path src-tauri/Cargo.toml";

/// How the boot guard is registered on a platform.
#[derive(Clone, Copy, Debug, PartialEq, Eq, Structural)]
pub enum BootGuardRoute {
    /// `pkexec` runs `install-guard.sh --guard-only`.
    Linux,
    /// An elevated PowerShell runs `register-guard.ps1 -GuardOnly`.
    Windows,
}

/// How the early-boot guard is registered here; an error on a platform
/// without one.
pub fn ensure_boot_guard(target: TargetOs) -> (r: Result<BootGuardRoute, String>)
    ensures
        target == TargetOs::Linux ==> r == Ok::<BootGuardRoute, String>(BootGuardRoute::Linux),
        target == TargetOs::Windows ==> r == Ok::<BootGuardRoute, String>(BootGuardRoute::Windows),
        target == TargetOs::Other ==> (r matches Err(e) && e@ == "Agente de arranque no soportado en este SO"@),
{
    match target {
        TargetOs::Linux => Ok(BootGuardRoute::Linux),
        TargetOs::Windows => Ok(BootGuardRoute::Windows),
        TargetOs::Other => Err(owned("Agente de arranque no soportado en este SO")),
    }
}

/// The arguments of `pkexec` that install the guard.
pub open spec fn pkexec_args_spec(guard_bin: Seq<char>, app_bin: Seq<char>, script: Seq<char>) -> Seq<
    Seq<char>,
> {
    seq![
        "env"@,
        "GUARD_SRC="@ + guard_bin,
        "APP_BIN="@ + app_bin,
        "bash"@,
        script,
        "--guard-only"@,
    ]
}

/// `pkexec env GUARD_SRC=<guard> APP_BIN=<app> bash <script> --guard-only`,
/// with absolute paths (pkexec resets the working directory).
pub fn pkexec_args(guard_bin: &str, app_bin: &str, script: &str) -> (r: Vec<String>)
    ensures
        texts(r@) == pkexec_args_spec(guard_bin@, app_bin@, script@),
{
    let mut r: Vec<String> = Vec::new();
    r.push(owned("env"));
    r.push(concat2("GUARD_SRC=", guard_bin));
    r.push(concat2("APP_BIN=", app_bin));
    r.push(owned("bash"));
    r.push(owned(script));
    r.push(owned("--guard-only"));
    assert(texts(r@) =~= pkexec_args_spec(guard_bin@, app_bin@, script@));
    r
}

/// The error when `pkexec` cannot be launched.
pub fn pkexec_launch_error(error: &str, guard_bin: &str, script: &str) -> (r: String)
    ensures
        r@ == "No se pudo lanzar pkexec ("@ + error@
            + "). Instala polkit o ejecuta manualmente:\n  sudo GUARD_SRC="@ + guard_bin@ + " "@
            + script@ + " --guard-only"@,
{
    let mut r = owned("No se pudo lanzar pkexec (");
    r.append(error);
    r.append("). Instala polkit o ejecuta manualmente:\n  sudo GUARD_SRC=");
    r.append(guard_bin);
    r.append(" ");
    r.append(script);
    r.append(" --guard-only");
    r
}

/// The error when the Linux installation exits unsuccessfully.
pub fn linux_install_failed(status: &str) -> (r: String)
    ensures
        r@ == "Instalación del agente de arranque cancelada o fallida (código "@ + status@ + ")"@,
{
    let mut r = owned("Instalación del agente de arranque cancelada o fallida (código ");
    r.append(status);
    r.append(")");
    r
}

/// The elevating PowerShell command for a registration script and program.
pub open spec fn elevate_command_spec(script: Seq<char>, app_bin: Seq<char>) -> Seq<char> {
    "Start-Process -FilePath powershell -Verb RunAs -Wait -ArgumentList '-NoProfile','-ExecutionPolicy','Bypass','-File','"@
        + powershell_quote_spec(script) + "','-AppPath','"@ + powershell_quote_spec(app_bin)
        + "','-GuardOnly'"@
}

/// The command that starts `register-guard.ps1 -GuardOnly` in an elevated
/// PowerShell and waits for it.
pub fn windows_elevate_command(script: &str, app_bin: &str) -> (r: String)
    ensures
        r@ == elevate_command_spec(script@, app_bin@),
{
    let qs = powershell_quote(script);
    let qa = powershell_quote(app_bin);
    let mut r = owned(
        "Start-Process -FilePath powershell -Verb RunAs -Wait -ArgumentList '-NoProfile','-ExecutionPolicy','Bypass','-File','",
    );
    r.append(qs.as_str());
    r.append("','-AppPath','");
    r.append(qa.as_str());
    r.append("','-GuardOnly'");
    r
}

/// The arguments of `powershell` that run a command non-interactively.
pub open spec fn powershell_args_spec(command: Seq<char>) -> Seq<Seq<char>> {
    seq!["-NoProfile"@, "-NonInteractive"@, "-ExecutionPolicy"@, "Bypass"@, "-Command"@, command]
}

/// `powershell -NoProfile -NonInteractive -ExecutionPolicy Bypass -Command <command>`.
pub fn powershell_args(command: &str) -> (r: Vec<String>)
    ensures
        texts(r@) == powershell_args_spec(command@),
{
    let mut r: Vec<String> = Vec::new();
    r.push(owned("-NoProfile"));
    r.push(owned("-NonInteractive"));
    r.push(owned("-ExecutionPolicy"));
    r.push(owned("Bypass"));
    r.push(owned("-Command"));
    r.push(owned(command));
    assert(texts(r@) =~= powershell_args_spec(command@));
    r
}

/// The error when PowerShell cannot be elevated.
pub fn windows_elevate_error(error: &str) -> (r: String)
    ensures
        r@ == "No se pudo elevar PowerShell: "@ + error@,
{
    concat2("No se pudo elevar PowerShell: ", error)
}

/// The error when the Windows registration exits unsuccessfully.
pub fn windows_register_failed(status: &str) -> (r: String)
    ensures
        r@ == "Registro del agente de arranque cancelado o fallido (código "@ + status@ + ")"@,
{
    let mut r = owned("Registro del agente de arranque cancelado o fallido (código ");
    r.append(status);
    r.append(")");
    r
}

} // verus!
