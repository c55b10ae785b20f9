//! Building the native mount, unmount and listing command lines, and
//! interpreting what the native tool returned.

use vstd::prelude::*;
use vstd::string::*;
use crate::platform::Platform;
use crate::allocate::{allocate, AllocationError, drive_letters};
use crate::text::{chars_vec, spec_contains, spec_contains_at};

verus! {

/// One external command: the program to run and its arguments, in order.
pub struct CommandLine {
    pub program: String,
    pub args: Vec<String>,
}

/// What running an external command produced: whether it exited
/// successfully, and the captured output streams.
pub struct CommandResult {
    pub exit_success: bool,
    pub stdout: String,
    pub stderr: String,
}

/// Why a mount request failed.
#[derive(Debug)]
pub enum MountError {
    /// The native mount command ran and exited with failure; holds its
    /// stderr verbatim.
    MountCommandFailed(String),
    /// The native tool could not be launched at all.  Only the host
    /// program, which spawns processes, constructs this variant.
    ProcessSpawnError(String),
}

/// Why an unmount request failed.
#[derive(Debug)]
pub enum UnmountError {
    /// The native unmount command ran and exited with failure; holds its
    /// stderr verbatim.
    UnmountCommandFailed(String),
    /// The native tool could not be launched at all.  Only the host
    /// program, which spawns processes, constructs this variant.
    ProcessSpawnError(String),
}

impl MountError {
    /// The message shown to the caller for this error.
    pub fn message(&self) -> (r: String)
        ensures
            self matches MountError::MountCommandFailed(m) ==> r@ == m@,
            self matches MountError::ProcessSpawnError(m) ==> r@ == m@,
    {
        match self {
            MountError::MountCommandFailed(m) => m.clone(),
            MountError::ProcessSpawnError(m) => m.clone(),
        }
    }
}

impl UnmountError {
    /// The message shown to the caller for this error.
    pub fn message(&self) -> (r: String)
        ensures
            self matches UnmountError::UnmountCommandFailed(m) ==> r@ == m@,
            self matches UnmountError::ProcessSpawnError(m) ==> r@ == m@,
    {
        match self {
            UnmountError::UnmountCommandFailed(m) => m.clone(),
            UnmountError::ProcessSpawnError(m) => m.clone(),
        }
    }
}

/// The views of a sequence of argument strings.
pub open spec fn arg_views(args: Seq<String>) -> Seq<Seq<char>> {
    args.map_values(|a: String| a@)
}

/// The view of an optional string argument.
pub open spec fn opt_view(o: Option<&str>) -> Option<Seq<char>> {
    match o {
        Some(s) => Some(s@),
        None => None,
    }
}

/// The program the mount command runs on each platform.
pub open spec fn spec_mount_program(platform: Platform) -> Seq<char> {
    if platform == Platform::Windows {
        "net"@
    } else {
        "mount"@
    }
}

/// Arguments of the Windows mount command: `net use <mountpoint> <server>
/// [<password>] [/user:<username>] /persistent:yes`; absent credentials are
/// simply not appended.
pub open spec fn spec_windows_mount_args(
    server: Seq<char>,
    username: Option<Seq<char>>,
    password: Option<Seq<char>>,
    mountpoint: Seq<char>,
) -> Seq<Seq<char>> {
    let base = seq!["use"@, mountpoint, server];
    let with_pass = if password is Some {
        base.push(password->0)
    } else {
        base
    };
    let with_user = if username is Some {
        with_pass.push("/user:"@ + username->0)
    } else {
        with_pass
    };
    with_user.push("/persistent:yes"@)
}

/// The credential part embedded in a macOS server address: `user:pass`,
/// `user` alone without a password, and nothing without a username.
pub open spec fn spec_macos_auth(
    username: Option<Seq<char>>,
    password: Option<Seq<char>>,
) -> Seq<char> {
    match (username, password) {
        (Some(u), Some(p)) => u + ":"@ + p,
        (Some(u), None) => u,
        (None, _) => Seq::empty(),
    }
}

/// A server address with every leading `//` pair removed.
pub open spec fn spec_trim_network_prefix(s: Seq<char>) -> Seq<char>
    decreases s.len(),
{
    if s.len() >= 2 && s[0] == '/' && s[1] == '/' {
        spec_trim_network_prefix(s.skip(2))
    } else {
        s
    }
}

/// The address handed to the macOS mount command: credentials are embedded
/// as `//auth@host...` when there are any, else the server address is used
/// as it came.
pub open spec fn spec_macos_address(
    server: Seq<char>,
    username: Option<Seq<char>>,
    password: Option<Seq<char>>,
) -> Seq<char> {
    let auth = spec_macos_auth(username, password);
    if auth.len() > 0 {
        "//"@ + auth + "@"@ + spec_trim_network_prefix(server)
    } else {
        server
    }
}

/// Arguments of the macOS mount command: `mount -t smbfs <address>
/// <mountpoint>`.
pub open spec fn spec_macos_mount_args(
    server: Seq<char>,
    username: Option<Seq<char>>,
    password: Option<Seq<char>>,
    mountpoint: Seq<char>,
) -> Seq<Seq<char>> {
    seq!["-t"@, "smbfs"@, spec_macos_address(server, username, password), mountpoint]
}

/// The `-o` option list of the Linux mount command: the supplied credentials
/// as `username=...` and `password=...`, joined by a comma.
pub open spec fn spec_linux_options(
    username: Option<Seq<char>>,
    password: Option<Seq<char>>,
) -> Seq<char> {
    match (username, password) {
        (Some(u), Some(p)) => "username="@ + u + ",password="@ + p,
        (Some(u), None) => "username="@ + u,
        (None, Some(p)) => "password="@ + p,
        (None, None) => Seq::empty(),
    }
}

/// Arguments of the Linux mount command: `mount -t cifs <server>
/// <mountpoint> [-o <options>]`; the `-o` clause is omitted entirely when
/// neither credential is supplied.
pub open spec fn spec_linux_mount_args(
    server: Seq<char>,
    username: Option<Seq<char>>,
    password: Option<Seq<char>>,
    mountpoint: Seq<char>,
) -> Seq<Seq<char>> {
    let base = seq!["-t"@, "cifs"@, server, mountpoint];
    if username is Some || password is Some {
        base + seq!["-o"@, spec_linux_options(username, password)]
    } else {
        base
    }
}

/// Arguments of the mount command on the given platform.
pub open spec fn spec_mount_args(
    platform: Platform,
    server: Seq<char>,
    username: Option<Seq<char>>,
    password: Option<Seq<char>>,
    mountpoint: Seq<char>,
) -> Seq<Seq<char>> {
    match platform {
        Platform::Windows => spec_windows_mount_args(server, username, password, mountpoint),
        Platform::MacOS => spec_macos_mount_args(server, username, password, mountpoint),
        Platform::Linux => spec_linux_mount_args(server, username, password, mountpoint),
    }
}

/// A copy of `server` with every leading `//` pair removed.
pub fn trim_network_prefix(server: &str) -> (r: String)
    ensures
        r@ == spec_trim_network_prefix(server@),
{
    let cs = chars_vec(server);
    let n = cs.len();
    let mut i: usize = 0;
    proof {
        assert(cs@.skip(0) =~= cs@);
    }
    while i < n && i + 1 < n && cs[i] == '/' && cs[i + 1] == '/'
        invariant
            n == cs@.len(),
            cs@ == server@,
            i <= n,
            spec_trim_network_prefix(server@) == spec_trim_network_prefix(cs@.skip(i as int)),
        decreases n - i,
    {
        proof {
            assert(cs@.skip(i as int).skip(2) =~= cs@.skip(i + 2));
        }
        i = i + 2;
    }
    proof {
        let t = cs@.skip(i as int);
        assert(!(t.len() >= 2 && t[0] == '/' && t[1] == '/'));
        assert(spec_trim_network_prefix(t) == t);
    }
    let rest = server.substring_char(i, n);
    proof {
        assert(rest@ =~= server@.skip(i as int));
    }
    String::from_str(rest)
}

/// The native mount command for the request on the given platform.
pub fn build_mount_command(
    platform: Platform,
    server: &str,
    username: Option<&str>,
    password: Option<&str>,
    mountpoint: &str,
) -> (r: CommandLine)
    ensures
        r.program@ == spec_mount_program(platform),
        arg_views(r.args@) == spec_mount_args(
            platform,
            server@,
            opt_view(username),
            opt_view(password),
            mountpoint@,
        ),
{
    match platform {
        Platform::Windows => {
            let mut args: Vec<String> = Vec::new();
            args.push(String::from_str("use"));
            args.push(String::from_str(mountpoint));
            args.push(String::from_str(server));
            if let Some(p) = password {
                args.push(String::from_str(p));
            }
            if let Some(u) = username {
                let mut user_arg = String::from_str("/user:");
                user_arg.append(u);
                args.push(user_arg);
            }
            args.push(String::from_str("/persistent:yes"));
            proof {
                assert(arg_views(args@) =~= spec_windows_mount_args(
                    server@,
                    opt_view(username),
                    opt_view(password),
                    mountpoint@,
                ));
            }
            CommandLine { program: String::from_str("net"), args }
        },
        Platform::MacOS => {
            let address = macos_address(server, username, password);
            let mut args: Vec<String> = Vec::new();
            args.push(String::from_str("-t"));
            args.push(String::from_str("smbfs"));
            args.push(address);
            args.push(String::from_str(mountpoint));
            proof {
                assert(arg_views(args@) =~= spec_macos_mount_args(
                    server@,
                    opt_view(username),
                    opt_view(password),
                    mountpoint@,
                ));
            }
            CommandLine { program: String::from_str("mount"), args }
        },
        Platform::Linux => {
            let mut args: Vec<String> = Vec::new();
            args.push(String::from_str("-t"));
            args.push(String::from_str("cifs"));
            args.push(String::from_str(server));
            args.push(String::from_str(mountpoint));
            if username.is_some() || password.is_some() {
                args.push(String::from_str("-o"));
                args.push(linux_options(username, password));
            }
            proof {
                assert(arg_views(args@) =~= spec_linux_mount_args(
                    server@,
                    opt_view(username),
                    opt_view(password),
                    mountpoint@,
                ));
            }
            CommandLine { program: String::from_str("mount"), args }
        },
    }
}

/// The address handed to the macOS mount command, credentials embedded.
fn macos_address(server: &str, username: Option<&str>, password: Option<&str>) -> (r: String)
    ensures
        r@ == spec_macos_address(server@, opt_view(username), opt_view(password)),
{
    let auth: String = match (username, password) {
        (Some(u), Some(p)) => {
            let mut a = String::from_str(u);
            a.append(":");
            a.append(p);
            a
        },
        (Some(u), None) => String::from_str(u),
        (None, _) => String::new(),
    };
    if auth.as_str().unicode_len() > 0 {
        let trimmed = trim_network_prefix(server);
        let mut r = String::from_str("//");
        r.append(auth.as_str());
        r.append("@");
        r.append(trimmed.as_str());
        r
    } else {
        String::from_str(server)
    }
}

/// The `-o` option list of the Linux mount command.
fn linux_options(username: Option<&str>, password: Option<&str>) -> (r: String)
    ensures
        r@ == spec_linux_options(opt_view(username), opt_view(password)),
{
    match (username, password) {
        (Some(u), Some(p)) => {
            let mut r = String::from_str("username=");
            r.append(u);
            r.append(",password=");
            r.append(p);
            r
        },
        (Some(u), None) => {
            let mut r = String::from_str("username=");
            r.append(u);
            r
        },
        (None, Some(p)) => {
            let mut r = String::from_str("password=");
            r.append(p);
            r
        },
        (None, None) => String::new(),
    }
}

/// The program the unmount command runs on each platform.
pub open spec fn spec_unmount_program(platform: Platform) -> Seq<char> {
    if platform == Platform::Windows {
        "net"@
    } else {
        "umount"@
    }
}

/// Arguments of the unmount command: `net use <mountpoint> /delete` on
/// Windows, `umount <mountpoint>` elsewhere.
pub open spec fn spec_unmount_args(platform: Platform, mountpoint: Seq<char>) -> Seq<Seq<char>> {
    if platform == Platform::Windows {
        seq!["use"@, mountpoint, "/delete"@]
    } else {
        seq![mountpoint]
    }
}

/// The native unmount command for a mount target on the given platform.
pub fn build_unmount_command(platform: Platform, mountpoint: &str) -> (r: CommandLine)
    ensures
        r.program@ == spec_unmount_program(platform),
        arg_views(r.args@) == spec_unmount_args(platform, mountpoint@),
{
    if platform == Platform::Windows {
        let mut args: Vec<String> = Vec::new();
        args.push(String::from_str("use"));
        args.push(String::from_str(mountpoint));
        args.push(String::from_str("/delete"));
        proof {
            assert(arg_views(args@) =~= spec_unmount_args(platform, mountpoint@));
        }
        CommandLine { program: String::from_str("net"), args }
    } else {
        let mut args: Vec<String> = Vec::new();
        args.push(String::from_str(mountpoint));
        proof {
            assert(arg_views(args@) =~= spec_unmount_args(platform, mountpoint@));
        }
        CommandLine { program: String::from_str("umount"), args }
    }
}

/// The program whose output lists the current mounts on each platform.
pub open spec fn spec_list_program(platform: Platform) -> Seq<char> {
    if platform == Platform::Windows {
        "net"@
    } else {
        "mount"@
    }
}

/// Arguments of the listing command: `net use` on Windows, a bare `mount`
/// elsewhere.
pub open spec fn spec_list_args(platform: Platform) -> Seq<Seq<char>> {
    if platform == Platform::Windows {
        seq!["use"@]
    } else {
        Seq::empty()
    }
}

/// The native command whose output lists the current mounts.
pub fn build_list_command(platform: Platform) -> (r: CommandLine)
    ensures
        r.program@ == spec_list_program(platform),
        arg_views(r.args@) == spec_list_args(platform),
{
    if platform == Platform::Windows {
        let mut args: Vec<String> = Vec::new();
        args.push(String::from_str("use"));
        proof {
            assert(arg_views(args@) =~= spec_list_args(platform));
        }
        CommandLine { program: String::from_str("net"), args }
    } else {
        let args: Vec<String> = Vec::new();
        proof {
            assert(arg_views(args@) =~= spec_list_args(platform));
        }
        CommandLine { program: String::from_str("mount"), args }
    }
}

/// The confirmation a successful mount returns, naming the server and the
/// mount target actually used.
pub open spec fn spec_mount_confirmation(server: Seq<char>, mountpoint: Seq<char>) -> Seq<char> {
    "mounted "@ + server + " at "@ + mountpoint
}

/// The confirmation a successful unmount returns.
pub open spec fn spec_unmount_confirmation(mountpoint: Seq<char>) -> Seq<char> {
    "unmounted "@ + mountpoint
}

/// A mount target chosen by the allocator is never kept silent: the
/// confirmation of a successful mount names the server and the mount target
/// actually used, and the confirmation of a successful unmount names the
/// target, so the caller always learns the association it needs for a later
/// unmount.
pub proof fn lemma_confirmation_names_mountpoint(server: Seq<char>, mountpoint: Seq<char>)
    ensures
        spec_contains(spec_mount_confirmation(server, mountpoint), mountpoint),
        spec_contains(spec_mount_confirmation(server, mountpoint), server),
        spec_contains(spec_unmount_confirmation(mountpoint), mountpoint),
{
    let c = spec_mount_confirmation(server, mountpoint);
    let jm: int = ("mounted "@.len() + server.len() + " at "@.len()) as int;
    assert(c.subrange(jm, jm + mountpoint.len() as int) =~= mountpoint);
    assert(spec_contains_at(c, mountpoint, jm));
    let js: int = "mounted "@.len() as int;
    assert(c.subrange(js, js + server.len() as int) =~= server);
    assert(spec_contains_at(c, server, js));
    let u = spec_unmount_confirmation(mountpoint);
    let ju: int = "unmounted "@.len() as int;
    assert(u.subrange(ju, ju + mountpoint.len() as int) =~= mountpoint);
    assert(spec_contains_at(u, mountpoint, ju));
}

/// What a finished mount command means: success yields the confirmation,
/// failure surfaces the native tool's stderr verbatim.
pub fn mount_outcome(server: &str, mountpoint: &str, result: &CommandResult) -> (r: Result<
    String,
    MountError,
>)
    ensures
        result.exit_success ==> (r matches Ok(c) && c@ == spec_mount_confirmation(
            server@,
            mountpoint@,
        )),
        !result.exit_success ==> (r matches Err(e) && e matches MountError::MountCommandFailed(m)
            && m@ == result.stderr@),
{
    if result.exit_success {
        let mut c = String::from_str("mounted ");
        c.append(server);
        c.append(" at ");
        c.append(mountpoint);
        Ok(c)
    } else {
        Err(MountError::MountCommandFailed(result.stderr.clone()))
    }
}

/// What a finished unmount command means: success yields the confirmation,
/// failure surfaces the native tool's stderr verbatim.
pub fn unmount_outcome(mountpoint: &str, result: &CommandResult) -> (r: Result<
    String,
    UnmountError,
>)
    ensures
        result.exit_success ==> (r matches Ok(c) && c@ == spec_unmount_confirmation(mountpoint@)),
        !result.exit_success ==> (r matches Err(e) && e matches UnmountError::UnmountCommandFailed(
            m,
        ) && m@ == result.stderr@),
{
    if result.exit_success {
        let mut c = String::from_str("unmounted ");
        c.append(mountpoint);
        Ok(c)
    } else {
        Err(UnmountError::UnmountCommandFailed(result.stderr.clone()))
    }
}

/// Everything the host program must do for one mount request: the mount
/// target to use, the command to run, and whether the target directory must
/// exist (and so be created if absent) before the command runs.
pub struct MountPlan {
    pub mountpoint: String,
    pub command: CommandLine,
    pub ensure_directory: bool,
}

/// The plan for a mount request: the mount target comes from the allocator,
/// the command from the platform's builder.  On Linux and macOS alike the
/// target directory must be made to exist (created recursively if absent)
/// before the command runs, whether the target was requested or allocated;
/// Windows drive letters never need one.
pub fn plan_mount(
    platform: Platform,
    server: &str,
    username: Option<&str>,
    password: Option<&str>,
    requested: Option<String>,
    occupied: &Vec<bool>,
) -> (r: Result<MountPlan, AllocationError>)
    requires
        platform == Platform::Windows && requested is None ==> occupied@.len()
            == drive_letters().len(),
    ensures
        r is Err ==> platform == Platform::Windows && requested is None && (r matches Err(
            AllocationError::NoDriveLetterAvailable,
        )) && (forall|j: int| 0 <= j < occupied@.len() ==> occupied@[j]),
        platform == Platform::Windows && requested is None && (exists|j: int|
            0 <= j < occupied@.len() && !occupied@[j]) ==> r is Ok,
        platform != Platform::Windows || requested is Some ==> r is Ok,
        r matches Ok(plan) ==> {
            &&& (requested matches Some(m) ==> plan.mountpoint@ == m@)
            &&& (requested is None && platform != Platform::Windows ==> plan.mountpoint@
                == crate::allocate::spec_unix_default_mountpoint(server@))
            &&& (requested is None && platform == Platform::Windows ==> exists|j: int|
                #[trigger] crate::allocate::is_highest_free(occupied@, j) && plan.mountpoint@
                    == crate::allocate::spec_drive_string(drive_letters()[j]))
            &&& plan.command.program@ == spec_mount_program(platform)
            &&& arg_views(plan.command.args@) == spec_mount_args(
                platform,
                server@,
                opt_view(username),
                opt_view(password),
                plan.mountpoint@,
            )
            &&& plan.ensure_directory == (platform != Platform::Windows)
        },
{
    let mountpoint = match allocate(platform, server, requested, occupied) {
        Ok(m) => m,
        Err(e) => {
            return Err(e);
        },
    };
    let command = build_mount_command(platform, server, username, password, mountpoint.as_str());
    let ensure_directory = !(platform == Platform::Windows);
    Ok(MountPlan { mountpoint, command, ensure_directory })
}

} // verus!
