//! Supported platforms and where the bundled `ck-client` and `openvpn`
//! binaries are found.

use vstd::prelude::*;

use crate::error::PulsarError;
use crate::paths::{join_path, path_join};
use crate::text::{concat, push_str, str_eq, to_string};

verus! {

/// An operating system and processor architecture that Pulsar ships
/// binaries for.
#[derive(Debug, Clone, Copy, PartialEq, Eq, Structural)]
pub enum Platform {
    MacOSX86_64,
    MacOSAarch64,
    LinuxX86_64,
}

/// The name of the directory under `bundled/` that holds the platform's
/// binaries.
pub open spec fn spec_dir_name(p: Platform) -> Seq<char> {
    match p {
        Platform::MacOSX86_64 => "macos-x86_64"@,
        Platform::MacOSAarch64 => "macos-aarch64"@,
        Platform::LinuxX86_64 => "linux-x86_64"@,
    }
}

/// The platform for an operating system and architecture as Rust names
/// them (`std::env::consts::OS` and `ARCH`), if it is supported.
pub open spec fn spec_platform_for(os: Seq<char>, arch: Seq<char>) -> Option<Platform> {
    if os == "macos"@ && arch == "x86_64"@ {
        Some(Platform::MacOSX86_64)
    } else if os == "macos"@ && arch == "aarch64"@ {
        Some(Platform::MacOSAarch64)
    } else if os == "linux"@ && arch == "x86_64"@ {
        Some(Platform::LinuxX86_64)
    } else {
        None
    }
}

/// Exactly three pairs of operating system and architecture are supported,
/// each by its own platform: macOS on x86-64 and on AArch64, and Linux on
/// x86-64. Every other pair, Linux on AArch64 among them, is not.
pub proof fn lemma_supported_pairs(os: Seq<char>, arch: Seq<char>)
    ensures
        os == "macos"@ && arch == "x86_64"@ ==> spec_platform_for(os, arch) == Some(
            Platform::MacOSX86_64,
        ),
        os == "macos"@ && arch == "aarch64"@ ==> spec_platform_for(os, arch) == Some(
            Platform::MacOSAarch64,
        ),
        os == "linux"@ && arch == "x86_64"@ ==> spec_platform_for(os, arch) == Some(
            Platform::LinuxX86_64,
        ),
        !(os == "macos"@ && arch == "x86_64"@) && !(os == "macos"@ && arch == "aarch64"@) && !(os
            == "linux"@ && arch == "x86_64"@) ==> spec_platform_for(os, arch) is None,
{
    lemma_names_differ();
}

proof fn lemma_names_differ()
    ensures
        "x86_64"@ != "aarch64"@,
        "macos"@ != "linux"@,
{
    reveal_strlit("x86_64");
    reveal_strlit("aarch64");
    reveal_strlit("macos");
    reveal_strlit("linux");
    assert("x86_64"@[0] != "aarch64"@[0]);
    assert("macos"@[0] != "linux"@[0]);
}

impl Platform {
    /// The platform named by `os` and `arch`, or `PlatformNotSupported`
    /// with the text `"<os> <arch>"`.
    pub fn from_os_arch(os: &str, arch: &str) -> (r: Result<Platform, PulsarError>)
        ensures
            r matches Ok(p) ==> spec_platform_for(os@, arch@) == Some(p),
            r is Ok <==> spec_platform_for(os@, arch@) is Some,
            r is Err ==> (r matches Err(PulsarError::PlatformNotSupported(m)) && m@ == os@ + " "@
                + arch@),
            os@ == "macos"@ && arch@ == "x86_64"@ ==> r matches Ok(Platform::MacOSX86_64),
            os@ == "macos"@ && arch@ == "aarch64"@ ==> r matches Ok(Platform::MacOSAarch64),
            os@ == "linux"@ && arch@ == "x86_64"@ ==> r matches Ok(Platform::LinuxX86_64),
            !(os@ == "macos"@ && arch@ == "x86_64"@) && !(os@ == "macos"@ && arch@ == "aarch64"@)
                && !(os@ == "linux"@ && arch@ == "x86_64"@) ==> r is Err,
    {
        proof {
            lemma_names_differ();
        }
        let is_macos = str_eq(os, "macos");
        let is_linux = str_eq(os, "linux");
        let is_x86_64 = str_eq(arch, "x86_64");
        let is_aarch64 = str_eq(arch, "aarch64");
        if is_macos && is_x86_64 {
            Ok(Platform::MacOSX86_64)
        } else if is_macos && is_aarch64 {
            Ok(Platform::MacOSAarch64)
        } else if is_linux && is_x86_64 {
            Ok(Platform::LinuxX86_64)
        } else {
            let mut m = concat(os, " ");
            push_str(&mut m, arch);
            Err(PulsarError::PlatformNotSupported(m))
        }
    }

    /// The directory name under `bundled/` for this platform.
    pub fn dir_name(&self) -> (s: &'static str)
        ensures
            s@ == spec_dir_name(*self),
    {
        match self {
            Platform::MacOSX86_64 => "macos-x86_64",
            Platform::MacOSAarch64 => "macos-aarch64",
            Platform::LinuxX86_64 => "linux-x86_64",
        }
    }

    /// Whether the platform is supported; every platform that can be named is.
    pub fn is_supported(&self) -> (r: bool)
        ensures
            r,
    {
        match self {
            Platform::MacOSX86_64 | Platform::MacOSAarch64 | Platform::LinuxX86_64 => true,
        }
    }
}

/// Different platforms keep their binaries in different directories.
pub proof fn lemma_dir_names_distinct(a: Platform, b: Platform)
    requires
        a != b,
    ensures
        spec_dir_name(a) != spec_dir_name(b),
{
    reveal_strlit("macos-x86_64");
    reveal_strlit("macos-aarch64");
    reveal_strlit("linux-x86_64");
    assert("macos-x86_64"@[6] != "macos-aarch64"@[6]);
    assert("macos-x86_64"@[0] != "linux-x86_64"@[0]);
    assert("macos-aarch64"@[0] != "linux-x86_64"@[0]);
}

/// The paths of the two programs a connection runs.
#[derive(Debug)]
pub struct BinaryPaths {
    pub ck_client: String,
    pub openvpn: String,
}

/// The programs as found on the search path, for `--use-system-binaries`.
pub fn system_binaries() -> (b: BinaryPaths)
    ensures
        b.ck_client@ == "ck-client"@,
        b.openvpn@ == "openvpn"@,
{
    BinaryPaths { ck_client: to_string("ck-client"), openvpn: to_string("openvpn") }
}

/// What `Path::parent` returns for the path `p`.
pub uninterp spec fn std_path_parent(p: Seq<char>) -> Option<Seq<char>>;

/// Calls `std::path::Path::parent` on `p` and returns the parent as a string.
/// The parent of a path given as UTF-8 text is a prefix of it, so the
/// conversion back to a string is lossless. The result is named
/// `std_path_parent`; nothing else is claimed of it.
#[verifier::external_body]
fn path_parent(p: &str) -> (r: Option<String>)
    ensures
        r matches Some(s) ==> std_path_parent(p@) == Some(s@),
        r is None <==> std_path_parent(p@) is None,
{
    std::path::Path::new(p).parent().map(|q| q.to_string_lossy().into_owned())
}

/// The directory that holds the bundled binaries of `platform` next to an
/// executable in `exe_dir`: `<exe_dir>/bundled/<dir_name>`.
pub open spec fn spec_bundled_dir(exe_dir: Seq<char>, platform: Platform) -> Seq<char> {
    path_join(path_join(exe_dir, "bundled"@), spec_dir_name(platform))
}

/// Where the bundled binaries of `platform` are expected, given the path of
/// the running executable `exe_path`.
pub fn bundled_binary_paths(exe_path: &str, platform: Platform) -> (r: Result<
    BinaryPaths,
    PulsarError,
>)
    ensures
        std_path_parent(exe_path@) is None ==> (r matches Err(PulsarError::BinaryMissing(m)) && m@
            == "Cannot determine executable directory"@),
        std_path_parent(exe_path@) matches Some(dir) ==> (r matches Ok(b) && b.ck_client@
            == path_join(spec_bundled_dir(dir, platform), "ck-client"@) && b.openvpn@ == path_join(
            spec_bundled_dir(dir, platform),
            "openvpn"@,
        )),
{
    match path_parent(exe_path) {
        None => Err(PulsarError::BinaryMissing(to_string("Cannot determine executable directory"))),
        Some(dir) => {
            let bundled = join_path(dir.as_str(), "bundled");
            let platform_dir = join_path(bundled.as_str(), platform.dir_name());
            let ck_client = join_path(platform_dir.as_str(), "ck-client");
            let openvpn = join_path(platform_dir.as_str(), "openvpn");
            Ok(BinaryPaths { ck_client, openvpn })
        },
    }
}

/// The bundled binaries, provided both exist (`ck_client_exists`,
/// `openvpn_exists`); otherwise `BinaryMissing` naming the first one missing.
pub fn require_binaries_present(paths: BinaryPaths, ck_client_exists: bool, openvpn_exists: bool) -> (r:
    Result<BinaryPaths, PulsarError>)
    ensures
        !ck_client_exists ==> (r matches Err(PulsarError::BinaryMissing(m)) && m@
            == paths.ck_client@),
        ck_client_exists && !openvpn_exists ==> (r matches Err(PulsarError::BinaryMissing(m)) && m@
            == paths.openvpn@),
        ck_client_exists && openvpn_exists ==> (r matches Ok(b) && b.ck_client@ == paths.ck_client@
            && b.openvpn@ == paths.openvpn@),
{
    if !ck_client_exists {
        return Err(PulsarError::BinaryMissing(paths.ck_client));
    }
    if !openvpn_exists {
        return Err(PulsarError::BinaryMissing(paths.openvpn));
    }
    Ok(paths)
}

/// A file mode grants execution to someone (owner, group or others).
pub open spec fn mode_is_executable(mode: u32) -> bool {
    mode & 0o111u32 != 0
}

/// Checks the permission bits `mode` of the binary at `path`: it must be
/// executable by someone, else `BinaryNotExecutable(path)`.
pub fn check_executable_mode(path: &str, mode: u32) -> (r: Result<(), PulsarError>)
    ensures
        r is Ok <==> mode_is_executable(mode),
        !mode_is_executable(mode) ==> (r matches Err(PulsarError::BinaryNotExecutable(m)) && m@
            == path@),
{
    if mode & 0o111u32 == 0 {
        return Err(PulsarError::BinaryNotExecutable(to_string(path)));
    }
    Ok(())
}

} // verus!
