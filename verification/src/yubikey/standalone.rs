//! Decisions around a PKCS#11 token middleware: where its library may be
//! installed, and which slots of a token to try.

use vstd::prelude::*;
use vstd::string::StringExecFns;

verus! {

/// Failures of the PKCS#11 path.
#[derive(Debug)]
pub enum YubiKeyError {
    /// No token, or no key on it.
    NotFound,
    /// The middleware reported an error.
    Pkcs11Error(String),
    /// Reading or writing failed.
    IoError(String),
    /// Anything else.
    Other(String),
}

/// The operating systems for which install locations are known.
#[derive(Clone, Copy, Debug, PartialEq, Eq, Structural)]
pub enum Platform {
    MacOs,
    Linux,
    Windows,
    Other,
}

/// The install locations probed on a platform, in the order of probing.
pub open spec fn candidates(platform: Platform) -> Seq<Seq<char>> {
    match platform {
        Platform::MacOs => seq![
            "/Library/OpenSC/lib/opensc-pkcs11.so"@,
            "/usr/local/lib/opensc-pkcs11.so"@,
            "/opt/homebrew/lib/opensc-pkcs11.so"@,
            "/usr/local/opt/opensc/lib/pkcs11/opensc-pkcs11.so"@,
            "/opt/local/lib/opensc-pkcs11.so"@,
        ],
        Platform::Linux => seq![
            "/usr/lib/x86_64-linux-gnu/opensc-pkcs11.so"@,
            "/usr/lib/opensc-pkcs11.so"@,
            "/usr/local/lib/opensc-pkcs11.so"@,
        ],
        Platform::Windows => seq![
            "C:\\Windows\\System32\\opensc-pkcs11.dll"@,
            "C:\\Program Files\\OpenSC Project\\OpenSC\\pkcs11\\opensc-pkcs11.dll"@,
        ],
        Platform::Other => Seq::<Seq<char>>::empty(),
    }
}

/// The views of a list of texts.
pub open spec fn views(paths: Seq<&'static str>) -> Seq<Seq<char>> {
    Seq::new(paths.len(), |i: int| paths[i]@)
}

/// The install locations probed on a platform, in the order of probing.
pub fn candidate_paths(platform: Platform) -> (paths: Vec<&'static str>)
    ensures
        views(paths@) == candidates(platform),
{
    let mut paths: Vec<&'static str> = Vec::new();
    match platform {
        Platform::MacOs => {
            paths.push("/Library/OpenSC/lib/opensc-pkcs11.so");
            paths.push("/usr/local/lib/opensc-pkcs11.so");
            paths.push("/opt/homebrew/lib/opensc-pkcs11.so");
            paths.push("/usr/local/opt/opensc/lib/pkcs11/opensc-pkcs11.so");
            paths.push("/opt/local/lib/opensc-pkcs11.so");
        },
        Platform::Linux => {
            paths.push("/usr/lib/x86_64-linux-gnu/opensc-pkcs11.so");
            paths.push("/usr/lib/opensc-pkcs11.so");
            paths.push("/usr/local/lib/opensc-pkcs11.so");
        },
        Platform::Windows => {
            paths.push("C:\\Windows\\System32\\opensc-pkcs11.dll");
            paths.push("C:\\Program Files\\OpenSC Project\\OpenSC\\pkcs11\\opensc-pkcs11.dll");
        },
        Platform::Other => {},
    }
    assert(views(paths@) =~= candidates(platform));
    paths
}

/// The location tried where probing finds nothing.
pub fn default_pkcs11_path(platform: Platform) -> (path: &'static str)
    ensures
        path@ == match platform {
            Platform::Linux => "/usr/lib/x86_64-linux-gnu/opensc-pkcs11.so"@,
            Platform::MacOs => "/Library/OpenSC/lib/opensc-pkcs11.so"@,
            Platform::Windows => "C:\\Windows\\System32\\opensc-pkcs11.dll"@,
            Platform::Other => ""@,
        },
{
    match platform {
        Platform::Linux => "/usr/lib/x86_64-linux-gnu/opensc-pkcs11.so",
        Platform::MacOs => "/Library/OpenSC/lib/opensc-pkcs11.so",
        Platform::Windows => "C:\\Windows\\System32\\opensc-pkcs11.dll",
        Platform::Other => "",
    }
}

/// Index of the first location that exists, given for each location whether
/// it does.
pub open spec fn first_existing(exists: Seq<bool>, at: int) -> bool {
    &&& 0 <= at < exists.len()
    &&& exists[at]
    &&& forall|earlier: int| 0 <= earlier < at ==> !exists[earlier]
}

/// Chooses the middleware library: the configured path where one is set
/// and exists, else the first probed location that exists.
///
/// `configured` is the path from the environment and `configured_exists`
/// whether a file stands there; `exists` says of each of the platform's
/// candidates whether it exists, and has as many entries as there are
/// candidates.
pub fn find_pkcs11_path(
    configured: Option<&str>,
    configured_exists: bool,
    platform: Platform,
    exists: &Vec<bool>,
) -> (r: Result<String, YubiKeyError>)
    requires
        exists@.len() == candidates(platform).len(),
    ensures
        match r {
            Ok(path) => if configured is Some && configured_exists {
                configured matches Some(set) && path@ == set@
            } else {
                exists|at: int| #[trigger]
                    first_existing(exists@, at) && path@ == candidates(platform)[at]
            },
            Err(YubiKeyError::Other(_)) => !(configured is Some && configured_exists) && forall|
                at: int,
            |
                0 <= at < exists@.len() ==> !exists@[at],
            Err(_) => false,
        },
{
    if configured_exists {
        match configured {
            Some(path) => {
                return Ok(String::from_str(path));
            },
            None => {},
        }
    }
    let paths = candidate_paths(platform);
    assert(paths@.len() == views(paths@).len());
    let mut at: usize = 0;
    while at < paths.len()
        invariant
            at <= paths@.len(),
            paths@.len() == exists@.len(),
            views(paths@) == candidates(platform),
            !(configured is Some && configured_exists),
            forall|earlier: int| 0 <= earlier < at ==> !exists@[earlier],
        decreases paths@.len() - at,
    {
        if exists[at] {
            assert(first_existing(exists@, at as int));
            assert(views(paths@)[at as int] == paths@[at as int]@);
            return Ok(String::from_str(paths[at]));
        }
        at = at + 1;
    }
    Err(
        YubiKeyError::Other(
            String::from_str(
                "Could not find PKCS#11 library. Please install OpenSC or specify the path manually.",
            ),
        ),
    )
}

/// The slots to try when connecting: those that hold a token where there
/// are any, else all; none at all is `NotFound`.
pub fn slots_to_try(all_slots: Vec<u64>, slots_with_tokens: Vec<u64>) -> (r: Result<
    Vec<u64>,
    YubiKeyError,
>)
    ensures
        match r {
            Ok(slots) => all_slots@.len() > 0 && slots@ == if slots_with_tokens@.len() > 0 {
                slots_with_tokens@
            } else {
                all_slots@
            },
            Err(YubiKeyError::NotFound) => all_slots@.len() == 0,
            Err(_) => false,
        },
{
    if all_slots.len() == 0 {
        return Err(YubiKeyError::NotFound);
    }
    if slots_with_tokens.len() > 0 {
        Ok(slots_with_tokens)
    } else {
        Ok(all_slots)
    }
}

} // verus!
