//! Choosing or validating the local mount target for a request.

use vstd::prelude::*;
use vstd::string::*;
use crate::platform::Platform;
use crate::sanitize::{sanitize_server_name, spec_sanitize};
use crate::text::push_char;

verus! {

/// Why no mount target could be produced.
#[derive(Debug)]
pub enum AllocationError {
    /// Every candidate drive letter is already taken (Windows only).
    NoDriveLetterAvailable,
    /// The mount directory could not be created; holds the message the
    /// operating system gave.  Only the host program, which touches the
    /// filesystem, constructs this variant.
    AllocationIoError(String),
}

impl AllocationError {
    /// The message shown to the caller for this error.
    pub fn message(&self) -> (r: String)
        ensures
            self is NoDriveLetterAvailable ==> r@ == "no available drive letter"@,
            self matches AllocationError::AllocationIoError(m) ==> r@ == m@,
    {
        match self {
            AllocationError::NoDriveLetterAvailable => String::from_str("no available drive letter"),
            AllocationError::AllocationIoError(m) => m.clone(),
        }
    }
}

/// The candidate drive letters, lowest first.  Letters below `E` are never
/// allocated, to keep clear of commonly used low letters.
pub open spec fn drive_letters() -> Seq<char> {
    seq![
        'E',
        'F',
        'G',
        'H',
        'I',
        'J',
        'K',
        'L',
        'M',
        'N',
        'O',
        'P',
        'Q',
        'R',
        'S',
        'T',
        'U',
        'V',
        'W',
        'X',
        'Y',
        'Z',
    ]
}

/// The drive string for letter `c`, e.g. `Z:`.
pub open spec fn spec_drive_string(c: char) -> Seq<char> {
    seq![c, ':']
}

/// Position `j` holds the highest free candidate letter: free itself, with
/// every later candidate taken.
pub open spec fn is_highest_free(occupied: Seq<bool>, j: int) -> bool {
    &&& 0 <= j < occupied.len()
    &&& !occupied[j]
    &&& forall|k: int| j < k < occupied.len() ==> occupied[k]
}

/// The candidate drive letters as a vector, lowest first.
pub fn drive_letter_vec() -> (v: Vec<char>)
    ensures
        v@ == drive_letters(),
{
    let mut v: Vec<char> = Vec::new();
    v.push('E');
    v.push('F');
    v.push('G');
    v.push('H');
    v.push('I');
    v.push('J');
    v.push('K');
    v.push('L');
    v.push('M');
    v.push('N');
    v.push('O');
    v.push('P');
    v.push('Q');
    v.push('R');
    v.push('S');
    v.push('T');
    v.push('U');
    v.push('V');
    v.push('W');
    v.push('X');
    v.push('Y');
    v.push('Z');
    proof {
        assert(v@ =~= drive_letters());
    }
    v
}

/// The first free drive letter, scanning from `Z` down to `E`.
///
/// `occupied[j]` says whether the candidate letter `drive_letters()[j]` is
/// already bound to some filesystem entry; the host program fills it in by
/// probing the filesystem.
pub fn find_available_drive_letter(occupied: &Vec<bool>) -> (r: Option<String>)
    requires
        occupied@.len() == drive_letters().len(),
    ensures
        r is Some <==> exists|j: int| 0 <= j < occupied@.len() && !occupied@[j],
        r matches Some(d) ==> exists|j: int|
            #[trigger] is_highest_free(occupied@, j) && d@ == spec_drive_string(
                drive_letters()[j],
            ),
{
    let letters = drive_letter_vec();
    let n = letters.len();
    let mut i: usize = n;
    while i > 0
        invariant
            n == drive_letters().len(),
            letters@ == drive_letters(),
            occupied@.len() == n,
            i <= n,
            forall|k: int| i <= k < n ==> occupied@[k],
        decreases i,
    {
        i = i - 1;
        if !occupied[i] {
            let mut d = String::new();
            push_char(&mut d, letters[i]);
            push_char(&mut d, ':');
            proof {
                assert(is_highest_free(occupied@, i as int));
                assert(d@ =~= spec_drive_string(drive_letters()[i as int]));
            }
            return Some(d);
        }
    }
    None
}

/// The default mount directory for a server on a Unix-like system:
/// `/mnt/` followed by the sanitized server name.
pub open spec fn spec_unix_default_mountpoint(server: Seq<char>) -> Seq<char> {
    "/mnt/"@ + spec_sanitize(server)
}

/// The default mount directory for `server` on a Unix-like system.
pub fn unix_default_mountpoint(server: &str) -> (r: String)
    ensures
        r@ == spec_unix_default_mountpoint(server@),
{
    let mut r = String::from_str("/mnt/");
    let name = sanitize_server_name(server);
    r.append(name.as_str());
    r
}

/// The mount target for a request: the caller's own choice when one was
/// given, the highest free drive letter on Windows, and the default `/mnt`
/// directory elsewhere.
///
/// The host program probes the filesystem for `occupied` (consulted only on
/// Windows when no target was requested) and, on Unix-like systems, creates
/// the returned directory if it is absent.
pub fn allocate(
    platform: Platform,
    server: &str,
    requested: Option<String>,
    occupied: &Vec<bool>,
) -> (r: Result<String, AllocationError>)
    requires
        platform == Platform::Windows && requested is None ==> occupied@.len()
            == drive_letters().len(),
    ensures
        requested matches Some(m) ==> (r matches Ok(p) && p@ == m@),
        requested is None && platform != Platform::Windows ==> (r matches Ok(p) && p@
            == spec_unix_default_mountpoint(server@)),
        requested is None && platform == Platform::Windows ==> {
            &&& (r is Ok <==> exists|j: int| 0 <= j < occupied@.len() && !occupied@[j])
            &&& (r matches Ok(p) ==> exists|j: int|
                #[trigger] is_highest_free(occupied@, j) && p@ == spec_drive_string(
                    drive_letters()[j],
                ))
            &&& (r is Err ==> r matches Err(AllocationError::NoDriveLetterAvailable))
        },
{
    match requested {
        Some(m) => Ok(m),
        None => {
            if platform == Platform::Windows {
                match find_available_drive_letter(occupied) {
                    Some(d) => Ok(d),
                    None => Err(AllocationError::NoDriveLetterAvailable),
                }
            } else {
                Ok(unix_default_mountpoint(server))
            }
        },
    }
}

} // verus!
