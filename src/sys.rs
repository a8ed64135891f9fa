//! Results of privileged system calls: the `-1`-means-error convention and
//! the resolution of a device's owner and group.
use vstd::prelude::*;

verus! {

#[verifier::external_type_specification]
#[verifier::external_body]
pub struct ExIoError(std::io::Error);

/// Why changing a device's owner failed.
#[derive(Debug)]
pub enum ChownError {
    BadUser,
    BadGroup,
    IO(std::io::Error),
}

/// Relies on std::io::Error::last_os_error: the error that the last failed
/// system call of this thread left. Nothing is known of its value.
#[verifier::external_body]
fn last_os_error() -> (r: std::io::Error) {
    std::io::Error::last_os_error()
}

/// Normalizes a system call's return value: `-1` is failure, carrying the
/// last OS error; any other value is success and is handed back.
pub fn c(ret: i32) -> (r: Result<i32, std::io::Error>)
    ensures
        r is Err <==> ret == -1,
        r is Ok ==> r->Ok_0 == ret,
{
    if ret == -1 {
        Err(last_os_error())
    } else {
        Ok(ret)
    }
}

/// The name can be handed to the platform as a C string: no zero byte.
pub open spec fn embeddable(name: Seq<char>) -> bool {
    forall|i: int| 0 <= i < name.len() ==> name[i] != '\0'
}

/// Tells whether `name` holds no NUL character.
pub fn is_embeddable(name: &str) -> (r: bool)
    ensures
        r == embeddable(name@),
{
    let n: usize = name.unicode_len();
    let mut i: usize = 0;
    while i < n
        invariant
            n == name@.len(),
            i <= n,
            forall|j: int| 0 <= j < i ==> name@[j] != '\0',
        decreases n - i,
    {
        if name.get_char(i) == '\0' {
            return false;
        }
        i = i + 1;
    }
    true
}

/// What resolving `user` and `group` to identifiers gives, where `uid` and
/// `gid` are what the account and group directories returned for them (only
/// consulted for an embeddable name).
pub open spec fn owner_spec(user_ok: bool, group_ok: bool, uid: Option<u32>, gid: Option<u32>) -> Result<(u32, u32), ChownError> {
    if !user_ok {
        Err(ChownError::BadUser)
    } else if !group_ok {
        Err(ChownError::BadGroup)
    } else if uid is None {
        Err(ChownError::BadUser)
    } else if gid is None {
        Err(ChownError::BadGroup)
    } else {
        Ok((uid->Some_0, gid->Some_0))
    }
}

/// Decides the numeric owner and group of a device: a name that is not
/// embeddable, or that the directory does not know, is refused, the user
/// name before the group name.
pub fn resolve_owner(user: &str, group: &str, uid: Option<u32>, gid: Option<u32>) -> (r: Result<(u32, u32), ChownError>)
    ensures
        r == owner_spec(embeddable(user@), embeddable(group@), uid, gid),
{
    if !is_embeddable(user) {
        return Err(ChownError::BadUser);
    }
    if !is_embeddable(group) {
        return Err(ChownError::BadGroup);
    }
    match (uid, gid) {
        (None, _) => Err(ChownError::BadUser),
        (Some(_), None) => Err(ChownError::BadGroup),
        (Some(u), Some(g)) => Ok((u, g)),
    }
}

} // verus!
