use vstd::prelude::*;
use crate::perms::{FileKind, FileStatus};

verus! {

/// Exit status of an unclassified failure: bad arguments, a failed spawn.
pub const RET_GENERIC_ERROR: u8 = 32 | 1;
/// Exit status when the launcher cannot establish facts about its own
/// environment: its path, its name, an owner that cannot be read.
pub const RET_ENV_ERROR: u8 = 32 | 2;
/// Exit status when no companion binary exists at the resolved path.
pub const RET_NO_TARGET: u8 = 32 | 3;
/// Exit status when the caller does not own the launcher.
pub const RET_OWNER_EXEC: u8 = 32 | 8 | 0;
/// Exit status when the launcher's permission bits are unsafe.
pub const RET_PERM_EXEC: u8 = 32 | 8 | 1;
/// Exit status when the caller does not own the launcher's directory.
pub const RET_OWNER_PARENT: u8 = 32 | 8 | 2;
/// Exit status when the launcher's directory has unsafe permission bits.
pub const RET_PERM_PARENT: u8 = 32 | 8 | 3;
/// Exit status when the caller owns neither the target nor root privilege.
pub const RET_OWNER_TARGET: u8 = 32 | 6;
/// Exit status when the target's permission bits are unsafe.
pub const RET_PERM_TARGET: u8 = 32 | 6;

/// Why the launcher refuses to go on.
#[derive(Clone, Copy, Debug, PartialEq, Eq, Structural)]
pub enum Denial {
    Generic,
    Environment,
    NoTarget,
    OwnerExe,
    PermExe,
    OwnerParent,
    PermParent,
    OwnerTarget,
    PermTarget,
}

pub open spec fn denial_code(d: Denial) -> u8 {
    match d {
        Denial::Generic => RET_GENERIC_ERROR,
        Denial::Environment => RET_ENV_ERROR,
        Denial::NoTarget => RET_NO_TARGET,
        Denial::OwnerExe => RET_OWNER_EXEC,
        Denial::PermExe => RET_PERM_EXEC,
        Denial::OwnerParent => RET_OWNER_PARENT,
        Denial::PermParent => RET_PERM_PARENT,
        Denial::OwnerTarget => RET_OWNER_TARGET,
        Denial::PermTarget => RET_PERM_TARGET,
    }
}

impl Denial {
    /// The process exit status that reports this denial.
    pub fn exit_code(&self) -> (r: u8)
        ensures
            r == denial_code(*self),
    {
        match self {
            Denial::Generic => RET_GENERIC_ERROR,
            Denial::Environment => RET_ENV_ERROR,
            Denial::NoTarget => RET_NO_TARGET,
            Denial::OwnerExe => RET_OWNER_EXEC,
            Denial::PermExe => RET_PERM_EXEC,
            Denial::OwnerParent => RET_OWNER_PARENT,
            Denial::PermParent => RET_PERM_PARENT,
            Denial::OwnerTarget => RET_OWNER_TARGET,
            Denial::PermTarget => RET_PERM_TARGET,
        }
    }
}

/// The outcome of reading one object's metadata.
#[derive(Clone, Copy, Debug, PartialEq, Eq, Structural)]
pub enum Probe {
    Found(FileStatus),
    /// The object does not exist.
    NotFound,
    /// Its metadata could not be read for another reason.
    Unreadable,
}

/// First link: the launcher itself must be a secure regular file that has a
/// usable name and is owned by the effective user. Yields its owner.
pub open spec fn exe_step(euid: u32, exe: Probe, named: bool) -> Result<u32, Denial> {
    match exe {
        Probe::Found(st) => if !st.secure() {
            Err(Denial::PermExe)
        } else if st.kind != FileKind::File || !named {
            Err(Denial::Environment)
        } else if euid != st.owner {
            Err(Denial::OwnerExe)
        } else {
            Ok(st.owner)
        },
        _ => Err(Denial::Environment),
    }
}

/// Second link: the launcher's directory (`None`: it has none) must be a
/// secure directory owned by the effective user. Yields its owner.
pub open spec fn parent_step(euid: u32, parent: Option<Probe>) -> Result<u32, Denial> {
    match parent {
        Some(Probe::Found(st)) => if !st.secure() {
            Err(Denial::PermParent)
        } else if st.kind != FileKind::Directory {
            Err(Denial::Environment)
        } else if euid != st.owner {
            Err(Denial::OwnerParent)
        } else {
            Ok(st.owner)
        },
        _ => Err(Denial::Environment),
    }
}

/// Last link: the target (`None`: its path could not be formed) must exist,
/// be a secure regular file, and be owned by the effective user unless that
/// user is root. Yields its owner, the user the child runs as.
pub open spec fn target_step(euid: u32, target: Option<Probe>) -> Result<u32, Denial> {
    match target {
        Some(Probe::Found(st)) => if !st.secure() {
            Err(Denial::PermTarget)
        } else if st.kind != FileKind::File {
            Err(Denial::Environment)
        } else if euid != 0 && euid != st.owner {
            Err(Denial::OwnerTarget)
        } else {
            Ok(st.owner)
        },
        Some(Probe::NotFound) => Err(Denial::NoTarget),
        _ => Err(Denial::Environment),
    }
}

/// The whole chain: launcher, then its directory, then the target; the first
/// link that fails decides the denial.
pub open spec fn authorization(
    euid: u32,
    exe: Probe,
    named: bool,
    parent: Option<Probe>,
    target: Option<Probe>,
) -> Result<u32, Denial> {
    match exe_step(euid, exe, named) {
        Err(d) => Err(d),
        Ok(_) => match parent_step(euid, parent) {
            Err(d) => Err(d),
            Ok(_) => target_step(euid, target),
        },
    }
}

/// Checks the launcher itself; `named` says whether its path ends in a
/// readable file name.
pub fn check_executable(euid: u32, exe: &Probe, named: bool) -> (r: Result<u32, Denial>)
    ensures
        r == exe_step(euid, *exe, named),
{
    match exe {
        Probe::Found(st) => {
            if !st.is_secure() {
                Err(Denial::PermExe)
            } else if st.kind != FileKind::File || !named {
                Err(Denial::Environment)
            } else if euid != st.owner {
                Err(Denial::OwnerExe)
            } else {
                Ok(st.owner)
            }
        },
        _ => Err(Denial::Environment),
    }
}

/// Checks the directory that holds the launcher.
pub fn check_parent(euid: u32, parent: Option<&Probe>) -> (r: Result<u32, Denial>)
    ensures
        r == parent_step(euid, match parent { Some(p) => Some(*p), None => None }),
{
    match parent {
        Some(Probe::Found(st)) => {
            if !st.is_secure() {
                Err(Denial::PermParent)
            } else if st.kind != FileKind::Directory {
                Err(Denial::Environment)
            } else if euid != st.owner {
                Err(Denial::OwnerParent)
            } else {
                Ok(st.owner)
            }
        },
        _ => Err(Denial::Environment),
    }
}

/// Checks the companion binary; root may run one owned by anybody.
pub fn check_target(euid: u32, target: Option<&Probe>) -> (r: Result<u32, Denial>)
    ensures
        r == target_step(euid, match target { Some(p) => Some(*p), None => None }),
{
    match target {
        Some(Probe::Found(st)) => {
            if !st.is_secure() {
                Err(Denial::PermTarget)
            } else if st.kind != FileKind::File {
                Err(Denial::Environment)
            } else if euid != 0 && euid != st.owner {
                Err(Denial::OwnerTarget)
            } else {
                Ok(st.owner)
            }
        },
        Some(Probe::NotFound) => Err(Denial::NoTarget),
        _ => Err(Denial::Environment),
    }
}

/// Runs the ownership chain for effective user `euid` and returns the owner
/// of the target, the user the child is to run as, or the first denial.
pub fn authorize(
    euid: u32,
    exe: &Probe,
    named: bool,
    parent: Option<&Probe>,
    target: Option<&Probe>,
) -> (r: Result<u32, Denial>)
    ensures
        r == authorization(
            euid,
            *exe,
            named,
            match parent { Some(p) => Some(*p), None => None },
            match target { Some(p) => Some(*p), None => None },
        ),
{
    match check_executable(euid, exe, named) {
        Err(d) => Err(d),
        Ok(_) => match check_parent(euid, parent) {
            Err(d) => Err(d),
            Ok(_) => check_target(euid, target),
        },
    }
}

/// The chain is ordered launcher, directory, target: a failing launcher is
/// reported whatever the later links hold; a passing launcher with a failing
/// directory is reported as that directory's denial, never as a generic or
/// target denial; only when both pass does the target decide.
pub proof fn lemma_chain_order(
    euid: u32,
    exe: Probe,
    named: bool,
    parent: Option<Probe>,
    target: Option<Probe>,
)
    ensures
        exe_step(euid, exe, named) is Err ==> authorization(euid, exe, named, parent, target)
            == exe_step(euid, exe, named),
        exe_step(euid, exe, named) is Ok && parent_step(euid, parent) is Err ==> {
            let r = authorization(euid, exe, named, parent, target);
            &&& r == parent_step(euid, parent)
            &&& r != Err::<u32, Denial>(Denial::Generic)
            &&& r != Err::<u32, Denial>(Denial::NoTarget)
            &&& r != Err::<u32, Denial>(Denial::OwnerTarget)
            &&& r != Err::<u32, Denial>(Denial::PermTarget)
        },
        exe_step(euid, exe, named) is Ok && parent_step(euid, parent) is Ok ==> authorization(
            euid,
            exe,
            named,
            parent,
            target,
        ) == target_step(euid, target),
{
}

/// Root may launch a secure target file owned by any user, once the launcher
/// and its directory have passed.
pub proof fn lemma_root_bypass(exe: Probe, named: bool, parent: Option<Probe>, st: FileStatus)
    requires
        exe_step(0, exe, named) is Ok,
        parent_step(0, parent) is Ok,
        st.secure(),
        st.kind == FileKind::File,
    ensures
        authorization(0, exe, named, parent, Some(Probe::Found(st))) == Ok::<u32, Denial>(
            st.owner,
        ),
{
}

/// Any other effective user is denied a target owned by someone else, even
/// when every other check passes; then the denial is the target-owner one.
pub proof fn lemma_non_root_owner_mismatch(
    euid: u32,
    exe: Probe,
    named: bool,
    parent: Option<Probe>,
    st: FileStatus,
)
    requires
        euid != 0,
        st.owner != euid,
    ensures
        authorization(euid, exe, named, parent, Some(Probe::Found(st))) is Err,
        exe_step(euid, exe, named) is Ok && parent_step(euid, parent) is Ok && st.secure()
            && st.kind == FileKind::File ==> authorization(
            euid,
            exe,
            named,
            parent,
            Some(Probe::Found(st)),
        ) == Err::<u32, Denial>(Denial::OwnerTarget),
{
}

/// A launcher and directory that are secure and owned by the caller, next to
/// a target that does not exist, end in the missing-target denial and its
/// exit status 35; with a secure target file owned by the caller the launch
/// is authorised as that caller.
pub proof fn lemma_end_to_end(euid: u32, exe: FileStatus, dir: FileStatus, target: FileStatus)
    requires
        exe.secure(),
        exe.kind == FileKind::File,
        exe.owner == euid,
        dir.secure(),
        dir.kind == FileKind::Directory,
        dir.owner == euid,
    ensures
        authorization(euid, Probe::Found(exe), true, Some(Probe::Found(dir)), Some(Probe::NotFound))
            == Err::<u32, Denial>(Denial::NoTarget),
        denial_code(Denial::NoTarget) == 35,
        target.secure() && target.kind == FileKind::File && target.owner == euid ==> authorization(
            euid,
            Probe::Found(exe),
            true,
            Some(Probe::Found(dir)),
            Some(Probe::Found(target)),
        ) == Ok::<u32, Denial>(euid),
{
    assert(32u8 | 3u8 == 35u8) by (bit_vector);
}

} // verus!
