//! Which software and storage updates a release may make.
use vstd::prelude::*;
use vstd::string::StringSliceAdditionalSpecFns;
use crate::decimal::{read_number, spec_number};

verus! {

/// One segment of a version.
pub type VersionSegment = u16;

/// A label that names a release.
pub type ReleaseLabel = &'static str;

/// The label of this release.
pub const RELEASE_LABEL: ReleaseLabel = "dev-release";

/// The label of a development release.
pub const RELEASE_LABEL_DEV: &'static str = "dev-release";

/// A software version: major, minor and patch.
#[derive(Clone, Copy, PartialEq, Eq, Structural, Debug)]
pub struct SemVer {
    pub major: VersionSegment,
    pub minor: VersionSegment,
    pub patch: VersionSegment,
}

impl SemVer {
    /// Whether `self` comes before `other`: by major, then minor, then patch.
    pub open spec fn spec_lt(self, other: SemVer) -> bool {
        self.major < other.major || (self.major == other.major && (self.minor < other.minor || (
        self.minor == other.minor && self.patch < other.patch)))
    }

    /// Whether `self` comes before `other`.
    pub fn lt(&self, other: &SemVer) -> (res: bool)
        ensures
            res == self.spec_lt(*other),
    {
        self.major < other.major || (self.major == other.major && (self.minor < other.minor || (
        self.minor == other.minor && self.patch < other.patch)))
    }
}

/// The version of a contract: that of its storage layout and that of its
/// software.
#[derive(Clone, Copy, PartialEq, Eq, Structural, Debug)]
pub struct Version {
    pub storage: VersionSegment,
    pub software: SemVer,
}

impl Version {
    /// The version of storage layout `storage` and software `software`.
    pub fn new(storage: VersionSegment, software: SemVer) -> (res: Self)
        ensures
            res == (Version { storage, software }),
    {
        Version { storage, software }
    }
}

/// The software version that `bytes` write as three numbers with a dot
/// between them, each of at most 16 bits; nothing for any other text.
pub open spec fn spec_parse_semver(bytes: Seq<u8>) -> Option<SemVer> {
    match spec_number(bytes, 0, u16::MAX as int) {
        None => None,
        Some((major, after_major)) => if after_major >= bytes.len() || bytes[after_major] != 46 {
            None
        } else {
            match spec_number(bytes, after_major + 1, u16::MAX as int) {
                None => None,
                Some((minor, after_minor)) => if after_minor >= bytes.len() || bytes[after_minor]
                    != 46 {
                    None
                } else {
                    match spec_number(bytes, after_minor + 1, u16::MAX as int) {
                        None => None,
                        Some((patch, end)) => if end == bytes.len() {
                            Some(
                                SemVer {
                                    major: major as u16,
                                    minor: minor as u16,
                                    patch: patch as u16,
                                },
                            )
                        } else {
                            None
                        },
                    }
                },
            }
        },
    }
}

/// Reads a software version, or nothing if `version` does not write one.
pub fn try_parse_semver(version: &str) -> (res: Option<SemVer>)
    ensures
        res == spec_parse_semver(version.spec_bytes()),
{
    let bytes: &[u8] = version.as_bytes();
    let total: usize = bytes.len();
    let (major, after_major): (u128, usize) = match read_number(bytes, 0, 65535) {
        None => { return None; },
        Some(read) => read,
    };
    if after_major >= total || bytes[after_major] != 46 {
        return None;
    }
    let (minor, after_minor): (u128, usize) = match read_number(bytes, after_major + 1, 65535) {
        None => { return None; },
        Some(read) => read,
    };
    if after_minor >= total || bytes[after_minor] != 46 {
        return None;
    }
    let (patch, end): (u128, usize) = match read_number(bytes, after_minor + 1, 65535) {
        None => { return None; },
        Some(read) => read,
    };
    if end != total {
        return None;
    }
    Some(SemVer { major: major as u16, minor: minor as u16, patch: patch as u16 })
}

/// Reads a software version from text that writes one.
pub fn parse_semver(version: &str) -> (res: SemVer)
    requires
        spec_parse_semver(version.spec_bytes()).is_some(),
    ensures
        Some(res) == spec_parse_semver(version.spec_bytes()),
{
    match try_parse_semver(version) {
        Some(parsed) => parsed,
        None => SemVer { major: 0, minor: 0, patch: 0 },
    }
}

/// The kinds of releases.
#[derive(Clone, Copy, PartialEq, Eq, Structural, Debug)]
pub enum Type {
    /// A development release: the same software may be deployed again.
    Dev,
    /// A production release: the software version has to grow.
    Prod,
}

/// Why an update is refused.
#[derive(Clone, Copy, PartialEq, Eq, Structural, Debug)]
pub enum UpdateError {
    /// A software-only update met a different storage version.
    StorageVersionsDiffer { saved: VersionSegment, new: VersionSegment },
    /// The storage is not at the version the update starts from.
    UnexpectedStorageVersion { saved: VersionSegment, expected: VersionSegment },
    /// The new storage version is not the one after the current.
    StorageVersionNotAdjacent,
    /// The software version does not grow.
    SoftwareNotMonotonic,
}

/// Whether a release of kind `release_type` may replace software `current`
/// by software `new`: the version has to grow; a development release may
/// also keep it.
pub open spec fn spec_software_update_allowed(release_type: Type, current: SemVer, new: SemVer)
    -> bool {
    current.spec_lt(new) || (release_type == Type::Dev && current == new)
}

/// The verdict on an update that keeps the storage layout.
pub open spec fn spec_allow_software_update(release_type: Type, current: Version, new: Version)
    -> Result<(), UpdateError> {
    if current.storage != new.storage {
        Err(UpdateError::StorageVersionsDiffer { saved: current.storage, new: new.storage })
    } else if spec_software_update_allowed(release_type, current.software, new.software) {
        Ok(())
    } else {
        Err(UpdateError::SoftwareNotMonotonic)
    }
}

/// The verdict on an update that moves the storage layout from version
/// `from_storage_version` to the next. The next version after the highest
/// is zero.
pub open spec fn spec_allow_software_and_storage_update(
    from_storage_version: VersionSegment,
    release_type: Type,
    current: Version,
    new: Version,
) -> Result<(), UpdateError> {
    if current.storage != from_storage_version {
        Err(
            UpdateError::UnexpectedStorageVersion {
                saved: current.storage,
                expected: from_storage_version,
            },
        )
    } else if (if current.storage == u16::MAX {
        0
    } else {
        current.storage + 1
    }) != new.storage {
        Err(UpdateError::StorageVersionNotAdjacent)
    } else if spec_software_update_allowed(release_type, current.software, new.software) {
        Ok(())
    } else {
        Err(UpdateError::SoftwareNotMonotonic)
    }
}

/// The label of this release.
pub fn label() -> (res: ReleaseLabel)
    ensures
        res == RELEASE_LABEL,
{
    RELEASE_LABEL
}

/// The kind of the release that `label` names: a development release
/// carries the development label, every other release is a production one.
pub fn release_type_of(label: &str) -> (res: Type)
    ensures
        res == (if label@ == RELEASE_LABEL_DEV@ {
            Type::Dev
        } else {
            Type::Prod
        }),
{
    let given: String = label.to_owned();
    let dev: String = RELEASE_LABEL_DEV.to_owned();
    if given == dev {
        Type::Dev
    } else {
        Type::Prod
    }
}

/// The kind of this release.
pub fn release_type() -> (res: Type)
    ensures
        res == (if RELEASE_LABEL@ == RELEASE_LABEL_DEV@ {
            Type::Dev
        } else {
            Type::Prod
        }),
{
    release_type_of(RELEASE_LABEL)
}

fn allow_software_update_int(release_type: Type, current: &Version, new: &Version) -> (res: Result<
    (),
    UpdateError,
>)
    ensures
        res == (if spec_software_update_allowed(release_type, current.software, new.software) {
            Ok::<(), UpdateError>(())
        } else {
            Err::<(), UpdateError>(UpdateError::SoftwareNotMonotonic)
        }),
{
    let same: bool = current.software.major == new.software.major && current.software.minor
        == new.software.minor && current.software.patch == new.software.patch;
    if current.software.lt(&new.software) || (matches!(release_type, Type::Dev) && same) {
        Ok(())
    } else {
        Err(UpdateError::SoftwareNotMonotonic)
    }
}

/// Decides on an update by a release of kind `release_type` that keeps the
/// storage layout.
pub fn allow_software_update_type(release_type: Type, current: &Version, new: &Version) -> (res:
    Result<(), UpdateError>)
    ensures
        res == spec_allow_software_update(release_type, *current, *new),
{
    if current.storage != new.storage {
        return Err(
            UpdateError::StorageVersionsDiffer { saved: current.storage, new: new.storage },
        );
    }
    allow_software_update_int(release_type, current, new)
}

/// Decides on an update by a release of kind `release_type` that moves the
/// storage layout from version `FROM_STORAGE_VERSION` to the next.
pub fn allow_software_and_storage_update_type<const FROM_STORAGE_VERSION: u16>(
    release_type: Type,
    current: &Version,
    new: &Version,
) -> (res: Result<(), UpdateError>)
    ensures
        res == spec_allow_software_and_storage_update(
            FROM_STORAGE_VERSION,
            release_type,
            *current,
            *new,
        ),
{
    if current.storage != FROM_STORAGE_VERSION {
        return Err(
            UpdateError::UnexpectedStorageVersion {
                saved: current.storage,
                expected: FROM_STORAGE_VERSION,
            },
        );
    }
    if current.storage.wrapping_add(1) == new.storage {
        allow_software_update_int(release_type, current, new)
    } else {
        Err(UpdateError::StorageVersionNotAdjacent)
    }
}

/// Decides on an update by this release that keeps the storage layout.
pub fn allow_software_update(current: &Version, new: &Version) -> (res: Result<(), UpdateError>)
    ensures
        res == spec_allow_software_update(
            if RELEASE_LABEL@ == RELEASE_LABEL_DEV@ {
                Type::Dev
            } else {
                Type::Prod
            },
            *current,
            *new,
        ),
{
    allow_software_update_type(release_type(), current, new)
}

/// Decides on an update by this release that moves the storage layout from
/// version `FROM_STORAGE_VERSION` to the next.
pub fn allow_software_and_storage_update<const FROM_STORAGE_VERSION: u16>(
    current: &Version,
    new: &Version,
) -> (res: Result<(), UpdateError>)
    ensures
        res == spec_allow_software_and_storage_update(
            FROM_STORAGE_VERSION,
            if RELEASE_LABEL@ == RELEASE_LABEL_DEV@ {
                Type::Dev
            } else {
                Type::Prod
            },
            *current,
            *new,
        ),
{
    allow_software_and_storage_update_type::<FROM_STORAGE_VERSION>(release_type(), current, new)
}

} // verus!
