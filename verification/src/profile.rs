//! Build profiles and the on-disk places that belong to them.

use vstd::prelude::*;

verus! {

/// Directory under the project root that holds every build directory.
pub const TARGET_DIR: &'static str = "target";

/// Build directory of the debug profile.
pub const DEBUG_DIR: &'static str = "target/debug";

/// Build directory of the release profile.
pub const RELEASE_DIR: &'static str = "target/release";

/// A named build configuration.
#[derive(Clone, Copy, PartialEq, Eq, Debug, Structural)]
pub enum Profile {
    Debug,
    Release,
}

impl Profile {
    /// The build directory of this profile, relative to the project root.
    pub open spec fn dir(self) -> Seq<char> {
        match self {
            Profile::Debug => DEBUG_DIR@,
            Profile::Release => RELEASE_DIR@,
        }
    }

    /// The value of the generator's `buildtype` option for this profile.
    pub open spec fn buildtype(self) -> Seq<char> {
        match self {
            Profile::Debug => "debug"@,
            Profile::Release => "release"@,
        }
    }

    /// Selects the profile from the `--release` flag.
    pub fn from_release_flag(release: bool) -> (profile: Profile)
        ensures
            profile == (if release { Profile::Release } else { Profile::Debug }),
    {
        if release {
            Profile::Release
        } else {
            Profile::Debug
        }
    }

    /// Maps the profile to its build directory and its `buildtype` value.
    pub fn resolve(self) -> (place: (&'static str, &'static str))
        ensures
            place.0@ == self.dir(),
            place.1@ == self.buildtype(),
    {
        match self {
            Profile::Debug => (DEBUG_DIR, "debug"),
            Profile::Release => (RELEASE_DIR, "release"),
        }
    }
}

} // verus!
