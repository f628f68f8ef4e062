//! Profile validation.
//!
//! A profile is a folder holding the two sound scripts, `dit.sh` and
//! `dah.sh`. Whether the folder and the scripts exist on disk is
//! checked outside this crate; the validation rule itself — which
//! findings make a profile usable, and which error each failure is —
//! lives here on plain values.

use vstd::prelude::*;

verus! {

/// Why a profile cannot be used.
#[derive(Clone, Copy, PartialEq, Eq, Debug, Structural)]
pub enum ProfileError {
    /// The profile folder does not exist.
    MissingFolder,
    /// The folder lacks `dit.sh` or `dah.sh`.
    MissingScripts,
}

/// A validated profile: the folder the sound scripts live in.
#[derive(PartialEq, Eq, Debug)]
pub struct Profile {
    /// The profile folder.
    pub folder: String,
}

impl Profile {
    /// Validate a profile from what the filesystem showed: whether the
    /// folder exists, and whether each of `dit.sh` and `dah.sh` exists
    /// in it. A missing folder is reported before missing scripts; the
    /// profile loads exactly when all three are present.
    pub fn load(folder: String, folder_found: bool, dit_script_found: bool, dah_script_found: bool)
        -> (r: Result<Profile, ProfileError>)
        ensures
            !folder_found ==> r == Err::<Profile, ProfileError>(ProfileError::MissingFolder),
            folder_found && !(dit_script_found && dah_script_found) ==> r == Err::<
                Profile,
                ProfileError,
            >(ProfileError::MissingScripts),
            folder_found && dit_script_found && dah_script_found ==> (r matches Ok(p)
                && p.folder@ == folder@),
    {
        if !folder_found {
            return Err(ProfileError::MissingFolder);
        }
        if !dit_script_found || !dah_script_found {
            return Err(ProfileError::MissingScripts);
        }
        Ok(Profile { folder })
    }
}

} // verus!
