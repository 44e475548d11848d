//! The atom that enforces the permission bits of a file.

use vstd::prelude::*;
use vstd::string::StringExecFns;
use crate::atom::{Atom, RevertError};
use crate::decimal::{decimal, decimal_string};
use crate::mode::{
    lemma_type_bits_keep_permissions, permission_bits, permission_bits_of, PERMISSION_MASK,
    REGULAR_FILE,
};
use crate::platform::Platform;

verus! {

/// The desired permission bits of one file.
///
/// `mode` holds permission bits only; the file-type bits of a mode word are
/// never part of it.
pub struct FilePermissions {
    path: String,
    mode: u32,
}

/// What a `FilePermissions` stands for: the characters of its path and its
/// permission bits.
pub struct FilePermissionsView {
    pub path: Seq<char>,
    pub mode: u32,
}

impl View for FilePermissions {
    type V = FilePermissionsView;

    closed spec fn view(&self) -> FilePermissionsView {
        FilePermissionsView { path: self.path@, mode: self.mode }
    }
}

impl FilePermissions {
    /// The mode holds no bits outside the permission bits.
    pub open spec fn well_formed(&self) -> bool {
        self@.mode <= PERMISSION_MASK
    }

    #[verifier::type_invariant]
    spec fn sound(&self) -> bool {
        self.well_formed()
    }

    /// The path of the file whose permissions the atom enforces.
    pub fn get_path(&self) -> (path: &String)
        ensures
            path@ == self@.path,
    {
        &self.path
    }

    /// The atom for the file at `path` with the permission bits `mode`.
    ///
    /// `mode` is what one would hand to a permission-changing command, such
    /// as `0o644`: it must hold no file-type bits.
    pub fn new(path: String, mode: u32) -> (atom: FilePermissions)
        requires
            mode <= PERMISSION_MASK,
        ensures
            atom@.path == path@,
            atom@.mode == mode,
            atom.well_formed(),
    {
        FilePermissions { path, mode }
    }
}

impl Atom for FilePermissions {
    /// The mode word that the host reports for the file: file-type bits and
    /// permission bits together.
    type Observed = u32;

    /// The permission bits that the host is to set on the file.
    type Change = u32;

    /// The file has drifted where the host has permission bits, the file
    /// could be inspected, and its permission bits are not the desired ones.
    open spec fn drifted(&self, platform: Platform, observed: Option<u32>) -> bool {
        &&& platform is Posix
        &&& observed is Some
        &&& permission_bits(observed->0) != self@.mode
    }

    open spec fn remedy(&self, platform: Platform) -> Option<u32> {
        match platform {
            Platform::Posix => Some(self@.mode),
            Platform::Other => None,
        }
    }

    open spec fn restoration(&self, platform: Platform, prior: Option<u32>) -> Result<
        Option<u32>,
        RevertError,
    > {
        match platform {
            Platform::Other => Ok(None),
            Platform::Posix => match prior {
                Some(word) => Ok(Some(permission_bits(word))),
                None => Err(RevertError::NothingCaptured),
            },
        }
    }

    /// The sentence names the path as it was given and the mode in decimal
    /// notation.
    open spec fn description(&self) -> Seq<char> {
        "The permissions on "@ + self@.path + " need to be set to "@ + decimal(
            self@.mode as nat,
        )
    }

    fn plan(&self, platform: Platform, observed: Option<u32>) -> (drift: bool) {
        proof {
            use_type_invariant(self);
        }
        match platform {
            Platform::Other => false,
            Platform::Posix => match observed {
                None => false,
                Some(on_disk) => {
                    // The caller states permission bits; the host reports them
                    // together with the file's type. Both sides are brought to
                    // permission bits alone before they are compared.
                    proof {
                        lemma_type_bits_keep_permissions(self.mode);
                    }
                    let desired: u32 = REGULAR_FILE + self.mode;
                    permission_bits_of(desired) != permission_bits_of(on_disk)
                },
            },
        }
    }

    fn execute(&self, platform: Platform) -> (change: Option<u32>) {
        match platform {
            Platform::Posix => Some(self.mode),
            Platform::Other => None,
        }
    }

    fn revert(&self, platform: Platform, prior: Option<u32>) -> (change: Result<
        Option<u32>,
        RevertError,
    >) {
        match platform {
            Platform::Other => Ok(None),
            Platform::Posix => match prior {
                Some(word) => Ok(Some(permission_bits_of(word))),
                None => Err(RevertError::NothingCaptured),
            },
        }
    }

    fn to_string(&self) -> (text: String) {
        let mut text: String = String::from_str("The permissions on ");
        text.append(self.path.as_str());
        text.append(" need to be set to ");
        let digits: String = decimal_string(self.mode);
        text.append(digits.as_str());
        text
    }
}

} // verus!
