use vstd::prelude::*;

use crate::errors::Error;
use crate::layout::count_files;
use crate::layout::file_count;
use crate::layout::nth_file;
use crate::layout::required_file;
use crate::layout::SecretFile;
use crate::mode::Mode;

verus! {

/// Whether what was found of a file is what the layout demands: the file is
/// there (`Some`) and has exactly its length.
pub open spec fn size_fits(file: SecretFile, found: Option<u64>) -> bool {
    found == Some(file.len() as u64)
}

/// The error with which the validation of the store fails under a mode.
pub open spec fn startup_error(mode: Mode) -> Error {
    match mode {
        Mode::Mode0 => Error::BadSecretFileMode0,
        Mode::Mode16 => Error::BadSecretFileMode16,
        Mode::Mode32 => Error::BadSecretFileMode32,
    }
}

/// Whether every file of the mode was found with its exact length. The
/// `i`-th entry of `found` is what was found of the `i`-th file; a file
/// without an entry counts as missing.
pub open spec fn all_fit(mode: Mode, found: Seq<Option<u64>>) -> bool {
    forall|i: int|
        0 <= i < file_count(mode) ==> i < found.len() && size_fits(
            required_file(mode, i),
            #[trigger] found[i],
        )
}

/// A secret store whose layout was validated at startup. There is no other
/// way to come by one, and requests are served against one: so no request
/// is served before the validation has passed.
#[derive(Clone, Copy, Debug)]
pub struct SecretStore {
    mode: Mode,
}

/// The validation of the store at startup, file by file. A value of this
/// type waits for what was found of one file of the mode.
#[derive(Debug)]
pub struct Validation {
    mode: Mode,
    index: u32,
}

/// How the validation goes on after one file.
#[derive(Debug)]
pub enum Progress {
    /// The file fits and is not the last: the next file is awaited.
    Continue(Validation),
    /// The file fits and was the last: the store is as the mode demands.
    Accepted(SecretStore),
    /// The file does not fit: the validation has failed, and no further file
    /// is looked at.
    Rejected(Error),
}

impl SecretStore {
    /// The mode under which the store was validated.
    pub closed spec fn spec_mode(&self) -> Mode {
        self.mode
    }

    /// The mode under which the store was validated.
    #[verifier::when_used_as_spec(spec_mode)]
    pub fn mode(&self) -> (mode: Mode)
        ensures
            mode == self.spec_mode(),
    {
        self.mode
    }
}

impl Validation {
    #[verifier::type_invariant]
    spec fn in_range(self) -> bool {
        self.index < file_count(self.mode)
    }

    /// The mode whose layout is validated.
    pub closed spec fn mode(self) -> Mode {
        self.mode
    }

    /// The number of the awaited file among the files of the mode.
    pub closed spec fn index(self) -> nat {
        self.index as nat
    }

    /// The awaited file.
    pub open spec fn file(self) -> SecretFile {
        required_file(self.mode(), self.index() as int)
    }

    /// Begins the validation of a mode's layout, at its first file.
    pub fn start(mode: Mode) -> (validation: Validation)
        ensures
            validation.mode() == mode,
            validation.index() == 0,
    {
        Validation { mode, index: 0 }
    }

    /// The number of the awaited file among the files of the mode.
    pub fn position(&self) -> (index: u32)
        ensures
            index == self.index(),
            index < file_count(self.mode()),
    {
        proof {
            use_type_invariant(self);
        }
        self.index
    }

    /// The awaited file.
    pub fn awaited(&self) -> (file: SecretFile)
        ensures
            file == self.file(),
    {
        proof {
            use_type_invariant(self);
        }
        nth_file(self.mode, self.index)
    }

    /// Takes what was found of the awaited file: its length, or `None`
    /// where it is missing or its length cannot be had.
    pub fn observe(self, found: Option<u64>) -> (progress: Progress)
        ensures
            match progress {
                Progress::Continue(next) => {
                    &&& size_fits(self.file(), found)
                    &&& self.index() + 1 < file_count(self.mode())
                    &&& next.mode() == self.mode()
                    &&& next.index() == self.index() + 1
                },
                Progress::Accepted(store) => {
                    &&& size_fits(self.file(), found)
                    &&& self.index() + 1 == file_count(self.mode())
                    &&& store.mode() == self.mode()
                },
                Progress::Rejected(error) => {
                    &&& !size_fits(self.file(), found)
                    &&& error == startup_error(self.mode())
                },
            },
    {
        proof {
            use_type_invariant(&self);
        }
        let file = nth_file(self.mode, self.index);
        let fits = match found {
            Some(len) => len == file.expected_len(),
            None => false,
        };
        if !fits {
            Progress::Rejected(error_of(self.mode))
        } else if self.index + 1 == count_files(self.mode) {
            Progress::Accepted(SecretStore { mode: self.mode })
        } else {
            Progress::Continue(Validation { mode: self.mode, index: self.index + 1 })
        }
    }
}

/// The error with which the validation of the store fails under a mode.
pub fn error_of(mode: Mode) -> (error: Error)
    ensures
        error == startup_error(mode),
{
    match mode {
        Mode::Mode0 => Error::BadSecretFileMode0,
        Mode::Mode16 => Error::BadSecretFileMode16,
        Mode::Mode32 => Error::BadSecretFileMode32,
    }
}

/// Validates the store at startup, given what was found of each file of the
/// mode: `found[i]` is the length of the `i`-th file, or `None` where it is
/// missing. The validation stops at the first file that does not fit.
pub fn validate(mode: Mode, found: &[Option<u64>]) -> (result: Result<SecretStore, Error>)
    ensures
        match result {
            Ok(store) => all_fit(mode, found@) && store.mode() == mode,
            Err(error) => !all_fit(mode, found@) && error == startup_error(mode),
        },
{
    let mut validation = Validation::start(mode);
    loop
        invariant
            validation.mode() == mode,
            validation.index() < file_count(mode),
            forall|i: int|
                0 <= i < validation.index() ==> i < found@.len() && size_fits(
                    required_file(mode, i),
                    #[trigger] found@[i],
                ),
        decreases file_count(mode) - validation.index(),
    {
        let at: u32 = validation.position();
        let seen: Option<u64> = if (at as usize) < found.len() {
            found[at as usize]
        } else {
            None
        };
        match validation.observe(seen) {
            Progress::Continue(next) => {
                validation = next;
            },
            Progress::Accepted(store) => {
                return Ok(store);
            },
            Progress::Rejected(error) => {
                assert(!all_fit(mode, found@)) by {
                    if all_fit(mode, found@) {
                        assert(size_fits(required_file(mode, at as int), found@[at as int]));
                    }
                }
                return Err(error);
            },
        }
    }
}

} // verus!
