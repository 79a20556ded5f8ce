//! Decides whether a package must be (re)installed: it reads the installed-package
//! manifest kept by the package manager, finds the entry for a named package,
//! and tests the recorded version against a semantic-version requirement.

pub mod decide;
pub mod laws;
pub mod manifest;
pub mod text;
pub mod version;

use vstd::prelude::*;

verus! {

} // verus!
