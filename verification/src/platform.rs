use vstd::prelude::*;

verus! {

/// The build targets the startup code distinguishes.
///
/// The choice is made at build time, not at run time; the shell passes the
/// variant that matches its compilation target.
#[derive(Clone, Copy, PartialEq, Eq, Structural, Debug)]
pub enum Platform {
    /// A macOS desktop build.
    MacOs,
    /// A desktop build for any operating system other than macOS.
    OtherDesktop,
    /// A mobile build (iOS or Android).
    Mobile,
}

impl Platform {
    /// Desktop targets receive explicit window geometry; mobile does not.
    pub open spec fn spec_is_desktop(self) -> bool {
        self != Platform::Mobile
    }

    #[verifier::when_used_as_spec(spec_is_desktop)]
    pub fn is_desktop(self) -> (r: bool)
        ensures
            r == self.spec_is_desktop(),
    {
        match self {
            Platform::Mobile => false,
            _ => true,
        }
    }
}

} // verus!
