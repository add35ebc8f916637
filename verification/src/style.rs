//! Stylesheets: the parsed style object lives in the host asset system and
//! is referred to by a stable identifier; the loader declares the stylesheet
//! file extension. In-session asset loading is disabled on purpose — assets
//! must come through the host pipeline — and reports a hard failure rather
//! than loading anything.

use vstd::prelude::*;

verus! {

/// A loaded stylesheet: the identifier under which the host asset system
/// holds the parsed style object. Swapping a session to this stylesheet
/// forces a full restyle.
#[derive(Clone, Copy, Debug, PartialEq, Eq, Structural)]
pub struct Stylesheet {
    style: u64,
}

impl Stylesheet {
    /// Wraps the host asset identifier of a parsed style object.
    pub fn new(style: u64) -> (s: Self)
        ensures
            s.spec_style_id() == style,
    {
        Stylesheet { style }
    }

    /// The host asset identifier of the parsed style object.
    pub closed spec fn spec_style_id(&self) -> u64 {
        self.style
    }

    /// The host asset identifier of the parsed style object.
    pub fn style_id(&self) -> (r: u64)
        ensures
            r == self.spec_style_id(),
    {
        self.style
    }
}

/// The asset loader for stylesheet files.
pub struct StylesheetLoader;

impl Default for StylesheetLoader {
    /// The loader carries no state.
    fn default() -> (r: Self) {
        StylesheetLoader
    }
}

impl StylesheetLoader {
    /// The file extension of stylesheet assets.
    pub fn extensions(&self) -> (r: &'static str)
        ensures
            r@ == "pwss"@,
    {
        "pwss"
    }
}

/// Why the in-session loader refuses to load.
#[derive(Clone, Copy, Debug, PartialEq, Eq, Structural)]
pub enum LoaderError {
    /// In-session loading is disabled; stylesheets must be loaded through
    /// the host asset system.
    Disabled,
}

/// The loader handed to the widget library's session: loading through it is
/// a misuse and fails immediately, directing the caller to the host asset
/// system instead.
pub struct DisabledLoader;

impl DisabledLoader {
    /// Always fails: in-session loading is disabled.
    pub fn load(&self, _url: &str) -> (r: Result<Vec<u8>, LoaderError>)
        ensures
            r == Result::<Vec<u8>, LoaderError>::Err(LoaderError::Disabled),
    {
        Err(LoaderError::Disabled)
    }

    /// Always fails: in-session loading is disabled.
    pub fn wait(&self, _url: &str) -> (r: Result<(), LoaderError>)
        ensures
            r == Result::<(), LoaderError>::Err(LoaderError::Disabled),
    {
        Err(LoaderError::Disabled)
    }
}

} // verus!
