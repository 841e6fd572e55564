//! The tool's configuration. Reading it from disk is the caller's work; the
//! library sees only the resulting values.

use vstd::prelude::*;

verus! {

/// The configuration the tool runs under: the path of the ebook library's
/// root directory.
#[derive(Debug, Clone)]
pub struct Config {
    pub library: String,
}

/// Mathematical model of a [`Config`].
pub ghost struct ConfigView {
    pub library: Seq<char>,
}

impl View for Config {
    type V = ConfigView;

    open spec fn view(&self) -> ConfigView {
        ConfigView { library: self.library@ }
    }
}

impl DeepView for Config {
    type V = ConfigView;

    open spec fn deep_view(&self) -> ConfigView {
        self@
    }
}

impl Config {
    pub fn new(library: String) -> (r: Config)
        ensures
            r@.library == library@,
    {
        Config { library }
    }
}

} // verus!
