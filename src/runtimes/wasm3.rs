use vstd::prelude::*;

use crate::runtimes::common::{copy_steps, fetch_steps, steps_view, Config, Step};
use crate::runtimes::{download_plan, install_plan, Runtime};

verus! {

/// Where the release that is installed is published.
pub const RELEASE_URL: &'static str = "https://github.com/wasm3/wasm3/releases/download/v0.5.0/wasm3-linux-x64.elf";

/// The file name of the downloaded artifact in the cache directory.
pub const ARTIFACT: &'static str = "wasm3";

/// The steps that download wasm3 into its cache directory.
pub fn download(config: &Config) -> (v: Vec<Step>)
    ensures
        steps_view(v@) == download_plan(*config, Runtime::Wasm3),
{
    fetch_steps(config, Runtime::Wasm3, RELEASE_URL, ARTIFACT)
}

/// The steps that install wasm3: its download is the executable itself, so its
/// cache directory is merge-copied into its install directory.
pub fn install(config: &Config) -> (v: Vec<Step>)
    ensures
        steps_view(v@) == install_plan(*config, Runtime::Wasm3),
{
    copy_steps(config, Runtime::Wasm3)
}

} // verus!
