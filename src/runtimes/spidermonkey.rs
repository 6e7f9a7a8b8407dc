use vstd::prelude::*;

use crate::runtimes::common::{fetch_steps, steps_view, unpack_steps, ArchiveFormat, Config, Step};
use crate::runtimes::{download_plan, install_plan, Runtime};

verus! {

/// Where the release that is installed is published.
pub const RELEASE_URL: &'static str = "https://archive.mozilla.org/pub/firefox/releases/116.0/jsshell/jsshell-linux-x86_64.zip";

/// The file name of the downloaded artifact in the cache directory.
pub const ARTIFACT: &'static str = "spidermonkey.zip";

/// The steps that download spidermonkey into its cache directory.
pub fn download(config: &Config) -> (v: Vec<Step>)
    ensures
        steps_view(v@) == download_plan(*config, Runtime::Spidermonkey),
{
    fetch_steps(config, Runtime::Spidermonkey, RELEASE_URL, ARTIFACT)
}

/// The steps that install spidermonkey: its cached archive is unpacked into its install
/// directory.
pub fn install(config: &Config) -> (v: Vec<Step>)
    ensures
        steps_view(v@) == install_plan(*config, Runtime::Spidermonkey),
{
    unpack_steps(config, Runtime::Spidermonkey, ARTIFACT, ArchiveFormat::Zip)
}

} // verus!
