use vstd::prelude::*;

use crate::runtimes::common::{fetch_steps, steps_view, unpack_steps, ArchiveFormat, Config, Step};
use crate::runtimes::{download_plan, install_plan, Runtime};

verus! {

/// Where the release that is installed is published.
pub const RELEASE_URL: &'static str = "https://github.com/tetratelabs/wazero/releases/download/v1.3.0/wazero_1.3.0_linux_amd64.tar.gz";

/// The file name of the downloaded artifact in the cache directory.
pub const ARTIFACT: &'static str = "wazero.tar.gz";

/// The steps that download wazero into its cache directory.
pub fn download(config: &Config) -> (v: Vec<Step>)
    ensures
        steps_view(v@) == download_plan(*config, Runtime::Wazero),
{
    fetch_steps(config, Runtime::Wazero, RELEASE_URL, ARTIFACT)
}

/// The steps that install wazero: its cached archive is unpacked into its install
/// directory.
pub fn install(config: &Config) -> (v: Vec<Step>)
    ensures
        steps_view(v@) == install_plan(*config, Runtime::Wazero),
{
    unpack_steps(config, Runtime::Wazero, ARTIFACT, ArchiveFormat::TarGz)
}

} // verus!
