use vstd::prelude::*;

use crate::runtimes::common::{fetch_steps, steps_view, unpack_steps, ArchiveFormat, Config, Step};
use crate::runtimes::{download_plan, install_plan, Runtime};

verus! {

/// Where the release that is installed is published.
pub const RELEASE_URL: &'static str = "https://github.com/wasmerio/wasmer/releases/download/v4.0.0/wasmer-linux-amd64.tar.gz";

/// The file name of the downloaded artifact in the cache directory.
pub const ARTIFACT: &'static str = "wasmer.tar.gz";

/// The steps that download wasmer into its cache directory.
pub fn download(config: &Config) -> (v: Vec<Step>)
    ensures
        steps_view(v@) == download_plan(*config, Runtime::Wasmer),
{
    fetch_steps(config, Runtime::Wasmer, RELEASE_URL, ARTIFACT)
}

/// The steps that install wasmer: its cached archive is unpacked into its install
/// directory.
pub fn install(config: &Config) -> (v: Vec<Step>)
    ensures
        steps_view(v@) == install_plan(*config, Runtime::Wasmer),
{
    unpack_steps(config, Runtime::Wasmer, ARTIFACT, ArchiveFormat::TarGz)
}

} // verus!
