use vstd::prelude::*;

use crate::runtimes::common::{fetch_steps, steps_view, unpack_steps, ArchiveFormat, Config, Step};
use crate::runtimes::{download_plan, install_plan, Runtime};

verus! {

/// Where the release that is installed is published.
pub const RELEASE_URL: &'static str = "https://github.com/bytecodealliance/wasmtime/releases/download/v11.0.0/wasmtime-v11.0.0-x86_64-linux.tar.xz";

/// The file name of the downloaded artifact in the cache directory.
pub const ARTIFACT: &'static str = "wasmtime.tar.xz";

/// The steps that download wasmtime into its cache directory.
pub fn download(config: &Config) -> (v: Vec<Step>)
    ensures
        steps_view(v@) == download_plan(*config, Runtime::Wasmtime),
{
    fetch_steps(config, Runtime::Wasmtime, RELEASE_URL, ARTIFACT)
}

/// The steps that install wasmtime: its cached archive is unpacked into its install
/// directory.
pub fn install(config: &Config) -> (v: Vec<Step>)
    ensures
        steps_view(v@) == install_plan(*config, Runtime::Wasmtime),
{
    unpack_steps(config, Runtime::Wasmtime, ARTIFACT, ArchiveFormat::TarXz)
}

} // verus!
