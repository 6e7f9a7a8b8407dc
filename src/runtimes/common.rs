use vstd::prelude::*;

use crate::runtimes::{runtime_name, Runtime};

verus! {

/// The command line: the runtimes to install.
#[derive(Clone, Debug, PartialEq, Eq)]
pub struct Cli {
    /// Runtimes to install
    pub runtimes: Vec<String>,
}

/// Where the tool keeps its installed runtimes and its download cache.
#[derive(Clone, Debug, PartialEq, Eq)]
pub struct Config {
    /// Where `.wavu` should reside
    pub home_dir: String,
    /// Where wavu should keep its caches
    pub cache_dir: String,
}

/// How a downloaded artifact is packed.
#[derive(Clone, Copy, Debug, PartialEq, Eq, Structural)]
pub enum ArchiveFormat {
    TarGz,
    TarXz,
    Zip,
}

/// One filesystem or network action of a download or install step.
#[derive(Clone, Debug, PartialEq, Eq)]
pub enum Step {
    /// Create a directory and its missing parents.
    CreateDir { path: String },
    /// Fetch `url` and store its body at `dest`, replacing any file there.
    Fetch { url: String, dest: String },
    /// Unpack the archive at `archive` into the directory `target`.
    Unpack { archive: String, format: ArchiveFormat, target: String },
    /// Merge-copy the contents of `source` into `target`, overwriting.
    CopyContents { source: String, target: String },
}

/// A step with its paths as character sequences.
pub enum StepView {
    CreateDir(Seq<char>),
    Fetch(Seq<char>, Seq<char>),
    Unpack(Seq<char>, ArchiveFormat, Seq<char>),
    CopyContents(Seq<char>, Seq<char>),
}

impl View for Step {
    type V = StepView;

    open spec fn view(&self) -> StepView {
        match self {
            Step::CreateDir { path } => StepView::CreateDir(path@),
            Step::Fetch { url, dest } => StepView::Fetch(url@, dest@),
            Step::Unpack { archive, format, target } => StepView::Unpack(
                archive@,
                *format,
                target@,
            ),
            Step::CopyContents { source, target } => StepView::CopyContents(source@, target@),
        }
    }
}

/// The views of a sequence of steps.
pub open spec fn steps_view(v: Seq<Step>) -> Seq<StepView> {
    v.map_values(|s: Step| s@)
}

/// The path that a step writes: the file it creates, or the directory whose
/// tree it creates or fills.
pub open spec fn written(s: StepView) -> Seq<char> {
    match s {
        StepView::CreateDir(p) => p,
        StepView::Fetch(_, dest) => dest,
        StepView::Unpack(_, _, target) => target,
        StepView::CopyContents(_, target) => target,
    }
}

/// The directory form of `base`: `base` itself when it is empty or already
/// ends with a separator, else `base` followed by one separator.
pub open spec fn dir_of(base: Seq<char>) -> Seq<char> {
    if base.len() == 0 || base.last() == '/' {
        base
    } else {
        base.push('/')
    }
}

/// `rel` placed under `base`, as `Path::join` places a relative path.
pub open spec fn joined(base: Seq<char>, rel: Seq<char>) -> Seq<char> {
    dir_of(base) + rel
}

/// The cache directory of a runtime: `<cache_dir>/.wavu/runtimes/<name>/`.
pub open spec fn cache_dir_of(c: Config, r: Runtime) -> Seq<char> {
    joined(c.cache_dir@, ".wavu/runtimes/"@ + runtime_name(r) + seq!['/'])
}

/// The install directory of a runtime: `<home_dir>/.wavu/bin/<name>/`.
pub open spec fn install_dir_of(c: Config, r: Runtime) -> Seq<char> {
    joined(c.home_dir@, ".wavu/bin/"@ + runtime_name(r) + seq!['/'])
}

/// The download of a runtime: create its cache directory, then fetch `url`
/// into the file `artifact` there.
pub open spec fn fetch_plan(c: Config, r: Runtime, url: Seq<char>, artifact: Seq<char>) -> Seq<
    StepView,
> {
    seq![
        StepView::CreateDir(cache_dir_of(c, r)),
        StepView::Fetch(url, cache_dir_of(c, r) + artifact),
    ]
}

/// The install of a runtime whose artifact is an archive: create its install
/// directory, then unpack the cached archive into it.
pub open spec fn unpack_plan(c: Config, r: Runtime, artifact: Seq<char>, f: ArchiveFormat) -> Seq<
    StepView,
> {
    seq![
        StepView::CreateDir(install_dir_of(c, r)),
        StepView::Unpack(cache_dir_of(c, r) + artifact, f, install_dir_of(c, r)),
    ]
}

/// The install of a runtime whose artifact is the executable itself: create
/// its install directory, then merge-copy its cache directory into it.
pub open spec fn copy_plan(c: Config, r: Runtime) -> Seq<StepView> {
    seq![
        StepView::CreateDir(install_dir_of(c, r)),
        StepView::CopyContents(cache_dir_of(c, r), install_dir_of(c, r)),
    ]
}

/// Joins a relative path onto a base directory.
pub fn join_path(base: &str, rel: &str) -> (r: String)
    ensures
        r@ == joined(base@, rel@),
{
    let n = base.unicode_len();
    let mut out = base.to_owned();
    if n > 0 && base.get_char(n - 1) != '/' {
        out.append("/");
        proof {
            reveal_strlit("/");
            assert("/"@ =~= seq!['/']);
        }
    }
    out.append(rel);
    proof {
        assert(out@ =~= joined(base@, rel@));
    }
    out
}

/// `prefix`, then the runtime's name, then a separator.
fn runtime_subdir(prefix: &str, r: Runtime) -> (s: String)
    ensures
        s@ == prefix@ + runtime_name(r) + seq!['/'],
{
    let mut s = prefix.to_owned();
    s.append(r.name());
    s.append("/");
    proof {
        reveal_strlit("/");
        assert("/"@ =~= seq!['/']);
    }
    s
}

/// The cache directory of a runtime.
pub fn cache_dir(config: &Config, r: Runtime) -> (s: String)
    ensures
        s@ == cache_dir_of(*config, r),
{
    let rel = runtime_subdir(".wavu/runtimes/", r);
    join_path(config.cache_dir.as_str(), rel.as_str())
}

/// The install directory of a runtime.
pub fn install_dir(config: &Config, r: Runtime) -> (s: String)
    ensures
        s@ == install_dir_of(*config, r),
{
    let rel = runtime_subdir(".wavu/bin/", r);
    join_path(config.home_dir.as_str(), rel.as_str())
}

/// The steps that download a runtime's artifact from `url` into its cache
/// directory, under the file name `artifact`.
pub fn fetch_steps(config: &Config, r: Runtime, url: &str, artifact: &str) -> (v: Vec<Step>)
    ensures
        steps_view(v@) == fetch_plan(*config, r, url@, artifact@),
{
    let dir = cache_dir(config, r);
    let mut dest = dir.clone();
    dest.append(artifact);
    let v = vec![Step::CreateDir { path: dir }, Step::Fetch { url: url.to_owned(), dest }];
    assert(steps_view(v@) =~= fetch_plan(*config, r, url@, artifact@));
    v
}

/// The steps that unpack a runtime's cached archive into its install
/// directory.
pub fn unpack_steps(config: &Config, r: Runtime, artifact: &str, format: ArchiveFormat) -> (v: Vec<
    Step,
>)
    ensures
        steps_view(v@) == unpack_plan(*config, r, artifact@, format),
{
    let mut archive = cache_dir(config, r);
    archive.append(artifact);
    let target = install_dir(config, r);
    let v = vec![
        Step::CreateDir { path: target.clone() },
        Step::Unpack { archive, format, target },
    ];
    assert(steps_view(v@) =~= unpack_plan(*config, r, artifact@, format));
    v
}

/// The steps that merge-copy a runtime's cache directory into its install
/// directory.
pub fn copy_steps(config: &Config, r: Runtime) -> (v: Vec<Step>)
    ensures
        steps_view(v@) == copy_plan(*config, r),
{
    let source = cache_dir(config, r);
    let target = install_dir(config, r);
    let v = vec![
        Step::CreateDir { path: target.clone() },
        Step::CopyContents { source, target },
    ];
    assert(steps_view(v@) =~= copy_plan(*config, r));
    v
}

/// The progress note shown while a step runs.
pub open spec fn step_note(s: StepView) -> Seq<char> {
    match s {
        StepView::CreateDir(_) => "Creating the target directory"@,
        StepView::Fetch(_, _) => "Getting the artifact"@,
        StepView::Unpack(_, _, _) => "Unzipping the archive"@,
        StepView::CopyContents(_, _) => "Copying the contents"@,
    }
}

impl Step {
    /// The progress note shown while the step runs.
    pub fn note(&self) -> (s: &'static str)
        ensures
            s@ == step_note(self@),
    {
        match self {
            Step::CreateDir { .. } => "Creating the target directory",
            Step::Fetch { .. } => "Getting the artifact",
            Step::Unpack { .. } => "Unzipping the archive",
            Step::CopyContents { .. } => "Copying the contents",
        }
    }
}

/// The configuration file: `<home>/.wavu/wavu.conf.json`.
pub fn config_file(home: &str) -> (s: String)
    ensures
        s@ == joined(home@, ".wavu/wavu.conf.json"@),
{
    join_path(home, ".wavu/wavu.conf.json")
}

/// The roots of the install tree and of the cache tree, which are created
/// before any runtime is processed: `<home_dir>/.wavu/bin/` and
/// `<cache_dir>/.wavu/runtimes/`.
pub fn root_dirs(config: &Config) -> (r: (String, String))
    ensures
        r.0@ == joined(config.home_dir@, ".wavu/bin/"@),
        r.1@ == joined(config.cache_dir@, ".wavu/runtimes/"@),
{
    (
        join_path(config.home_dir.as_str(), ".wavu/bin/"),
        join_path(config.cache_dir.as_str(), ".wavu/runtimes/"),
    )
}

/// Why the machine cannot be served.
#[derive(Clone, Copy, Debug, PartialEq, Eq, Structural)]
pub enum PlatformError {
    /// The operating system is not Linux.
    UnsupportedOs,
    /// The architecture is not x86-64.
    UnsupportedArch,
}

/// Accepts the one platform whose release artifacts are listed: Linux on
/// x86-64.
pub fn check_platform(os: &str, arch: &str) -> (r: Result<(), PlatformError>)
    ensures
        r is Ok <==> os@ == "linux"@ && arch@ == "x86_64"@,
        r == Err::<(), PlatformError>(PlatformError::UnsupportedOs) <==> os@ != "linux"@,
        r == Err::<(), PlatformError>(PlatformError::UnsupportedArch) <==> os@ == "linux"@
            && arch@ != "x86_64"@,
{
    if !crate::runtimes::same_text(os, "linux") {
        Err(PlatformError::UnsupportedOs)
    } else if !crate::runtimes::same_text(arch, "x86_64") {
        Err(PlatformError::UnsupportedArch)
    } else {
        Ok(())
    }
}

} // verus!
