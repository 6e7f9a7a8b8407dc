pub mod common;
pub mod spidermonkey;
pub mod wasm3;
pub mod wasmer;
pub mod wasmtime;
pub mod wazero;

use vstd::prelude::*;

use crate::runtimes::common::{
    copy_plan, fetch_plan, steps_view, unpack_plan, ArchiveFormat, Config, Step, StepView,
};

verus! {

/// The runtimes this installer knows how to fetch and install.
#[derive(Clone, Copy, Debug, PartialEq, Eq, Structural)]
pub enum Runtime {
    Wasmer,
    Wasmtime,
    Wasm3,
    Wazero,
    Spidermonkey,
}

/// The name under which a runtime is requested, and the name of its
/// subdirectories in the cache and install trees.
pub open spec fn runtime_name(r: Runtime) -> Seq<char> {
    match r {
        Runtime::Wasmer => seq!['w', 'a', 's', 'm', 'e', 'r'],
        Runtime::Wasmtime => seq!['w', 'a', 's', 'm', 't', 'i', 'm', 'e'],
        Runtime::Wasm3 => seq!['w', 'a', 's', 'm', '3'],
        Runtime::Wazero => seq!['w', 'a', 'z', 'e', 'r', 'o'],
        Runtime::Spidermonkey => seq!['s', 'p', 'i', 'd', 'e', 'r', 'm', 'o', 'n', 'k', 'e', 'y'],
    }
}

/// The runtime requested by `s`, if `s` is one of the known names.
pub open spec fn runtime_named(s: Seq<char>) -> Option<Runtime> {
    if s == runtime_name(Runtime::Wasmer) {
        Some(Runtime::Wasmer)
    } else if s == runtime_name(Runtime::Wasmtime) {
        Some(Runtime::Wasmtime)
    } else if s == runtime_name(Runtime::Wasm3) {
        Some(Runtime::Wasm3)
    } else if s == runtime_name(Runtime::Wazero) {
        Some(Runtime::Wazero)
    } else if s == runtime_name(Runtime::Spidermonkey) {
        Some(Runtime::Spidermonkey)
    } else {
        None
    }
}

/// The texts of a sequence of strings.
pub open spec fn texts(v: Seq<String>) -> Seq<Seq<char>> {
    v.map_values(|s: String| s@)
}

/// The runtimes that `names` request, each once, in the order of their first
/// request. Unknown names contribute nothing.
pub open spec fn resolved(names: Seq<Seq<char>>) -> Seq<Runtime>
    decreases names.len(),
{
    if names.len() == 0 {
        seq![]
    } else {
        let prev = resolved(names.drop_last());
        match runtime_named(names.last()) {
            Some(r) => if prev.contains(r) {
                prev
            } else {
                prev.push(r)
            },
            None => prev,
        }
    }
}

/// `k` is the position of the first name in `names` that is not known.
pub open spec fn first_unknown_at(names: Seq<Seq<char>>, k: int) -> bool {
    &&& 0 <= k < names.len()
    &&& runtime_named(names[k]) is None
    &&& forall|j: int| 0 <= j < k ==> runtime_named(#[trigger] names[j]) is Some
}

/// Every name in `names` is known.
pub open spec fn all_known(names: Seq<Seq<char>>) -> bool {
    forall|i: int| 0 <= i < names.len() ==> runtime_named(#[trigger] names[i]) is Some
}

/// A requested name that names no known runtime.
#[derive(Clone, Debug, PartialEq, Eq)]
pub struct ResolutionError {
    pub name: String,
}

/// Whether two strings hold the same characters.
pub fn same_text(a: &str, b: &str) -> (r: bool)
    ensures
        r == (a@ == b@),
{
    let n = a.unicode_len();
    let m = b.unicode_len();
    if n != m {
        return false;
    }
    let mut i: usize = 0;
    while i < n
        invariant
            n == a@.len(),
            m == b@.len(),
            n == m,
            i <= n,
            a@.subrange(0, i as int) == b@.subrange(0, i as int),
        decreases n - i,
    {
        if a.get_char(i) != b.get_char(i) {
            return false;
        }
        assert(a@.subrange(0, i + 1) =~= a@.subrange(0, i as int).push(a@[i as int]));
        assert(b@.subrange(0, i + 1) =~= b@.subrange(0, i as int).push(b@[i as int]));
        i += 1;
    }
    assert(a@ =~= a@.subrange(0, n as int));
    assert(b@ =~= b@.subrange(0, n as int));
    true
}

impl Runtime {
    /// The runtime's name.
    pub fn name(&self) -> (r: &'static str)
        ensures
            r@ == runtime_name(*self),
    {
        match self {
            Runtime::Wasmer => {
                proof {
                    reveal_strlit("wasmer");
                }
                let s = "wasmer";
                assert(s@ =~= runtime_name(*self));
                s
            },
            Runtime::Wasmtime => {
                proof {
                    reveal_strlit("wasmtime");
                }
                let s = "wasmtime";
                assert(s@ =~= runtime_name(*self));
                s
            },
            Runtime::Wasm3 => {
                proof {
                    reveal_strlit("wasm3");
                }
                let s = "wasm3";
                assert(s@ =~= runtime_name(*self));
                s
            },
            Runtime::Wazero => {
                proof {
                    reveal_strlit("wazero");
                }
                let s = "wazero";
                assert(s@ =~= runtime_name(*self));
                s
            },
            Runtime::Spidermonkey => {
                proof {
                    reveal_strlit("spidermonkey");
                }
                let s = "spidermonkey";
                assert(s@ =~= runtime_name(*self));
                s
            },
        }
    }

    /// The runtime that `s` names, if any.
    pub fn from_name(s: &str) -> (r: Option<Runtime>)
        ensures
            r == runtime_named(s@),
    {
        if same_text(s, Runtime::Wasmer.name()) {
            Some(Runtime::Wasmer)
        } else if same_text(s, Runtime::Wasmtime.name()) {
            Some(Runtime::Wasmtime)
        } else if same_text(s, Runtime::Wasm3.name()) {
            Some(Runtime::Wasm3)
        } else if same_text(s, Runtime::Wazero.name()) {
            Some(Runtime::Wazero)
        } else if same_text(s, Runtime::Spidermonkey.name()) {
            Some(Runtime::Spidermonkey)
        } else {
            None
        }
    }
}

/// Whether `v` holds `r`.
fn holds_runtime(v: &Vec<Runtime>, r: Runtime) -> (b: bool)
    ensures
        b == v@.contains(r),
{
    let mut i: usize = 0;
    while i < v.len()
        invariant
            i <= v@.len(),
            forall|j: int| 0 <= j < i ==> v@[j] != r,
        decreases v.len() - i,
    {
        if v[i] == r {
            return true;
        }
        i += 1;
    }
    false
}

/// Resolves the requested names against the known runtimes. Fails on the
/// first unknown name, before anything is done for any runtime; otherwise
/// gives each requested runtime once, in the order of its first request.
pub fn resolve(names: &Vec<String>) -> (r: Result<Vec<Runtime>, ResolutionError>)
    ensures
        r is Ok <==> all_known(texts(names@)),
        r matches Ok(rs) ==> rs@ == resolved(texts(names@)),
        r matches Err(e) ==> exists|k: int|
            first_unknown_at(texts(names@), k) && e.name@ == texts(names@)[k],
{
    let ghost t = texts(names@);
    let mut out: Vec<Runtime> = Vec::new();
    let mut i: usize = 0;
    while i < names.len()
        invariant
            t == texts(names@),
            i <= names@.len(),
            forall|j: int| 0 <= j < i ==> runtime_named(#[trigger] t[j]) is Some,
            out@ == resolved(t.take(i as int)),
        decreases names.len() - i,
    {
        let s = names[i].as_str();
        assert(t.take(i + 1).drop_last() =~= t.take(i as int));
        match Runtime::from_name(s) {
            None => {
                assert(first_unknown_at(t, i as int));
                return Err(ResolutionError { name: names[i].clone() });
            },
            Some(rt) => {
                if !holds_runtime(&out, rt) {
                    out.push(rt);
                }
            },
        }
        i += 1;
    }
    assert(t.take(i as int) =~= t);
    Ok(out)
}

/// A known name names the runtime it resolves to.
pub proof fn lemma_named_runtime(s: Seq<char>)
    requires
        runtime_named(s) is Some,
    ensures
        runtime_name(runtime_named(s).unwrap()) == s,
{
}

/// Resolving distinct known names gives back one runtime per name, in the
/// order of the request.
pub proof fn lemma_resolved_names(names: Seq<Seq<char>>)
    requires
        names.no_duplicates(),
        all_known(names),
    ensures
        resolved(names).len() == names.len(),
        forall|i: int|
            0 <= i < names.len() ==> runtime_name(#[trigger] resolved(names)[i]) == names[i],
    decreases names.len(),
{
    if names.len() > 0 {
        let prev_names = names.drop_last();
        assert(prev_names.no_duplicates());
        assert(all_known(prev_names)) by {
            assert forall|i: int| 0 <= i < prev_names.len() implies runtime_named(
                #[trigger] prev_names[i],
            ) is Some by {
                assert(prev_names[i] == names[i]);
            }
        }
        lemma_resolved_names(prev_names);
        let prev = resolved(prev_names);
        let last = names.last();
        assert(runtime_named(names[names.len() - 1]) is Some);
        let r = runtime_named(last).unwrap();
        lemma_named_runtime(last);
        if prev.contains(r) {
            let k = choose|k: int| 0 <= k < prev.len() && prev[k] == r;
            assert(runtime_name(prev[k]) == prev_names[k]);
            assert(names[k] == names[names.len() - 1]);
        }
    }
}

/// Where the release of a runtime is published.
pub open spec fn release_url(r: Runtime) -> Seq<char> {
    match r {
        Runtime::Wasmer => wasmer::RELEASE_URL@,
        Runtime::Wasmtime => wasmtime::RELEASE_URL@,
        Runtime::Wasm3 => wasm3::RELEASE_URL@,
        Runtime::Wazero => wazero::RELEASE_URL@,
        Runtime::Spidermonkey => spidermonkey::RELEASE_URL@,
    }
}

/// The file name of a runtime's artifact in its cache directory.
pub open spec fn artifact_name(r: Runtime) -> Seq<char> {
    match r {
        Runtime::Wasmer => wasmer::ARTIFACT@,
        Runtime::Wasmtime => wasmtime::ARTIFACT@,
        Runtime::Wasm3 => wasm3::ARTIFACT@,
        Runtime::Wazero => wazero::ARTIFACT@,
        Runtime::Spidermonkey => spidermonkey::ARTIFACT@,
    }
}

/// How a runtime's artifact is packed; `None` where it is the executable itself.
pub open spec fn archive_format(r: Runtime) -> Option<ArchiveFormat> {
    match r {
        Runtime::Wasmer => Some(ArchiveFormat::TarGz),
        Runtime::Wasmtime => Some(ArchiveFormat::TarXz),
        Runtime::Wasm3 => None,
        Runtime::Wazero => Some(ArchiveFormat::TarGz),
        Runtime::Spidermonkey => Some(ArchiveFormat::Zip),
    }
}

/// What the download of a runtime does.
pub open spec fn download_plan(c: Config, r: Runtime) -> Seq<StepView> {
    fetch_plan(c, r, release_url(r), artifact_name(r))
}

/// What the install of a runtime does.
pub open spec fn install_plan(c: Config, r: Runtime) -> Seq<StepView> {
    match archive_format(r) {
        Some(f) => unpack_plan(c, r, artifact_name(r), f),
        None => copy_plan(c, r),
    }
}

/// The steps that download a runtime into its cache directory.
pub fn download(config: &Config, r: Runtime) -> (v: Vec<Step>)
    ensures
        steps_view(v@) == download_plan(*config, r),
{
    match r {
        Runtime::Wasmer => wasmer::download(config),
        Runtime::Wasmtime => wasmtime::download(config),
        Runtime::Wasm3 => wasm3::download(config),
        Runtime::Wazero => wazero::download(config),
        Runtime::Spidermonkey => spidermonkey::download(config),
    }
}

/// The steps that install a runtime from its cache directory.
pub fn install(config: &Config, r: Runtime) -> (v: Vec<Step>)
    ensures
        steps_view(v@) == install_plan(*config, r),
{
    match r {
        Runtime::Wasmer => wasmer::install(config),
        Runtime::Wasmtime => wasmtime::install(config),
        Runtime::Wasm3 => wasm3::install(config),
        Runtime::Wazero => wazero::install(config),
        Runtime::Spidermonkey => spidermonkey::install(config),
    }
}

} // verus!
