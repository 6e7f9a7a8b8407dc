use wavu::runtimes::common::{
    check_platform, config_file, join_path, root_dirs, ArchiveFormat, Config, PlatformError, Step,
};
use wavu::runtimes::{download, install, wasm3, wasmer, Runtime};

const ALL: [Runtime; 5] = [
    Runtime::Wasmer,
    Runtime::Wasmtime,
    Runtime::Wasm3,
    Runtime::Wazero,
    Runtime::Spidermonkey,
];

fn config(home: &str, cache: &str) -> Config {
    Config { home_dir: home.to_string(), cache_dir: cache.to_string() }
}

fn written(s: &Step) -> &str {
    match s {
        Step::CreateDir { path } => path,
        Step::Fetch { dest, .. } => dest,
        Step::Unpack { target, .. } => target,
        Step::CopyContents { target, .. } => target,
    }
}

fn all_written(c: &Config, r: Runtime) -> Vec<String> {
    let mut v: Vec<String> = download(c, r).iter().map(|s| written(s).to_string()).collect();
    v.extend(install(c, r).iter().map(|s| written(s).to_string()));
    v
}

#[test]
fn join_adds_one_separator() {
    assert_eq!(join_path("/home/u", ".wavu/bin/"), "/home/u/.wavu/bin/");
    assert_eq!(join_path("/home/u/", ".wavu/bin/"), "/home/u/.wavu/bin/");
    assert_eq!(join_path("", ".wavu/bin/"), ".wavu/bin/");
    assert_eq!(join_path("/", "x"), "/x");
}

#[test]
fn wasm3_download_fetches_the_executable_into_its_cache_directory() {
    let c = config("/home/u", "/home/u/.cache");
    assert_eq!(
        download(&c, Runtime::Wasm3),
        vec![
            Step::CreateDir { path: "/home/u/.cache/.wavu/runtimes/wasm3/".to_string() },
            Step::Fetch {
                url: "https://github.com/wasm3/wasm3/releases/download/v0.5.0/wasm3-linux-x64.elf"
                    .to_string(),
                dest: "/home/u/.cache/.wavu/runtimes/wasm3/wasm3".to_string(),
            },
        ]
    );
}

#[test]
fn wasm3_install_copies_the_cache_directory() {
    let c = config("/home/u", "/home/u/.cache");
    assert_eq!(
        wasm3::install(&c),
        vec![
            Step::CreateDir { path: "/home/u/.wavu/bin/wasm3/".to_string() },
            Step::CopyContents {
                source: "/home/u/.cache/.wavu/runtimes/wasm3/".to_string(),
                target: "/home/u/.wavu/bin/wasm3/".to_string(),
            },
        ]
    );
}

#[test]
fn wasmer_install_unpacks_its_tarball() {
    let c = config("/h", "/c/");
    assert_eq!(
        wasmer::install(&c),
        vec![
            Step::CreateDir { path: "/h/.wavu/bin/wasmer/".to_string() },
            Step::Unpack {
                archive: "/c/.wavu/runtimes/wasmer/wasmer.tar.gz".to_string(),
                format: ArchiveFormat::TarGz,
                target: "/h/.wavu/bin/wasmer/".to_string(),
            },
        ]
    );
}

#[test]
fn archive_formats_follow_each_release() {
    let c = config("/h", "/c");
    let format_of = |r: Runtime| {
        install(&c, r).iter().find_map(|s| match s {
            Step::Unpack { format, .. } => Some(*format),
            _ => None,
        })
    };
    assert_eq!(format_of(Runtime::Wasmer), Some(ArchiveFormat::TarGz));
    assert_eq!(format_of(Runtime::Wasmtime), Some(ArchiveFormat::TarXz));
    assert_eq!(format_of(Runtime::Wazero), Some(ArchiveFormat::TarGz));
    assert_eq!(format_of(Runtime::Spidermonkey), Some(ArchiveFormat::Zip));
    assert_eq!(format_of(Runtime::Wasm3), None);
}

#[test]
fn spidermonkey_fetches_the_zip() {
    let c = config("/h", "/c");
    match &download(&c, Runtime::Spidermonkey)[1] {
        Step::Fetch { url, dest } => {
            assert_eq!(
                url,
                "https://archive.mozilla.org/pub/firefox/releases/116.0/jsshell/jsshell-linux-x86_64.zip"
            );
            assert_eq!(dest, "/c/.wavu/runtimes/spidermonkey/spidermonkey.zip");
        }
        other => panic!("unexpected step {:?}", other),
    }
}

#[test]
fn runtimes_write_disjoint_paths() {
    let c = config("/home/u", "/home/u");
    for a in ALL {
        for b in ALL {
            if a == b {
                continue;
            }
            for p in all_written(&c, a) {
                for q in all_written(&c, b) {
                    assert!(!p.starts_with(&q) && !q.starts_with(&p), "{} / {}", p, q);
                }
            }
        }
    }
}

#[test]
fn custom_config_directs_every_write() {
    let c = config("/srv/tools", "/var/cache/tools");
    for r in ALL {
        for s in download(&c, r) {
            assert!(written(&s).starts_with("/var/cache/tools/.wavu/runtimes/"));
        }
        for s in install(&c, r) {
            assert!(written(&s).starts_with("/srv/tools/.wavu/bin/"));
        }
    }
}

#[test]
fn plans_are_the_same_on_a_second_run() {
    let c = config("/h", "/c");
    for r in ALL {
        assert_eq!(download(&c, r), download(&c, r));
        assert_eq!(install(&c, r), install(&c, r));
    }
}

#[test]
fn step_notes() {
    let c = config("/h", "/c");
    let d = download(&c, Runtime::Wazero);
    assert_eq!(d[0].note(), "Creating the target directory");
    assert_eq!(d[1].note(), "Getting the artifact");
    assert_eq!(install(&c, Runtime::Wazero)[1].note(), "Unzipping the archive");
    assert_eq!(install(&c, Runtime::Wasm3)[1].note(), "Copying the contents");
}

#[test]
fn config_file_and_roots() {
    assert_eq!(config_file("/home/u"), "/home/u/.wavu/wavu.conf.json");
    let (bin, cache) = root_dirs(&config("/home/u", "/home/u/.cache"));
    assert_eq!(bin, "/home/u/.wavu/bin/");
    assert_eq!(cache, "/home/u/.cache/.wavu/runtimes/");
}

#[test]
fn only_linux_x86_64_is_served() {
    assert_eq!(check_platform("linux", "x86_64"), Ok(()));
    assert_eq!(check_platform("macos", "x86_64"), Err(PlatformError::UnsupportedOs));
    assert_eq!(check_platform("windows", "aarch64"), Err(PlatformError::UnsupportedOs));
    assert_eq!(check_platform("linux", "aarch64"), Err(PlatformError::UnsupportedArch));
}
