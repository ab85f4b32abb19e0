use std::collections::HashMap;
use std::io::Write;

use lapce_crates::error::{ErrorKind, PluginError};
use lapce_crates::platform::{Arch, OperatingSystem};
use lapce_crates::resolver::{Resolver, Step};
use lapce_crates::version::{SelectedVersion, Version};

const BASE: &str = "file:///home/user/.local/share/lapce/plugins/crates/";

/// A stand-in for the file system and the network that records what it is asked.
struct World {
    files: HashMap<String, Vec<u8>>,
    fetched: Vec<String>,
    response: Result<Vec<u8>, String>,
    write_fails: bool,
}

impl World {
    fn new(response: Result<Vec<u8>, String>) -> World {
        World { files: HashMap::new(), fetched: Vec::new(), response, write_fails: false }
    }

    fn resolve(&mut self, resolver: &Resolver, selected: SelectedVersion) -> Result<String, PluginError> {
        let mut step = resolver.start(selected);
        for _ in 0..8 {
            step = match step {
                Step::CheckLocal { version, file_name } => {
                    let exists = self.files.contains_key(&file_name);
                    resolver.after_local_check(version, exists)
                }
                Step::Fetch { version, url } => {
                    self.fetched.push(url);
                    resolver.after_fetch(version, self.response.clone())
                }
                Step::Store { version, file_name, bytes } => {
                    let outcome = if self.write_fails {
                        Err(String::from("read-only file system"))
                    } else {
                        self.files.insert(file_name, bytes);
                        Ok(())
                    };
                    resolver.after_store(version, outcome)
                }
                Step::Resolved(locator) => return Ok(locator),
                Step::Failed(e) => return Err(e),
            };
        }
        panic!("resolution did not finish");
    }
}

fn tar_gz(name: &str, data: &[u8]) -> Vec<u8> {
    let mut builder = tar::Builder::new(Vec::new());
    let mut header = tar::Header::new_gnu();
    header.set_size(data.len() as u64);
    header.set_mode(0o755);
    header.set_cksum();
    builder.append_data(&mut header, name, data).unwrap();
    let tar = builder.into_inner().unwrap();
    let mut encoder = flate2::write::GzEncoder::new(Vec::new(), flate2::Compression::default());
    encoder.write_all(&tar).unwrap();
    encoder.finish().unwrap()
}

fn linux_resolver() -> Resolver {
    Resolver::new(Version::new(0, 0, 3), OperatingSystem::Linux, Arch::X86_64, String::from(BASE))
}

#[test]
fn latest_downloads_pinned_release() {
    let resolver = linux_resolver();
    let mut world = World::new(Ok(tar_gz("crates-lsp", b"server")));
    let selected = SelectedVersion::parse("", false).unwrap();
    assert_eq!(selected, SelectedVersion::Latest);
    let locator = world.resolve(&resolver, selected).unwrap();
    assert_eq!(
        world.fetched,
        vec![String::from(
            "https://github.com/MathiasPius/crates-lsp/releases/download/v0.0.3/crates-lsp-x86_64-unknown-linux-gnu.tar.gz"
        )]
    );
    assert_eq!(world.files.get("crates-lsp-0.0.3"), Some(&b"server".to_vec()));
    assert_eq!(locator, format!("{BASE}crates-lsp-0.0.3"));
}

#[test]
fn latest_steps_in_order() {
    let resolver = linux_resolver();
    let step = resolver.start(SelectedVersion::Latest);
    assert_eq!(
        step,
        Step::CheckLocal { version: Version::new(0, 0, 3), file_name: String::from("crates-lsp-0.0.3") }
    );
    let step = resolver.after_local_check(Version::new(0, 0, 3), false);
    assert_eq!(
        step,
        Step::Fetch {
            version: Version::new(0, 0, 3),
            url: String::from(
                "https://github.com/MathiasPius/crates-lsp/releases/download/v0.0.3/crates-lsp-x86_64-unknown-linux-gnu.tar.gz"
            ),
        }
    );
    let step = resolver.after_fetch(Version::new(0, 0, 3), Ok(tar_gz("crates-lsp", b"bin")));
    assert_eq!(
        step,
        Step::Store {
            version: Version::new(0, 0, 3),
            file_name: String::from("crates-lsp-0.0.3"),
            bytes: b"bin".to_vec(),
        }
    );
    let step = resolver.after_store(Version::new(0, 0, 3), Ok(()));
    assert_eq!(step, Step::Resolved(format!("{BASE}crates-lsp-0.0.3")));
}

#[test]
fn substituted_pinned_version() {
    let resolver = Resolver::new(
        Version::new(9, 8, 7),
        OperatingSystem::Windows,
        Arch::Aarch64,
        String::from(BASE),
    );
    let step = resolver.start(SelectedVersion::Latest);
    assert_eq!(
        step,
        Step::CheckLocal { version: Version::new(9, 8, 7), file_name: String::from("crates-lsp-9.8.7.exe") }
    );
}

#[test]
fn second_resolution_fetches_nothing() {
    let resolver = linux_resolver();
    let mut world = World::new(Ok(tar_gz("crates-lsp", b"server")));
    let version = SelectedVersion::parse("1.2.3", false).unwrap();
    let first = world.resolve(&resolver, version.clone()).unwrap();
    assert_eq!(world.fetched.len(), 1);
    let second = world.resolve(&resolver, version).unwrap();
    assert_eq!(world.fetched.len(), 1);
    assert_eq!(first, second);
    assert_eq!(first, format!("{BASE}crates-lsp-1.2.3"));
}

#[test]
fn present_file_is_not_downloaded() {
    let resolver = linux_resolver();
    let mut world = World::new(Err(String::from("no network")));
    world.files.insert(String::from("crates-lsp-0.0.3"), b"old".to_vec());
    let locator = world.resolve(&resolver, SelectedVersion::Latest).unwrap();
    assert!(world.fetched.is_empty());
    assert_eq!(locator, format!("{BASE}crates-lsp-0.0.3"));
}

#[test]
fn existing_path_resolves_without_network() {
    let resolver = linux_resolver();
    let mut world = World::new(Err(String::from("no network")));
    let selected = SelectedVersion::parse("/opt/bin/crates-lsp", true).unwrap();
    let locator = world.resolve(&resolver, selected).unwrap();
    assert!(world.fetched.is_empty());
    assert_eq!(locator, "urn:/opt/bin/crates-lsp");
}

#[test]
fn path_locator_is_normalised() {
    let resolver = linux_resolver();
    let step = resolver.start(SelectedVersion::Path(String::from("/opt/my tools/crates-lsp")));
    assert_eq!(step, Step::Resolved(String::from("urn:/opt/my%20tools/crates-lsp")));
}

#[test]
fn invalid_version_aborts_before_network() {
    let e = SelectedVersion::parse("not-a-version-or-path-!!", false).unwrap_err();
    assert_eq!(e.kind, ErrorKind::InvalidVersion);
    assert_eq!(e.detail, "not-a-version-or-path-!!");
}

#[test]
fn locator_is_returned_unchanged() {
    let resolver = linux_resolver();
    let step = resolver.start(SelectedVersion::Url(String::from("https://example.com/a b")));
    assert_eq!(step, Step::Resolved(String::from("https://example.com/a b")));
}

#[test]
fn network_failure_is_reported() {
    let resolver = linux_resolver();
    let mut world = World::new(Err(String::from("connection refused")));
    let e = world.resolve(&resolver, SelectedVersion::Latest).unwrap_err();
    assert_eq!(e, PluginError { kind: ErrorKind::NetworkFailure, detail: String::from("connection refused") });
    assert!(world.files.is_empty());
}

#[test]
fn bad_archive_writes_nothing() {
    let resolver = linux_resolver();
    let mut world = World::new(Ok(b"<html>not found</html>".to_vec()));
    let e = world.resolve(&resolver, SelectedVersion::Latest).unwrap_err();
    assert_eq!(e.kind, ErrorKind::ExtractionFailure);
    assert!(world.files.is_empty());
}

#[test]
fn failed_write_is_reported() {
    let resolver = linux_resolver();
    let mut world = World::new(Ok(tar_gz("crates-lsp", b"server")));
    world.write_fails = true;
    let e = world.resolve(&resolver, SelectedVersion::Latest).unwrap_err();
    assert_eq!(e, PluginError { kind: ErrorKind::ExtractionFailure, detail: String::from("read-only file system") });
}

#[test]
fn bad_base_uri_fails_to_locate() {
    let resolver =
        Resolver::new(Version::new(0, 0, 3), OperatingSystem::Linux, Arch::X86_64, String::from("not a uri"));
    let step = resolver.after_local_check(Version::new(0, 0, 3), true);
    assert_eq!(
        step,
        Step::Failed(PluginError {
            kind: ErrorKind::UriConstructionFailure,
            detail: String::from("crates-lsp-0.0.3"),
        })
    );
}

#[test]
fn zip_release_on_windows() {
    let resolver =
        Resolver::new(Version::new(0, 0, 3), OperatingSystem::Windows, Arch::X86_64, String::from(BASE));
    let mut writer = zip::ZipWriter::new(std::io::Cursor::new(Vec::new()));
    writer.start_file("crates-lsp.exe", zip::write::FileOptions::default()).unwrap();
    writer.write_all(b"MZ server").unwrap();
    let archive = writer.finish().unwrap().into_inner();
    let mut world = World::new(Ok(archive));
    let locator = world.resolve(&resolver, SelectedVersion::Latest).unwrap();
    assert_eq!(
        world.fetched,
        vec![String::from(
            "https://github.com/MathiasPius/crates-lsp/releases/download/v0.0.3/crates-lsp-x86_64-pc-windows-msvc.zip"
        )]
    );
    assert_eq!(world.files.get("crates-lsp-0.0.3.exe"), Some(&b"MZ server".to_vec()));
    assert_eq!(locator, format!("{BASE}crates-lsp-0.0.3.exe"));
}

#[test]
fn locator_steps() {
    let resolver = linux_resolver();
    let v = Version::new(0, 0, 3);
    assert_eq!(
        resolver.locator_step(&v, Some(String::from("file:///x/crates-lsp-0.0.3"))),
        Step::Resolved(String::from("file:///x/crates-lsp-0.0.3"))
    );
    assert_eq!(
        resolver.locator_step(&v, None),
        Step::Failed(PluginError {
            kind: ErrorKind::UriConstructionFailure,
            detail: String::from("crates-lsp-0.0.3"),
        })
    );
}
