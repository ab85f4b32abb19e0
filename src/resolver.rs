use vstd::prelude::*;

use crate::archive::{extract_executable, extracted};
use crate::error::{ErrorKind, PluginError};
use crate::platform::{format_for, Arch, OperatingSystem};
use crate::release::{download_url, executable_file_name, local_file_name, release_url};
use crate::version::{SelectedVersion, Version, VersionModel};

verus! {

/// The serialisation of `rel` resolved against the absolute URL `base`, as the `url` crate
/// computes it; `None` where `base` is no URL or the join fails.
pub uninterp spec fn url_joined(base: Seq<char>, rel: Seq<char>) -> Option<Seq<char>>;

/// The serialisation of `s` parsed as an absolute URL by the `url` crate; `None` where it is
/// not one.
pub uninterp spec fn url_parsed(s: Seq<char>) -> Option<Seq<char>>;

/// Relies on url::Url::parse of `base` and Url::join: `rel` resolved against `base`, in its
/// serialised form; the outcome depends on the two texts alone.
#[verifier::external_body]
fn join_url(base: &str, rel: &str) -> (r: Option<String>)
    ensures
        r is Some <==> url_joined(base@, rel@) is Some,
        r is Some ==> r->0@ == url_joined(base@, rel@)->0,
{
    url::Url::parse(base).and_then(|b| b.join(rel)).ok().map(String::from)
}

/// Relies on url::Url::parse: the serialised form of the parsed URL; the outcome depends on
/// the text alone.
#[verifier::external_body]
fn parse_url(s: &str) -> (r: Option<String>)
    ensures
        r is Some <==> url_parsed(s@) is Some,
        r is Some ==> r->0@ == url_parsed(s@)->0,
{
    url::Url::parse(s).ok().map(String::from)
}

/// Cap on the transitions that `start` follows (it needs at most two), and on the steps of a
/// caller's resolution loop.
pub const MAX_TRANSITIONS: usize = 8;

/// A selected version as plain values.
pub enum SelectionModel {
    Latest,
    Specific(VersionModel),
    Path(Seq<char>),
    Url(Seq<char>),
}

impl View for SelectedVersion {
    type V = SelectionModel;

    open spec fn view(&self) -> SelectionModel {
        match self {
            SelectedVersion::Latest => SelectionModel::Latest,
            SelectedVersion::Specific(v) => SelectionModel::Specific(v@),
            SelectedVersion::Path(p) => SelectionModel::Path(p@),
            SelectedVersion::Url(u) => SelectionModel::Url(u@),
        }
    }
}

/// What resolution asks of its caller next, or how it ended.
#[derive(Debug, Clone, PartialEq, Eq)]
pub enum Step {
    /// Report whether a file of this name exists, through `after_local_check`.
    CheckLocal { version: Version, file_name: String },
    /// Download this address, and hand the response body to `after_fetch`.
    Fetch { version: Version, url: String },
    /// Write these bytes to a new file of this name, and report through `after_store`.
    Store { version: Version, file_name: String, bytes: Vec<u8> },
    /// The locator of the executable.
    Resolved(String),
    /// Resolution failed.
    Failed(PluginError),
}

/// A step as plain values.
pub enum StepModel {
    CheckLocal { version: VersionModel, file_name: Seq<char> },
    Fetch { version: VersionModel, url: Seq<char> },
    Store { version: VersionModel, file_name: Seq<char>, bytes: Seq<u8> },
    Resolved(Seq<char>),
    Failed((ErrorKind, Seq<char>)),
}

impl View for Step {
    type V = StepModel;

    open spec fn view(&self) -> StepModel {
        match self {
            Step::CheckLocal { version, file_name } => StepModel::CheckLocal {
                version: version@,
                file_name: file_name@,
            },
            Step::Fetch { version, url } => StepModel::Fetch { version: version@, url: url@ },
            Step::Store { version, file_name, bytes } => StepModel::Store {
                version: version@,
                file_name: file_name@,
                bytes: bytes@,
            },
            Step::Resolved(u) => StepModel::Resolved(u@),
            Step::Failed(e) => StepModel::Failed(e@),
        }
    }
}

/// The decisions of resolution, for one platform, one pinned newest release, and the base URI
/// of the plugin's installation, against which downloaded executables are located.
pub struct Resolver {
    pub pinned: Version,
    pub os: OperatingSystem,
    pub arch: Arch,
    pub base_uri: String,
}

impl Resolver {
    /// The locator of a version's local executable, or why it cannot be formed.
    pub open spec fn located(&self, v: VersionModel) -> StepModel {
        let name = local_file_name(self.os, v);
        match url_joined(self.base_uri@, name) {
            Some(u) => StepModel::Resolved(u),
            None => StepModel::Failed((ErrorKind::UriConstructionFailure, name)),
        }
    }

    /// The first step for a selected version.
    pub open spec fn start_outcome(&self, sel: SelectionModel) -> StepModel {
        match sel {
            SelectionModel::Latest => StepModel::CheckLocal {
                version: self.pinned@,
                file_name: local_file_name(self.os, self.pinned@),
            },
            SelectionModel::Specific(v) => StepModel::CheckLocal {
                version: v,
                file_name: local_file_name(self.os, v),
            },
            SelectionModel::Path(p) => match url_parsed("urn:"@ + p) {
                Some(u) => StepModel::Resolved(u),
                None => StepModel::Failed((ErrorKind::UriConstructionFailure, p)),
            },
            SelectionModel::Url(u) => StepModel::Resolved(u),
        }
    }

    /// The step after learning whether a version's executable is already present.
    pub open spec fn local_check_outcome(&self, v: VersionModel, exists: bool) -> StepModel {
        if exists {
            self.located(v)
        } else {
            StepModel::Fetch { version: v, url: download_url(self.os, self.arch, v) }
        }
    }

    /// The step after unpacking a version's archive.
    pub open spec fn extraction_outcome(
        &self,
        v: VersionModel,
        unpacked: Result<Seq<u8>, (ErrorKind, Seq<char>)>,
    ) -> StepModel {
        match unpacked {
            Ok(bytes) => StepModel::Store {
                version: v,
                file_name: local_file_name(self.os, v),
                bytes,
            },
            Err(e) => StepModel::Failed(e),
        }
    }

    /// The step after storing a version's executable.
    pub open spec fn store_outcome(&self, v: VersionModel, outcome: Result<(), Seq<char>>) -> StepModel {
        match outcome {
            Ok(()) => self.located(v),
            Err(m) => StepModel::Failed((ErrorKind::ExtractionFailure, m)),
        }
    }

    pub fn new(pinned: Version, os: OperatingSystem, arch: Arch, base_uri: String) -> (r: Resolver)
        ensures
            r.pinned@ == pinned@,
            r.os == os,
            r.arch == arch,
            r.base_uri@ == base_uri@,
    {
        Resolver { pinned, os, arch, base_uri }
    }

    /// The step that a version's local executable leads to, given `joined`: its file name
    /// resolved against the base URI, or `None` where that failed.
    pub fn locator_step(&self, version: &Version, joined: Option<String>) -> (r: Step)
        ensures
            joined is Some ==> r@ == StepModel::Resolved(joined->0@),
            joined is None ==> r@ == StepModel::Failed(
                (ErrorKind::UriConstructionFailure, local_file_name(self.os, version@)),
            ),
    {
        match joined {
            Some(u) => Step::Resolved(u),
            None => Step::Failed(
                PluginError::new(
                    ErrorKind::UriConstructionFailure,
                    executable_file_name(self.os, version),
                ),
            ),
        }
    }

    fn locate(&self, version: &Version) -> (r: Step)
        ensures
            r@ == self.located(version@),
    {
        let name = executable_file_name(self.os, version);
        self.locator_step(version, join_url(self.base_uri.as_str(), name.as_str()))
    }

    /// Follows the selected version through the transitions that need nothing from outside:
    /// `Latest` becomes the pinned release, a path becomes a `urn:` locator, and a locator is
    /// the result. A release ends in a request to check for its local executable.
    pub fn start(&self, selected: SelectedVersion) -> (r: Step)
        ensures
            r@ == self.start_outcome(selected@),
    {
        let ghost goal = self.start_outcome(selected@);
        let mut current = selected;
        let mut transitions: usize = 0;
        while transitions < MAX_TRANSITIONS
            invariant
                goal == self.start_outcome(selected@),
                self.start_outcome(current@) == goal,
                transitions + (if current@ is Latest || current@ is Path { 1int } else { 0int }) <= 1,
            decreases MAX_TRANSITIONS - transitions,
        {
            current = match current {
                SelectedVersion::Latest => SelectedVersion::Specific(self.pinned.duplicate()),
                SelectedVersion::Specific(v) => {
                    let file_name = executable_file_name(self.os, &v);
                    return Step::CheckLocal { version: v, file_name };
                },
                SelectedVersion::Path(p) => {
                    let mut urn = String::from_str("urn:");
                    urn.append(p.as_str());
                    match parse_url(urn.as_str()) {
                        Some(u) => SelectedVersion::Url(u),
                        None => {
                            return Step::Failed(
                                PluginError::new(ErrorKind::UriConstructionFailure, p),
                            );
                        },
                    }
                },
                SelectedVersion::Url(u) => {
                    return Step::Resolved(u);
                },
            };
            transitions = transitions + 1;
        }
        // The invariant keeps the transitions below the cap, so the loop never runs out.
        proof {
            assert(false);
        }
        Step::Failed(PluginError::new(ErrorKind::UriConstructionFailure, String::new()))
    }

    /// Continues after the caller checked for a version's local executable: a present file is
    /// located without download, an absent one is fetched.
    pub fn after_local_check(&self, version: Version, exists: bool) -> (r: Step)
        ensures
            r@ == self.local_check_outcome(version@, exists),
    {
        if exists {
            self.locate(&version)
        } else {
            let url = release_url(self.os, self.arch, &version);
            Step::Fetch { version, url }
        }
    }

    /// Continues after the executable was unpacked (or not) from a version's archive.
    pub fn after_extraction(&self, version: Version, unpacked: Result<Vec<u8>, PluginError>) -> (r: Step)
        ensures
            r@ == self.extraction_outcome(
                version@,
                match unpacked {
                    Ok(b) => Ok(b@),
                    Err(e) => Err(e@),
                },
            ),
    {
        match unpacked {
            Ok(bytes) => {
                let file_name = executable_file_name(self.os, &version);
                Step::Store { version, file_name, bytes }
            },
            Err(e) => Step::Failed(e),
        }
    }

    /// Continues after the caller downloaded a version's archive: `body` is the response body,
    /// or the transport's account of why there is none.
    pub fn after_fetch(&self, version: Version, body: Result<Vec<u8>, String>) -> (r: Step)
        ensures
            body is Err ==> r@ == StepModel::Failed((ErrorKind::NetworkFailure, body->Err_0@)),
            body is Ok && extracted(format_for(self.os), body->Ok_0@) is Some ==> r@
                == self.extraction_outcome(
                version@,
                Ok(extracted(format_for(self.os), body->Ok_0@)->0),
            ),
            body is Ok && extracted(format_for(self.os), body->Ok_0@) is None ==> (r@ matches StepModel::Failed(e)
                && e.0 == ErrorKind::ExtractionFailure),
    {
        match body {
            Ok(archive) => {
                let unpacked = extract_executable(self.os.archive_format(), &archive);
                self.after_extraction(version, unpacked)
            },
            Err(m) => Step::Failed(PluginError::new(ErrorKind::NetworkFailure, m)),
        }
    }

    /// Continues after the caller stored a version's executable: `outcome` is the write's
    /// result.
    pub fn after_store(&self, version: Version, outcome: Result<(), String>) -> (r: Step)
        ensures
            r@ == self.store_outcome(
                version@,
                match outcome {
                    Ok(()) => Ok(()),
                    Err(m) => Err(m@),
                },
            ),
    {
        match outcome {
            Ok(()) => self.locate(&version),
            Err(m) => Step::Failed(PluginError::new(ErrorKind::ExtractionFailure, m)),
        }
    }
}

/// Resolving the same release twice downloads it at most once. The first resolution checks for,
/// and after a download stores, the executable under one file name; a later resolution checks
/// for that same name, and where the file is present it locates the executable without a
/// download, at the locator that the first resolution reached after storing it.
pub proof fn lemma_second_resolution_reuses_download(
    r: &Resolver,
    v: VersionModel,
    bytes: Seq<u8>,
)
    ensures
        r.start_outcome(SelectionModel::Specific(v)) == (StepModel::CheckLocal {
            version: v,
            file_name: local_file_name(r.os, v),
        }),
        r.extraction_outcome(v, Ok(bytes)) == (StepModel::Store {
            version: v,
            file_name: local_file_name(r.os, v),
            bytes,
        }),
        !(r.local_check_outcome(v, true) is Fetch),
        r.local_check_outcome(v, true) == r.store_outcome(v, Ok(())),
{
}

} // verus!
