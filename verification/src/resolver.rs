//! From a fetched body to the file to write.
//!
//! Both package shapes go through one pipeline: the body is fetched, the
//! payload is taken from it, the destination is resolved, the file is
//! written. Fetching and writing are done by the caller; the steps between
//! them, and the wrapping of every failure with the package's name, are
//! decided here.

use crate::archive::{
    container_kind, extract_entry, extracted, extraction_view, kind_of, ExtractError,
    ExtractErrorView,
};
use crate::fetch::{FetchError, FetchErrorView};
use crate::install::{
    get_install_path, home_view, resolved, InstallError, InstallErrorView, EXECUTABLE_MODE,
};
use crate::package::{PackageConfig, PackageView};
use vstd::prelude::*;

verus! {

/// The step at which a package failed, with that step's own error.
#[derive(Debug, PartialEq, Eq)]
pub enum Failure {
    Fetch(FetchError),
    Extract(ExtractError),
    Install(InstallError),
}

/// The mathematical content of a [`Failure`].
pub enum FailureView {
    Fetch(FetchErrorView),
    Extract(ExtractErrorView),
    Install(InstallErrorView),
}

impl FailureView {
    /// The failure in words: the text of the step's own error.
    pub open spec fn text(self) -> Seq<char> {
        match self {
            FailureView::Fetch(e) => e.text(),
            FailureView::Extract(e) => e.text(),
            FailureView::Install(e) => e.text(),
        }
    }
}

impl View for Failure {
    type V = FailureView;

    open spec fn view(&self) -> FailureView {
        match self {
            Failure::Fetch(e) => FailureView::Fetch(e@),
            Failure::Extract(e) => FailureView::Extract(e@),
            Failure::Install(e) => FailureView::Install(e@),
        }
    }
}

/// A failure together with the name of the package it happened to.
#[derive(Debug, PartialEq, Eq)]
pub struct PackageError {
    pub package: String,
    pub failure: Failure,
}

/// The mathematical content of a [`PackageError`].
pub struct PackageErrorView {
    pub package: Seq<char>,
    pub failure: FailureView,
}

impl PackageErrorView {
    /// The line shown for a failed package. It names the package first.
    pub open spec fn text(self) -> Seq<char> {
        "Error installing "@ + self.package + ": "@ + self.failure.text()
    }
}

impl View for PackageError {
    type V = PackageErrorView;

    open spec fn view(&self) -> PackageErrorView {
        PackageErrorView { package: self.package@, failure: self.failure@ }
    }
}

/// The file to write for one package.
#[derive(Debug, PartialEq, Eq)]
pub struct InstallPlan {
    /// Where the file goes.
    pub path: String,
    /// What it holds.
    pub bytes: Vec<u8>,
    /// The permission bits to set on it once written.
    pub mode: u32,
}

/// The mathematical content of an [`InstallPlan`].
pub struct InstallPlanView {
    pub path: Seq<char>,
    pub bytes: Seq<u8>,
    pub mode: u32,
}

impl View for InstallPlan {
    type V = InstallPlanView;

    open spec fn view(&self) -> InstallPlanView {
        InstallPlanView { path: self.path@, bytes: self.bytes@, mode: self.mode }
    }
}

/// A fetched body or the reason there is none, as mathematical values.
pub open spec fn fetched_view(r: Result<Vec<u8>, FetchError>) -> Result<Seq<u8>, FetchErrorView> {
    match r {
        Ok(body) => Ok(body@),
        Err(e) => Err(e@),
    }
}

/// A plan or the reason there is none, as mathematical values.
pub open spec fn plan_view(r: Result<InstallPlan, PackageError>) -> Result<
    InstallPlanView,
    PackageErrorView,
> {
    match r {
        Ok(plan) => Ok(plan@),
        Err(e) => Err(e@),
    }
}

/// How a package ended, as mathematical values.
pub open spec fn outcome_view(r: Result<(), PackageError>) -> Result<(), PackageErrorView> {
    match r {
        Ok(done) => Ok(done),
        Err(e) => Err(e@),
    }
}

/// The bytes to install for a package whose fetched body is `body`: the
/// body itself for a bare binary, the entry `bin` for an archive, whose
/// container is told from the archive URL's suffix.
pub open spec fn payload_of(package: PackageView, body: Seq<u8>) -> Result<
    Seq<u8>,
    ExtractErrorView,
> {
    match package {
        PackageView::Binary { .. } => Ok(body),
        PackageView::Archive { bin, archive, .. } => match kind_of(archive) {
            Some(kind) => extracted(kind, body, bin),
            None => Err(ExtractErrorView::UnsupportedFormat),
        },
    }
}

/// The plan for a package, or the first failure on the way to it: of the
/// fetch, of the extraction, of the path, in that order. The plan's mode
/// is [`EXECUTABLE_MODE`] whatever the package.
pub open spec fn planned(
    home: Option<Seq<char>>,
    location: Seq<char>,
    package: PackageView,
    fetched: Result<Seq<u8>, FetchErrorView>,
) -> Result<InstallPlanView, PackageErrorView> {
    match fetched {
        Err(e) => Err(PackageErrorView { package: package.name(), failure: FailureView::Fetch(e) }),
        Ok(body) => match payload_of(package, body) {
            Err(e) => Err(
                PackageErrorView { package: package.name(), failure: FailureView::Extract(e) },
            ),
            Ok(bytes) => match resolved(home, location, package.name()) {
                Err(e) => Err(
                    PackageErrorView { package: package.name(), failure: FailureView::Install(e) },
                ),
                Ok(path) => Ok(InstallPlanView { path, bytes, mode: EXECUTABLE_MODE }),
            },
        },
    }
}

/// An archive whose URL ends in neither `.tar.gz` nor `.zip` has no
/// payload, whatever its body holds: the body is never decoded.
pub proof fn lemma_unsupported_suffix(package: PackageView, body: Seq<u8>)
    requires
        package matches PackageView::Archive { archive, .. } && kind_of(archive) is None,
    ensures
        payload_of(package, body) == Err::<Seq<u8>, ExtractErrorView>(
            ExtractErrorView::UnsupportedFormat,
        ),
{
}

/// Two bodies with the same payload give the same plan: the same path, the
/// same bytes and the same mode. Installing a package again with an equal
/// payload therefore writes the same file.
pub proof fn lemma_same_payload_same_plan(
    home: Option<Seq<char>>,
    location: Seq<char>,
    package: PackageView,
    first: Seq<u8>,
    second: Seq<u8>,
)
    requires
        payload_of(package, first) == payload_of(package, second),
    ensures
        planned(home, location, package, Ok(first)) == planned(home, location, package, Ok(second)),
{
}

/// Every plan asks for the permission bits `rwxr-xr-x`, and holds the
/// package's payload, to be written at the package's resolved path.
pub proof fn lemma_plan_is_executable(
    home: Option<Seq<char>>,
    location: Seq<char>,
    package: PackageView,
    fetched: Result<Seq<u8>, FetchErrorView>,
)
    ensures
        planned(home, location, package, fetched) matches Ok(plan) ==> {
            &&& plan.mode == 0o755
            &&& fetched matches Ok(body) && payload_of(package, body) == Ok::<
                Seq<u8>,
                ExtractErrorView,
            >(plan.bytes)
            &&& resolved(home, location, package.name()) == Ok::<Seq<char>, InstallErrorView>(
                plan.path,
            )
        },
{
}

/// A failure names its package and no other: the error of a package that
/// could not be planned carries that package's name, and its text begins
/// with `Error installing `, followed by the name.
pub proof fn lemma_failure_names_its_package(
    home: Option<Seq<char>>,
    location: Seq<char>,
    package: PackageView,
    fetched: Result<Seq<u8>, FetchErrorView>,
)
    ensures
        planned(home, location, package, fetched) matches Err(e) ==> {
            &&& e.package == package.name()
            &&& ("Error installing "@ + package.name()).is_prefix_of(e.text())
        },
{
}

/// A failed fetch is the package's failure whatever the rest would have
/// given: nothing is extracted and no path is resolved.
pub proof fn lemma_fetch_failure_is_reported(
    home: Option<Seq<char>>,
    location: Seq<char>,
    package: PackageView,
    e: FetchErrorView,
)
    ensures
        planned(home, location, package, Err(e)) == Err::<InstallPlanView, PackageErrorView>(
            PackageErrorView { package: package.name(), failure: FailureView::Fetch(e) },
        ),
{
}

/// Takes the payload of `package` out of its fetched body. An archive whose
/// URL names no supported container is turned down before a byte of the
/// body is looked at.
pub fn payload(package: &PackageConfig, body: Vec<u8>) -> (bytes: Result<Vec<u8>, ExtractError>)
    ensures
        extraction_view(bytes) == payload_of(package@, body@),
{
    match package {
        PackageConfig::Binary { .. } => Ok(body),
        PackageConfig::Archive { bin, archive, .. } => {
            match container_kind(archive.as_str()) {
                Ok(kind) => extract_entry(body.as_slice(), kind, bin.as_str()),
                Err(e) => Err(e),
            }
        },
    }
}

/// Decides what to write for `package`, given what its fetch returned and
/// the home directory found for `location` (see
/// [`lookup_home`](crate::install::lookup_home)). Every failure comes back
/// under the package's name.
pub fn plan_install(
    home: Option<&str>,
    location: &str,
    package: &PackageConfig,
    fetched: Result<Vec<u8>, FetchError>,
) -> (plan: Result<InstallPlan, PackageError>)
    ensures
        plan_view(plan) == planned(home_view(home), location@, package@, fetched_view(fetched)),
{
    let body = match fetched {
        Ok(body) => body,
        Err(e) => {
            return Err(
                PackageError { package: package.name().to_owned(), failure: Failure::Fetch(e) },
            );
        },
    };
    let bytes = match payload(package, body) {
        Ok(bytes) => bytes,
        Err(e) => {
            return Err(
                PackageError { package: package.name().to_owned(), failure: Failure::Extract(e) },
            );
        },
    };
    match get_install_path(home, location, package.name()) {
        Ok(path) => Ok(InstallPlan { path, bytes, mode: EXECUTABLE_MODE }),
        Err(e) => Err(
            PackageError { package: package.name().to_owned(), failure: Failure::Install(e) },
        ),
    }
}

/// Closes a package's pipeline with what the write returned: success, or
/// the write's failure under the package's name.
pub fn conclude(package: &PackageConfig, written: Result<(), InstallError>) -> (outcome: Result<
    (),
    PackageError,
>)
    ensures
        outcome_view(outcome) == match written {
            Ok(done) => Ok(done),
            Err(e) => Err(
                PackageErrorView { package: package@.name(), failure: FailureView::Install(e@) },
            ),
        },
{
    match written {
        Ok(done) => Ok(done),
        Err(e) => Err(
            PackageError { package: package.name().to_owned(), failure: Failure::Install(e) },
        ),
    }
}

impl Failure {
    /// The failure in words: the message of the step's own error.
    pub fn message(&self) -> (message: String)
        ensures
            message@ == self@.text(),
    {
        match self {
            Failure::Fetch(e) => e.message(),
            Failure::Extract(e) => e.message(),
            Failure::Install(e) => e.message(),
        }
    }
}

impl PackageError {
    /// The line shown for a failed package.
    pub fn message(&self) -> (message: String)
        ensures
            message@ == self@.text(),
    {
        let mut message = "Error installing ".to_owned();
        message.append(self.package.as_str());
        message.append(": ");
        message.append(self.failure.message().as_str());
        message
    }
}

/// The line a package's progress display ends on: the completion line, or
/// in its place the failure's text.
pub open spec fn closing_text(name: Seq<char>, outcome: Result<(), PackageErrorView>) -> Seq<char> {
    match outcome {
        Ok(_) => "Downloaded "@ + name,
        Err(e) => e.text(),
    }
}

/// The line that ends the progress display of the package called `name`.
pub fn closing_message(name: &str, outcome: &Result<(), PackageError>) -> (message: String)
    ensures
        message@ == closing_text(name@, outcome_view(*outcome)),
{
    match outcome {
        Ok(_) => downloaded_message(name),
        Err(e) => e.message(),
    }
}

/// The line shown while a package is being worked on.
pub fn installing_message(name: &str) -> (message: String)
    ensures
        message@ == "Installing "@ + name@,
{
    let mut message = "Installing ".to_owned();
    message.append(name);
    message
}

/// The line shown once a package's body has arrived.
pub fn downloaded_message(name: &str) -> (message: String)
    ensures
        message@ == "Downloaded "@ + name@,
{
    let mut message = "Downloaded ".to_owned();
    message.append(name);
    message
}

} // verus!
