//! Why a resolution can fail, and the message each failure is reported with.

use vstd::prelude::*;
use crate::platform::{arch_label, os_label, Platform};
use crate::text::join;

verus! {

/// A failed resolution. Every failure ends the launch attempt; none is
/// retried.
#[derive(Clone, Debug, PartialEq, Eq)]
pub enum ResolveError {
    /// The operating system has no prebuilt archives and the tool is not on
    /// `PATH`: it has to be built by hand.
    ManualInstallRequired,
    /// No archive is published for this pair of system and architecture.
    UnsupportedPlatform(Platform),
    /// The latest release could not be fetched; the host's message.
    ReleaseMetadataUnavailable(String),
    /// The release carries no archive of the name given.
    AssetNotFound(String),
    /// The archive could not be downloaded or unpacked; the host's message.
    DownloadOrExtractFailed(String),
    /// The unpacked binary could not be made executable; the host's message.
    MakeExecutableFailed(String),
}

/// The mathematical value of a [`ResolveError`].
pub enum ResolveErrorView {
    ManualInstallRequired,
    UnsupportedPlatform(Platform),
    ReleaseMetadataUnavailable(Seq<char>),
    AssetNotFound(Seq<char>),
    DownloadOrExtractFailed(Seq<char>),
    MakeExecutableFailed(Seq<char>),
}

impl View for ResolveError {
    type V = ResolveErrorView;

    open spec fn view(&self) -> ResolveErrorView {
        match *self {
            ResolveError::ManualInstallRequired => ResolveErrorView::ManualInstallRequired,
            ResolveError::UnsupportedPlatform(platform) => ResolveErrorView::UnsupportedPlatform(
                platform,
            ),
            ResolveError::ReleaseMetadataUnavailable(detail) => {
                ResolveErrorView::ReleaseMetadataUnavailable(detail@)
            },
            ResolveError::AssetNotFound(name) => ResolveErrorView::AssetNotFound(name@),
            ResolveError::DownloadOrExtractFailed(detail) => {
                ResolveErrorView::DownloadOrExtractFailed(detail@)
            },
            ResolveError::MakeExecutableFailed(detail) => ResolveErrorView::MakeExecutableFailed(
                detail@,
            ),
        }
    }
}

/// What the user is told when the tool has to be built by hand.
pub open spec fn manual_install_text() -> Seq<char> {
    "Noir does not provide pre-built Windows binaries. Please build nargo from source and add it to your PATH: https://noir-lang.org/docs/getting_started/installation/"@
}

/// The message of each failure. Failures of the host are passed on word for
/// word, except that a failed download is prefixed with the step that failed.
pub open spec fn message_of(error: ResolveErrorView) -> Seq<char> {
    match error {
        ResolveErrorView::ManualInstallRequired => manual_install_text(),
        ResolveErrorView::UnsupportedPlatform(platform) => "unsupported platform: "@ + os_label(
            platform.os,
        ) + " "@ + arch_label(platform.arch),
        ResolveErrorView::ReleaseMetadataUnavailable(detail) => detail,
        ResolveErrorView::AssetNotFound(name) => "no asset found for "@ + name,
        ResolveErrorView::DownloadOrExtractFailed(detail) => "failed to download nargo: "@ + detail,
        ResolveErrorView::MakeExecutableFailed(detail) => detail,
    }
}

impl ResolveError {
    /// Renders the failure as the message shown to the user.
    pub fn message(&self) -> (text: String)
        ensures
            text@ == message_of(self@),
    {
        match self {
            ResolveError::ManualInstallRequired => String::from_str(
                "Noir does not provide pre-built Windows binaries. Please build nargo from source and add it to your PATH: https://noir-lang.org/docs/getting_started/installation/",
            ),
            ResolveError::UnsupportedPlatform(platform) => {
                let named = join("unsupported platform: ", platform.os.label());
                named.concat(" ").concat(platform.arch.label())
            },
            ResolveError::ReleaseMetadataUnavailable(detail) => detail.clone(),
            ResolveError::AssetNotFound(name) => join("no asset found for ", name.as_str()),
            ResolveError::DownloadOrExtractFailed(detail) => join(
                "failed to download nargo: ",
                detail.as_str(),
            ),
            ResolveError::MakeExecutableFailed(detail) => detail.clone(),
        }
    }
}

} // verus!
