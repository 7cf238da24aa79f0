//! The order of an installation: which outside step is due, and what
//! follows from how it went.

use crate::archive::ExtractionError;
use crate::layout::{build_paths, paths_spec, InstallPaths, InstallRecord, PathsView, RecordView};
use crate::remote::steam::{MetadataUnavailable, WorkshopItemInfo};
use crate::remote::{
    chain_run, first_provider, lemma_exhausted_iff_all_fail, link_of, ChainView,
    ExhaustedProviders, ProviderOutcome,
};
use vstd::prelude::*;

verus! {

/// Why an installation was given up.
#[derive(Clone, Copy, Debug, PartialEq, Eq, Structural)]
pub enum InstallError {
    /// The user's home directory is not known.
    HomeUnknown,
    /// The item's title could not be had.
    Metadata(MetadataUnavailable),
    /// No provider gave a download link.
    ExhaustedProviders,
    /// The archive could not be fetched.
    DownloadFailed,
    /// The archive could not be unpacked.
    Extraction(ExtractionError),
    /// The manifest could not be written.
    ManifestNotWritten,
    /// The host's cache file is there and could not be removed.
    CacheNotRemoved,
}

/// How an outside step went.
#[derive(Debug, PartialEq, Eq)]
pub enum InstallEvent {
    /// The user's home directory, if it is known.
    Home(Option<String>),
    /// The item's details, or why there are none.
    Metadata(Result<WorkshopItemInfo, MetadataUnavailable>),
    /// The download link, or that every provider failed.
    Link(Result<String, ExhaustedProviders>),
    /// Whether the archive's bytes were fetched.
    Archive(bool),
    /// The number of entries written, or why unpacking failed.
    Extraction(Result<usize, ExtractionError>),
    /// Whether the manifest was written.
    Manifest(bool),
    /// Whether the host's cache file is gone.
    Cache(bool),
    /// The user was told that the item is installed.
    Reported,
}

/// The outside step that is due.
#[derive(Clone, Debug, PartialEq, Eq)]
pub enum InstallAction {
    /// Look up the user's home directory.
    LocateHome,
    /// Ask the metadata service for the item's details.
    FetchMetadata { item_id: u32 },
    /// Find a download link with the provider chain.
    ResolveLink { item_id: u32 },
    /// Fetch the archive's bytes.
    FetchArchive { link: String },
    /// Unpack the archive into the target directory.
    Extract { target_dir: String },
    /// Write the manifest, over any that is there.
    WriteManifest { path: String, record: InstallRecord },
    /// Remove the host's cache file if it is there.
    InvalidateCache { path: String },
    /// Tell the user that the item is installed.
    Report,
    /// Nothing: the installation is complete.
    Nothing,
    /// Give up, leaving what was written where it is.
    Abort(InstallError),
}

/// Where an installation stands. Each state holds what the steps still to
/// come need.
#[derive(Clone, Debug, PartialEq, Eq)]
pub enum Installation {
    /// Nothing is done yet.
    Start { item_id: u32 },
    /// The places on disk are worked out.
    LayoutComputed { item_id: u32, paths: InstallPaths },
    /// The item's title is known.
    MetadataFetched { item_id: u32, paths: InstallPaths, title: String },
    /// A provider gave a download link.
    LinkResolved { item_id: u32, paths: InstallPaths, title: String, link: String },
    /// The archive's bytes are here.
    BytesFetched { item_id: u32, paths: InstallPaths, title: String },
    /// The archive is unpacked; `entries` were written.
    Extracted { item_id: u32, paths: InstallPaths, title: String, entries: usize },
    /// The manifest is written.
    ManifestWritten { paths: InstallPaths },
    /// The host's cache file is gone.
    CacheInvalidated,
    /// The item is installed and the user was told so.
    Done,
    /// The installation was given up.
    Failed(InstallError),
}

/// An installation's state as plain values.
pub enum InstallView {
    Start { item_id: u32 },
    LayoutComputed { item_id: u32, paths: PathsView },
    MetadataFetched { item_id: u32, paths: PathsView, title: Seq<char> },
    LinkResolved { item_id: u32, paths: PathsView, title: Seq<char>, link: Seq<char> },
    BytesFetched { item_id: u32, paths: PathsView, title: Seq<char> },
    Extracted { item_id: u32, paths: PathsView, title: Seq<char>, entries: usize },
    ManifestWritten { paths: PathsView },
    CacheInvalidated,
    Done,
    Failed(InstallError),
}

/// An action as plain values.
pub enum ActionView {
    LocateHome,
    FetchMetadata { item_id: u32 },
    ResolveLink { item_id: u32 },
    FetchArchive { link: Seq<char> },
    Extract { target_dir: Seq<char> },
    WriteManifest { path: Seq<char>, record: RecordView },
    InvalidateCache { path: Seq<char> },
    Report,
    Nothing,
    Abort(InstallError),
}

impl View for Installation {
    type V = InstallView;

    open spec fn view(&self) -> InstallView {
        match *self {
            Installation::Start { item_id } => InstallView::Start { item_id },
            Installation::LayoutComputed { item_id, paths } => InstallView::LayoutComputed {
                item_id,
                paths: paths@,
            },
            Installation::MetadataFetched { item_id, paths, title } => {
                InstallView::MetadataFetched { item_id, paths: paths@, title: title@ }
            },
            Installation::LinkResolved { item_id, paths, title, link } => {
                InstallView::LinkResolved { item_id, paths: paths@, title: title@, link: link@ }
            },
            Installation::BytesFetched { item_id, paths, title } => InstallView::BytesFetched {
                item_id,
                paths: paths@,
                title: title@,
            },
            Installation::Extracted { item_id, paths, title, entries } => InstallView::Extracted {
                item_id,
                paths: paths@,
                title: title@,
                entries,
            },
            Installation::ManifestWritten { paths } => InstallView::ManifestWritten {
                paths: paths@,
            },
            Installation::CacheInvalidated => InstallView::CacheInvalidated,
            Installation::Done => InstallView::Done,
            Installation::Failed(e) => InstallView::Failed(e),
        }
    }
}

impl View for InstallAction {
    type V = ActionView;

    open spec fn view(&self) -> ActionView {
        match *self {
            InstallAction::LocateHome => ActionView::LocateHome,
            InstallAction::FetchMetadata { item_id } => ActionView::FetchMetadata { item_id },
            InstallAction::ResolveLink { item_id } => ActionView::ResolveLink { item_id },
            InstallAction::FetchArchive { link } => ActionView::FetchArchive { link: link@ },
            InstallAction::Extract { target_dir } => ActionView::Extract {
                target_dir: target_dir@,
            },
            InstallAction::WriteManifest { path, record } => ActionView::WriteManifest {
                path: path@,
                record: record@,
            },
            InstallAction::InvalidateCache { path } => ActionView::InvalidateCache { path: path@ },
            InstallAction::Report => ActionView::Report,
            InstallAction::Nothing => ActionView::Nothing,
            InstallAction::Abort(e) => ActionView::Abort(e),
        }
    }
}

/// The outside step that is due in a state.
pub open spec fn pending_action(state: InstallView) -> ActionView {
    match state {
        InstallView::Start { .. } => ActionView::LocateHome,
        InstallView::LayoutComputed { item_id, .. } => ActionView::FetchMetadata { item_id },
        InstallView::MetadataFetched { item_id, .. } => ActionView::ResolveLink { item_id },
        InstallView::LinkResolved { link, .. } => ActionView::FetchArchive { link },
        InstallView::BytesFetched { paths, .. } => ActionView::Extract {
            target_dir: paths.target_dir,
        },
        InstallView::Extracted { item_id, paths, title, .. } => ActionView::WriteManifest {
            path: paths.mod_file,
            record: RecordView { item_id, title, target_dir: paths.target_dir },
        },
        InstallView::ManifestWritten { paths } => ActionView::InvalidateCache {
            path: paths.mods_registry,
        },
        InstallView::CacheInvalidated => ActionView::Report,
        InstallView::Done => ActionView::Nothing,
        InstallView::Failed(e) => ActionView::Abort(e),
    }
}

/// The state that follows once the step that was due has gone as `event`
/// says. A step that went well leads to the next state in line; one that
/// failed ends the installation with its error. An event that does not
/// answer the step that was due changes nothing, and neither does any
/// event once the installation is done or given up.
pub open spec fn install_step(state: InstallView, event: InstallEvent) -> InstallView {
    match (state, event) {
        (InstallView::Start { item_id }, InstallEvent::Home(Some(home))) => {
            InstallView::LayoutComputed { item_id, paths: paths_spec(home@, item_id) }
        },
        (InstallView::Start { .. }, InstallEvent::Home(None)) => InstallView::Failed(
            InstallError::HomeUnknown,
        ),
        (InstallView::LayoutComputed { item_id, paths }, InstallEvent::Metadata(Ok(info))) => {
            InstallView::MetadataFetched { item_id, paths, title: info.title@ }
        },
        (InstallView::LayoutComputed { .. }, InstallEvent::Metadata(Err(e))) => {
            InstallView::Failed(InstallError::Metadata(e))
        },
        (InstallView::MetadataFetched { item_id, paths, title }, InstallEvent::Link(Ok(link))) => {
            InstallView::LinkResolved { item_id, paths, title, link: link@ }
        },
        (InstallView::MetadataFetched { .. }, InstallEvent::Link(Err(_))) => InstallView::Failed(
            InstallError::ExhaustedProviders,
        ),
        (
            InstallView::LinkResolved { item_id, paths, title, .. },
            InstallEvent::Archive(fetched),
        ) => {
            if fetched {
                InstallView::BytesFetched { item_id, paths, title }
            } else {
                InstallView::Failed(InstallError::DownloadFailed)
            }
        },
        (
            InstallView::BytesFetched { item_id, paths, title },
            InstallEvent::Extraction(Ok(entries)),
        ) => { InstallView::Extracted { item_id, paths, title, entries } },
        (InstallView::BytesFetched { .. }, InstallEvent::Extraction(Err(e))) => {
            InstallView::Failed(InstallError::Extraction(e))
        },
        (InstallView::Extracted { paths, .. }, InstallEvent::Manifest(written)) => {
            if written {
                InstallView::ManifestWritten { paths }
            } else {
                InstallView::Failed(InstallError::ManifestNotWritten)
            }
        },
        (InstallView::ManifestWritten { .. }, InstallEvent::Cache(gone)) => {
            if gone {
                InstallView::CacheInvalidated
            } else {
                InstallView::Failed(InstallError::CacheNotRemoved)
            }
        },
        (InstallView::CacheInvalidated, InstallEvent::Reported) => InstallView::Done,
        _ => state,
    }
}

/// The state reached from `state` by the events of `events`, in order.
pub open spec fn install_run(state: InstallView, events: Seq<InstallEvent>) -> InstallView
    decreases events.len(),
{
    if events.len() == 0 {
        state
    } else {
        install_step(install_run(state, events.drop_last()), events.last())
    }
}

/// How far an installation has come: the number of steps behind it. A
/// failed installation has no rank of its own.
pub open spec fn stage_rank(state: InstallView) -> nat {
    match state {
        InstallView::Start { .. } => 0,
        InstallView::LayoutComputed { .. } => 1,
        InstallView::MetadataFetched { .. } => 2,
        InstallView::LinkResolved { .. } => 3,
        InstallView::BytesFetched { .. } => 4,
        InstallView::Extracted { .. } => 5,
        InstallView::ManifestWritten { .. } => 6,
        InstallView::CacheInvalidated => 7,
        InstallView::Done => 8,
        InstallView::Failed(_) => 9,
    }
}

impl Installation {
    /// An installation of `item_id` that has done nothing yet.
    pub fn new(item_id: u32) -> (state: Installation)
        ensures
            state@ == (InstallView::Start { item_id }),
    {
        Installation::Start { item_id }
    }

    /// The outside step that is due.
    pub fn pending(&self) -> (action: InstallAction)
        ensures
            action@ == pending_action(self@),
    {
        match self {
            Installation::Start { .. } => InstallAction::LocateHome,
            Installation::LayoutComputed { item_id, .. } => InstallAction::FetchMetadata {
                item_id: *item_id,
            },
            Installation::MetadataFetched { item_id, .. } => InstallAction::ResolveLink {
                item_id: *item_id,
            },
            Installation::LinkResolved { link, .. } => InstallAction::FetchArchive {
                link: link.clone(),
            },
            Installation::BytesFetched { paths, .. } => InstallAction::Extract {
                target_dir: paths.target_dir.clone(),
            },
            Installation::Extracted { item_id, paths, title, .. } => InstallAction::WriteManifest {
                path: paths.mod_file.clone(),
                record: InstallRecord {
                    item_id: *item_id,
                    title: title.clone(),
                    target_dir: paths.target_dir.clone(),
                },
            },
            Installation::ManifestWritten { paths } => InstallAction::InvalidateCache {
                path: paths.mods_registry.clone(),
            },
            Installation::CacheInvalidated => InstallAction::Report,
            Installation::Done => InstallAction::Nothing,
            Installation::Failed(e) => InstallAction::Abort(*e),
        }
    }

    /// Takes note of how an outside step went.
    pub fn advance(self, event: InstallEvent) -> (next: Installation)
        ensures
            next@ == install_step(self@, event),
    {
        match (self, event) {
            (Installation::Start { item_id }, InstallEvent::Home(Some(home))) => {
                Installation::LayoutComputed { item_id, paths: build_paths(home.as_str(), item_id) }
            },
            (Installation::Start { .. }, InstallEvent::Home(None)) => Installation::Failed(
                InstallError::HomeUnknown,
            ),
            (Installation::LayoutComputed { item_id, paths }, InstallEvent::Metadata(Ok(info))) => {
                Installation::MetadataFetched { item_id, paths, title: info.title }
            },
            (Installation::LayoutComputed { .. }, InstallEvent::Metadata(Err(e))) => {
                Installation::Failed(InstallError::Metadata(e))
            },
            (
                Installation::MetadataFetched { item_id, paths, title },
                InstallEvent::Link(Ok(link)),
            ) => { Installation::LinkResolved { item_id, paths, title, link } },
            (Installation::MetadataFetched { .. }, InstallEvent::Link(Err(_))) => {
                Installation::Failed(InstallError::ExhaustedProviders)
            },
            (
                Installation::LinkResolved { item_id, paths, title, .. },
                InstallEvent::Archive(fetched),
            ) => {
                if fetched {
                    Installation::BytesFetched { item_id, paths, title }
                } else {
                    Installation::Failed(InstallError::DownloadFailed)
                }
            },
            (
                Installation::BytesFetched { item_id, paths, title },
                InstallEvent::Extraction(Ok(entries)),
            ) => { Installation::Extracted { item_id, paths, title, entries } },
            (Installation::BytesFetched { .. }, InstallEvent::Extraction(Err(e))) => {
                Installation::Failed(InstallError::Extraction(e))
            },
            (Installation::Extracted { paths, .. }, InstallEvent::Manifest(written)) => {
                if written {
                    Installation::ManifestWritten { paths }
                } else {
                    Installation::Failed(InstallError::ManifestNotWritten)
                }
            },
            (Installation::ManifestWritten { .. }, InstallEvent::Cache(gone)) => {
                if gone {
                    Installation::CacheInvalidated
                } else {
                    Installation::Failed(InstallError::CacheNotRemoved)
                }
            },
            (Installation::CacheInvalidated, InstallEvent::Reported) => Installation::Done,
            (state, _) => state,
        }
    }
}

/// An installation only moves forward: each event leaves it where it is,
/// takes it to the next state in line, or ends it with an error.
pub proof fn lemma_no_back_edges(state: InstallView, event: InstallEvent)
    ensures
        install_step(state, event) == state || install_step(state, event) is Failed || stage_rank(
            install_step(state, event),
        ) == stage_rank(state) + 1,
{
}

/// An installation that is done or given up stays so, whatever comes.
pub proof fn lemma_end_states_are_final(state: InstallView, events: Seq<InstallEvent>)
    requires
        state is Done || state is Failed,
    ensures
        install_run(state, events) == state,
    decreases events.len(),
{
    if events.len() > 0 {
        lemma_end_states_are_final(state, events.drop_last());
    }
}

/// The archive is fetched only once a provider gave a link: fetching is
/// due in no other state than the one that holds the link, and that state
/// is entered only by the event that brings a link.
pub proof fn lemma_fetch_needs_link(state: InstallView, event: InstallEvent)
    ensures
        pending_action(state) is FetchArchive <==> state is LinkResolved,
        install_step(state, event) is LinkResolved && !(state is LinkResolved) ==> (event matches
        InstallEvent::Link(Ok(link)) && install_step(state, event)->LinkResolved_link == link@),
{
}

/// Where every provider fails, the search for a link ends without one,
/// the installation that waits for the link is given up, and whatever
/// comes afterwards, the step that is due is to abort: the archive is
/// never fetched.
pub proof fn lemma_exhausted_providers_abort(
    first: ProviderOutcome,
    second: ProviderOutcome,
    state: InstallView,
    later: Seq<InstallEvent>,
)
    requires
        link_of(first) is None,
        link_of(second) is None,
        state is MetadataFetched,
    ensures
        chain_run(ChainView::Pending(first_provider()), seq![first, second])
            == ChainView::Exhausted,
        install_step(state, InstallEvent::Link(Err(ExhaustedProviders))) == InstallView::Failed(
            InstallError::ExhaustedProviders,
        ),
        pending_action(
            install_run(install_step(state, InstallEvent::Link(Err(ExhaustedProviders))), later),
        ) == ActionView::Abort(InstallError::ExhaustedProviders),
{
    lemma_exhausted_iff_all_fail(first, second);
    lemma_end_states_are_final(InstallView::Failed(InstallError::ExhaustedProviders), later);
}

} // verus!
