use sgmm::archive::ExtractionError;
use sgmm::install::{InstallAction, InstallError, InstallEvent, Installation};
use sgmm::layout::{build_paths, mod_file_text, InstallPaths, InstallRecord};
use sgmm::remote::steam::{MetadataUnavailable, WorkshopItemInfo};
use sgmm::remote::ExhaustedProviders;
use sgmm::remove::{Removal, RemovalReport, RemoveAction};

const TARGET: &str = "/home/u/.local/share/Paradox Interactive/Stellaris/mod/steam_123";

fn info() -> WorkshopItemInfo {
    WorkshopItemInfo {
        file_url: String::new(),
        title: "Better Planets".to_string(),
        file_size: 10,
    }
}

fn up_to_metadata() -> Installation {
    Installation::new(123)
        .advance(InstallEvent::Home(Some("/home/u".to_string())))
        .advance(InstallEvent::Metadata(Ok(info())))
}

#[test]
fn paths_follow_from_home_and_id() {
    assert_eq!(
        build_paths("/home/u", 123),
        InstallPaths {
            target_dir: TARGET.to_string(),
            mod_file: format!("{}.mod", TARGET),
            mods_registry:
                "/home/u/.local/share/Paradox Interactive/Stellaris/mods_registry.json".to_string(),
        }
    );
    assert_eq!(build_paths("/home/u", 123), build_paths("/home/u", 123));
    assert_ne!(build_paths("/home/u", 123).target_dir, build_paths("/home/u", 124).target_dir);
}

#[test]
fn manifest_names_title_and_path() {
    assert_eq!(mod_file_text("Title", "/d/steam_1"), "name=\"Title\"\npath=\"/d/steam_1\"");
    let record = InstallRecord {
        item_id: 1,
        title: "Title".to_string(),
        target_dir: "/d/steam_1".to_string(),
    };
    assert_eq!(record.manifest(), "name=\"Title\"\npath=\"/d/steam_1\"");
}

#[test]
fn installation_runs_through_its_steps_in_order() {
    let state = Installation::new(123);
    assert_eq!(state.pending(), InstallAction::LocateHome);
    let state = state.advance(InstallEvent::Home(Some("/home/u".to_string())));
    assert_eq!(state.pending(), InstallAction::FetchMetadata { item_id: 123 });
    let state = state.advance(InstallEvent::Metadata(Ok(info())));
    assert_eq!(state.pending(), InstallAction::ResolveLink { item_id: 123 });
    let state = state.advance(InstallEvent::Link(Ok("http://h/123.zip".to_string())));
    assert_eq!(state.pending(), InstallAction::FetchArchive { link: "http://h/123.zip".to_string() });
    let state = state.advance(InstallEvent::Archive(true));
    assert_eq!(state.pending(), InstallAction::Extract { target_dir: TARGET.to_string() });
    let state = state.advance(InstallEvent::Extraction(Ok(2)));
    assert_eq!(
        state.pending(),
        InstallAction::WriteManifest {
            path: format!("{}.mod", TARGET),
            record: InstallRecord {
                item_id: 123,
                title: "Better Planets".to_string(),
                target_dir: TARGET.to_string(),
            },
        }
    );
    let state = state.advance(InstallEvent::Manifest(true));
    assert_eq!(
        state.pending(),
        InstallAction::InvalidateCache {
            path: "/home/u/.local/share/Paradox Interactive/Stellaris/mods_registry.json"
                .to_string(),
        }
    );
    let state = state.advance(InstallEvent::Cache(true));
    assert_eq!(state.pending(), InstallAction::Report);
    let state = state.advance(InstallEvent::Reported);
    assert_eq!(state, Installation::Done);
    assert_eq!(state.pending(), InstallAction::Nothing);
}

#[test]
fn exhausted_providers_abort_before_any_fetch() {
    let state = up_to_metadata().advance(InstallEvent::Link(Err(ExhaustedProviders)));
    assert_eq!(state, Installation::Failed(InstallError::ExhaustedProviders));
    assert_eq!(state.pending(), InstallAction::Abort(InstallError::ExhaustedProviders));
    let state = state.advance(InstallEvent::Archive(true));
    assert_eq!(state, Installation::Failed(InstallError::ExhaustedProviders));
}

#[test]
fn each_failing_step_gives_up_with_its_error() {
    assert_eq!(
        Installation::new(1).advance(InstallEvent::Home(None)),
        Installation::Failed(InstallError::HomeUnknown)
    );
    assert_eq!(
        Installation::new(1)
            .advance(InstallEvent::Home(Some("/h".to_string())))
            .advance(InstallEvent::Metadata(Err(MetadataUnavailable::NoResults))),
        Installation::Failed(InstallError::Metadata(MetadataUnavailable::NoResults))
    );
    let linked = || up_to_metadata().advance(InstallEvent::Link(Ok("l".to_string())));
    assert_eq!(
        linked().advance(InstallEvent::Archive(false)),
        Installation::Failed(InstallError::DownloadFailed)
    );
    let fetched = || linked().advance(InstallEvent::Archive(true));
    assert_eq!(
        fetched().advance(InstallEvent::Extraction(Err(ExtractionError::MalformedArchive))),
        Installation::Failed(InstallError::Extraction(ExtractionError::MalformedArchive))
    );
    let extracted = || fetched().advance(InstallEvent::Extraction(Ok(0)));
    assert_eq!(
        extracted().advance(InstallEvent::Manifest(false)),
        Installation::Failed(InstallError::ManifestNotWritten)
    );
    assert_eq!(
        extracted().advance(InstallEvent::Manifest(true)).advance(InstallEvent::Cache(false)),
        Installation::Failed(InstallError::CacheNotRemoved)
    );
}

#[test]
fn event_out_of_turn_changes_nothing() {
    let state = up_to_metadata();
    let same = state.clone().advance(InstallEvent::Archive(true));
    assert_eq!(same, state);
    let same = state.clone().advance(InstallEvent::Reported);
    assert_eq!(same, state);
}

#[test]
fn removal_attempts_both_deletions_whatever_happens() {
    for directory_removed in [false, true] {
        for manifest_removed in [false, true] {
            let state = Removal::new("/home/u", 123);
            assert_eq!(state.pending(), RemoveAction::RemoveDirectory { path: TARGET.to_string() });
            assert_eq!(state.report(), None);
            let state = state.advance(directory_removed);
            assert_eq!(
                state.pending(),
                RemoveAction::RemoveFile { path: format!("{}.mod", TARGET) }
            );
            let state = state.advance(manifest_removed);
            assert_eq!(state.pending(), RemoveAction::Nothing);
            assert_eq!(state.report(), Some(RemovalReport { directory_removed, manifest_removed }));
        }
    }
}

#[test]
fn removal_of_an_absent_item_completes_every_time() {
    for _ in 0..2 {
        let state = Removal::new("/home/u", 456).advance(false).advance(false);
        assert_eq!(
            state.report(),
            Some(RemovalReport { directory_removed: false, manifest_removed: false })
        );
        let state = state.advance(true);
        assert_eq!(
            state.report(),
            Some(RemovalReport { directory_removed: false, manifest_removed: false })
        );
    }
}
