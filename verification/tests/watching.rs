use catport::cli::{Cli, Commands};
use catport::watcher::{on_notification, step_for, WatchStep};
use notify::event::{AccessKind, CreateKind, DataChange, MetadataKind, ModifyKind, RemoveKind, RenameMode};
use notify::EventKind;

#[test]
fn modification_calls_for_reread() {
    assert_eq!(step_for(true), WatchStep::Reread);
    assert_eq!(step_for(false), WatchStep::Ignore);
}

#[test]
fn every_modify_notification_calls_for_reread() {
    let kinds = [
        EventKind::Modify(ModifyKind::Any),
        EventKind::Modify(ModifyKind::Data(DataChange::Content)),
        EventKind::Modify(ModifyKind::Metadata(MetadataKind::WriteTime)),
        EventKind::Modify(ModifyKind::Name(RenameMode::To)),
        EventKind::Modify(ModifyKind::Other),
    ];
    for kind in kinds {
        assert_eq!(on_notification(&kind), WatchStep::Reread);
    }
}

#[test]
fn other_notifications_are_ignored() {
    let kinds = [
        EventKind::Any,
        EventKind::Access(AccessKind::Read),
        EventKind::Create(CreateKind::File),
        EventKind::Remove(RemoveKind::File),
        EventKind::Other,
    ];
    for kind in kinds {
        assert_eq!(on_notification(&kind), WatchStep::Ignore);
    }
}

#[test]
fn command_line_values_compare_by_content() {
    let share = Cli {
        verbose: true,
        command: Commands::Share { file_name: "notes.txt".to_string(), local_only: None },
    };
    assert!(share.verbose);
    assert_eq!(share.command, Commands::Share { file_name: "notes.txt".to_string(), local_only: None });
    assert_ne!(share.command, Commands::View { file_name: "notes.txt".to_string(), plain: false });
    assert_ne!(
        Commands::Connect { url: "http://localhost:3000/share/abc12345".to_string() },
        Commands::Connect { url: "http://localhost:3000/share/abc12346".to_string() }
    );
}
