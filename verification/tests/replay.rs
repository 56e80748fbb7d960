use btrfs_migrator::action::{Action, ActionKind, Outcome};
use btrfs_migrator::error::Failure;
use btrfs_migrator::replay::{replay, Replay};

fn s(text: &str) -> String {
    text.to_string()
}

fn yes() -> Outcome {
    Outcome::Flag { value: true }
}

fn no() -> Outcome {
    Outcome::Flag { value: false }
}

fn names(list: &[&str]) -> Outcome {
    Outcome::Entries { names: list.iter().map(|name| s(name)).collect() }
}

/// What a fresh layout with one legacy root filesystem answers up to the
/// search, given the types of its mount table.
fn up_to_the_search(types: &[&str]) -> Vec<Outcome> {
    vec![
        no(),          // @system
        Outcome::Done, // settle
        Outcome::Done, // message
        no(),          // @system.import
        Outcome::Done, // create @system.import
        names(types),  // fstab
    ]
}

#[test]
fn replay_without_outcomes_waits_for_the_first() {
    assert_eq!(
        replay("/mnt", Vec::new()),
        (vec![Action::PathExists { path: s("/mnt/@system") }], Replay::Waiting)
    );
}

#[test]
fn replay_of_an_up_to_date_layout() {
    let (asked, end) = replay("/mnt", vec![yes(), yes(), yes()]);
    assert_eq!(end, Replay::Finished);
    assert_eq!(
        asked,
        vec![
            Action::PathExists { path: s("/mnt/@system") },
            Action::PathExists { path: s("/mnt/@home") },
            Action::PathExists { path: s("/mnt/@home/.snapshots") },
        ]
    );
}

#[test]
fn replay_ignores_outcomes_after_the_end() {
    let (asked, end) = replay("/mnt", vec![yes(), yes(), yes(), Outcome::Done, no()]);
    assert_eq!(end, Replay::Finished);
    assert_eq!(asked.len(), 3);
}

#[test]
fn replay_of_a_swap_only_mount_table_goes_on_to_the_search() {
    let (asked, end) = replay("/mnt", up_to_the_search(&["swap", "swap"]));
    assert_eq!(end, Replay::Waiting);
    assert_eq!(asked.last(), Some(&Action::ListDirectory { path: s("/mnt") }));
    assert!(asked.iter().all(|action| action.kind() != ActionKind::Confirm));
}

#[test]
fn replay_of_a_concerning_mount_table_asks_three_actions_later() {
    let mut outcomes = up_to_the_search(&["swap", "ext4"]);
    outcomes.push(Outcome::Unsuccessful); // hide splash
    outcomes.push(Outcome::Unsuccessful); // qr code
    let (asked, end) = replay("/mnt", outcomes);
    assert_eq!(end, Replay::Waiting);
    let read = asked.iter().position(|action| action.kind() == ActionKind::ReadFstab).unwrap();
    assert_eq!(
        asked[read + 3],
        Action::Confirm { concerning: 1, prompt: s("Do you want to continue with auto-migration?") }
    );
    assert_eq!(asked.len(), read + 4);
}

#[test]
fn replay_takes_a_prompt_without_an_answer_for_a_no() {
    let mut outcomes = up_to_the_search(&["ext4"]);
    outcomes.extend([Outcome::Done, Outcome::Done, Outcome::Done]);
    let (asked, end) = replay("/mnt", outcomes);
    assert_eq!(end, Replay::Waiting);
    assert_eq!(asked.last(), Some(&Action::Reboot));
}

#[test]
fn replay_of_a_declined_migration() {
    let mut outcomes = up_to_the_search(&["ext4"]);
    outcomes.extend([Outcome::Done, Outcome::Done, no(), Outcome::Done]);
    let (asked, end) = replay("/mnt", outcomes);
    assert_eq!(end, Replay::Failed { failure: Failure::Declined });
    assert_eq!(asked.last(), Some(&Action::Reboot));
    assert!(asked.iter().all(|action| action.kind() != ActionKind::Rename));
}

#[test]
fn replay_of_a_failed_copy_unmounts_and_fails() {
    let mut outcomes = up_to_the_search(&[]);
    outcomes.extend([
        names(&["@kde-linux_3"]),
        yes(),                 // etc below it
        Outcome::Done,         // mount
        Outcome::Unsuccessful, // copy
        Outcome::Done,         // unmount
    ]);
    let (asked, end) = replay("/mnt", outcomes);
    assert_eq!(
        end,
        Replay::Failed {
            failure: Failure::Fatal(btrfs_migrator::error::MigrationError::new(
                s("Directory copy failed"),
                s("V2 migration")
            )),
        }
    );
    let at = asked.len();
    assert!(matches!(&asked[at - 3], Action::MountOverlay { target, .. } if target == "/mnt/@kde-linux_3/etc"));
    assert_eq!(
        asked[at - 2],
        Action::CopyTree { source: s("/mnt/@kde-linux_3/etc"), target: s("/mnt/@system.import/etc") }
    );
    assert_eq!(asked[at - 1], Action::Unmount { target: s("/mnt/@kde-linux_3/etc") });
}
