use btrfs_migrator::action::{Action, ActionKind, Outcome, Poll};
use btrfs_migrator::context::MigrationContext;
use btrfs_migrator::error::Failure;
use btrfs_migrator::run::{begin_run_migrations, run_migrations};
use std::collections::BTreeMap;

#[derive(Clone, Copy, Debug, PartialEq, Eq)]
enum Kind {
    Dir,
    File,
    Subvolume,
}

/// A filesystem in memory that carries out actions the way a real one
/// would, and remembers what it was asked.
struct World {
    nodes: BTreeMap<String, Kind>,
    fstab: Option<Vec<String>>,
    answer: bool,
    shadowed: Vec<(String, BTreeMap<String, Kind>)>,
    log: Vec<Action>,
    overrule: Option<(fn(&Action) -> bool, Outcome)>,
    unmounts: Vec<String>,
    reboots: usize,
    modes: Vec<(String, u32)>,
    messages: Vec<String>,
    shown: Vec<Vec<String>>,
}

impl World {
    fn new(entries: &[(&str, Kind)]) -> World {
        let mut nodes = BTreeMap::new();
        for (path, kind) in entries {
            nodes.insert(path.to_string(), *kind);
        }
        World {
            nodes,
            fstab: None,
            answer: true,
            shadowed: Vec::new(),
            log: Vec::new(),
            overrule: None,
            unmounts: Vec::new(),
            reboots: 0,
            modes: Vec::new(),
            messages: Vec::new(),
            shown: Vec::new(),
        }
    }

    fn kind(&self, path: &str) -> Option<Kind> {
        self.nodes.get(path).copied()
    }

    fn has(&self, path: &str) -> bool {
        self.nodes.contains_key(path)
    }

    fn is_dir(&self, path: &str) -> bool {
        matches!(self.kind(path), Some(Kind::Dir) | Some(Kind::Subvolume))
    }

    fn parent_exists(&self, path: &str) -> bool {
        match path.rfind('/') {
            Some(0) | None => true,
            Some(at) => self.is_dir(&path[..at]),
        }
    }

    fn subtree(&self, path: &str) -> BTreeMap<String, Kind> {
        let below = format!("{}/", path);
        let mut found = BTreeMap::new();
        for (key, kind) in &self.nodes {
            if key.starts_with(&below) {
                found.insert(key[path.len()..].to_string(), *kind);
            }
        }
        found
    }

    fn children(&self, path: &str) -> Vec<String> {
        let mut names = Vec::new();
        for key in self.subtree(path).keys() {
            let name = &key[1..];
            if !name.contains('/') {
                names.push(name.to_string());
            }
        }
        names
    }

    fn remove_tree(&mut self, path: &str) {
        for key in self.subtree(path).keys() {
            self.nodes.remove(&format!("{}{}", path, key));
        }
        self.nodes.remove(path);
    }

    fn graft(&mut self, tree: &BTreeMap<String, Kind>, onto: &str) {
        for (key, kind) in tree {
            self.nodes.insert(format!("{}{}", onto, key), *kind);
        }
    }

    fn rejected(reason: &str) -> Outcome {
        Outcome::Failed { reason: reason.to_string() }
    }

    fn perform(&mut self, action: &Action) -> Outcome {
        self.log.push(action.clone());
        if let Some((matches, outcome)) = &self.overrule {
            if matches(action) {
                return outcome.clone();
            }
        }
        match action {
            Action::PathExists { path } => Outcome::Flag { value: self.has(path) },
            Action::IsDirectory { path } => Outcome::Flag { value: self.is_dir(path) },
            Action::InodeNumber { path } => match self.kind(path) {
                Some(Kind::Subvolume) => Outcome::Inode { number: 256 },
                Some(_) => Outcome::Inode { number: 4711 },
                None => World::rejected("No such file or directory"),
            },
            Action::ListDirectory { path } => {
                if self.is_dir(path) {
                    Outcome::Entries { names: self.children(path) }
                } else {
                    World::rejected("No such file or directory")
                }
            }
            Action::ReadFstab { .. } => match &self.fstab {
                Some(types) => Outcome::Entries { names: types.clone() },
                None => World::rejected("No such file or directory"),
            },
            Action::CreateSubvolume { path } => {
                if self.has(path) || !self.parent_exists(path) {
                    return World::rejected("Could not create subvolume");
                }
                self.nodes.insert(path.clone(), Kind::Subvolume);
                Outcome::Done
            }
            Action::CreateSnapshot { source, target } => {
                if self.kind(source) != Some(Kind::Subvolume)
                    || self.has(target)
                    || !self.parent_exists(target)
                {
                    return World::rejected("Could not create snapshot");
                }
                let tree = self.subtree(source);
                self.nodes.insert(target.clone(), Kind::Subvolume);
                self.graft(&tree, target);
                Outcome::Done
            }
            Action::DeleteSubvolume { path } => {
                if self.kind(path) != Some(Kind::Subvolume) {
                    return World::rejected("Not a subvolume");
                }
                self.remove_tree(path);
                Outcome::Done
            }
            Action::MountOverlay { options, target } => {
                let upper = options
                    .split(',')
                    .find_map(|option| option.strip_prefix("upperdir="))
                    .unwrap_or("")
                    .to_string();
                if !self.is_dir(target) || !self.is_dir(&upper) {
                    return Outcome::Unsuccessful;
                }
                self.shadowed.push((target.clone(), self.subtree(target)));
                let merged = self.subtree(&upper);
                self.graft(&merged, target);
                Outcome::Done
            }
            Action::Unmount { target } => {
                self.unmounts.push(target.clone());
                match self.shadowed.iter().position(|(place, _)| place == target) {
                    Some(at) => {
                        let (place, tree) = self.shadowed.remove(at);
                        for key in self.subtree(&place).keys() {
                            self.nodes.remove(&format!("{}{}", place, key));
                        }
                        self.graft(&tree, &place);
                        Outcome::Done
                    }
                    None => Outcome::Unsuccessful,
                }
            }
            Action::CopyTree { source, target } => {
                if !self.is_dir(source) || !self.parent_exists(target) {
                    return Outcome::Unsuccessful;
                }
                let tree = self.subtree(source);
                self.nodes.entry(target.clone()).or_insert(Kind::Dir);
                self.graft(&tree, target);
                Outcome::Done
            }
            Action::CopyContents { source, target } => {
                let source = source.strip_suffix("/.").unwrap_or(source).to_string();
                if !self.is_dir(&source) || !self.is_dir(target) {
                    return Outcome::Unsuccessful;
                }
                let tree = self.subtree(&source);
                self.graft(&tree, target);
                Outcome::Done
            }
            Action::CopyFile { source, target } => {
                if self.kind(source) != Some(Kind::File) || !self.parent_exists(target) {
                    return Outcome::Unsuccessful;
                }
                self.nodes.insert(target.clone(), Kind::File);
                Outcome::Done
            }
            Action::RemoveDirAll { path } => {
                if !self.is_dir(path) {
                    return World::rejected("Not a directory");
                }
                self.remove_tree(path);
                Outcome::Done
            }
            Action::RemoveFile { path } => {
                if self.kind(path) != Some(Kind::File) {
                    return World::rejected("Not a file");
                }
                self.nodes.remove(path);
                Outcome::Done
            }
            Action::CreateDirAll { path } => {
                let mut at = 0;
                while let Some(next) = path[at + 1..].find('/') {
                    at += next + 1;
                    self.nodes.entry(path[..at].to_string()).or_insert(Kind::Dir);
                }
                self.nodes.entry(path.clone()).or_insert(Kind::Dir);
                Outcome::Done
            }
            Action::Rename { from, to } => {
                if !self.has(from) || self.has(to) {
                    return World::rejected("Could not rename");
                }
                let kind = self.kind(from).unwrap();
                let tree = self.subtree(from);
                self.remove_tree(from);
                self.nodes.insert(to.clone(), kind);
                self.graft(&tree, to);
                Outcome::Done
            }
            Action::SetMode { path, mode } => {
                self.modes.push((path.clone(), *mode));
                Outcome::Done
            }
            Action::SettleDevices { .. } => Outcome::Done,
            Action::ShowMessage { text } => {
                self.messages.push(text.clone());
                Outcome::Done
            }
            Action::ShowContents { path } => {
                if self.is_dir(path) {
                    self.shown.push(self.children(path));
                    Outcome::Done
                } else {
                    World::rejected("No such file or directory")
                }
            }
            Action::HideSplash => Outcome::Done,
            Action::ShowQrCode { .. } => Outcome::Done,
            Action::Confirm { .. } => Outcome::Flag { value: self.answer },
            Action::Reboot => {
                self.reboots += 1;
                Outcome::Done
            }
        }
    }

    fn asked(&self, kind: ActionKind) -> usize {
        self.log.iter().filter(|action| action.kind() == kind).count()
    }

    fn first(&self, kind: ActionKind) -> Option<usize> {
        self.log.iter().position(|action| action.kind() == kind)
    }
}

fn run(world: &mut World, root: &str) -> (Result<(), Failure>, MigrationContext) {
    let mut ctx = MigrationContext::new(root);
    let (mut step, mut action) = begin_run_migrations(&ctx);
    for _ in 0..10_000 {
        let outcome = world.perform(&action);
        match run_migrations(&mut ctx, step, outcome) {
            Poll::Pending { step: next, action: asked } => {
                step = next;
                action = asked;
            }
            Poll::Ready { .. } => return (Ok(()), ctx),
            Poll::Failed { failure } => return (Err(failure), ctx),
        }
    }
    panic!("the run does not end");
}

fn legacy_layout() -> World {
    World::new(&[
        ("/mnt", Kind::Dir),
        ("/mnt/@kde-linux_42", Kind::Subvolume),
        ("/mnt/@kde-linux_42/etc", Kind::Dir),
        ("/mnt/@kde-linux_42/etc/hostname", Kind::File),
        ("/mnt/@kde-linux_42/var", Kind::Dir),
        ("/mnt/@kde-linux_42/var/log", Kind::Dir),
        ("/mnt/@etc-overlay", Kind::Subvolume),
        ("/mnt/@etc-overlay/upper", Kind::Dir),
        ("/mnt/@etc-overlay/upper/passwd", Kind::File),
        ("/mnt/@etc-overlay/work", Kind::Dir),
        ("/mnt/@var-overlay", Kind::Subvolume),
        ("/mnt/@var-overlay/upper", Kind::Dir),
        ("/mnt/@var-overlay/upper/lib", Kind::Dir),
        ("/mnt/@var-overlay/upper/lib/docker", Kind::Dir),
        ("/mnt/@var-overlay/upper/lib/docker/stale", Kind::File),
        ("/mnt/@var-overlay/work", Kind::Dir),
        ("/mnt/@home", Kind::Subvolume),
        ("/mnt/@home/alice", Kind::Dir),
        ("/mnt/@home/alice/notes.txt", Kind::File),
        ("/mnt/@root", Kind::Subvolume),
        ("/mnt/@snap", Kind::Subvolume),
        ("/mnt/@containers", Kind::Subvolume),
        ("/mnt/@docker", Kind::Subvolume),
        ("/mnt/@docker/image", Kind::File),
    ])
}

fn up_to_date_layout() -> World {
    World::new(&[
        ("/mnt", Kind::Dir),
        ("/mnt/@system", Kind::Subvolume),
        ("/mnt/@system/etc", Kind::Dir),
        ("/mnt/@home", Kind::Subvolume),
        ("/mnt/@home/.snapshots", Kind::Subvolume),
        ("/mnt/@home/alice", Kind::Dir),
    ])
}

fn plain_home_layout() -> World {
    World::new(&[
        ("/mnt", Kind::Dir),
        ("/mnt/@system", Kind::Subvolume),
        ("/mnt/@system/home", Kind::Dir),
        ("/mnt/@system/home/alice", Kind::Dir),
        ("/mnt/@system/home/alice/notes.txt", Kind::File),
        ("/mnt/@system/home/.snapshots", Kind::Dir),
        ("/mnt/@system/home/.snapshots/1", Kind::File),
        ("/mnt/@system/home/readme", Kind::File),
    ])
}

#[test]
fn fresh_layout_is_migrated_through_both_epochs() {
    let mut world = legacy_layout();
    let (result, ctx) = run(&mut world, "/mnt");
    assert_eq!(result, Ok(()));
    assert_eq!(ctx.current_step, 3);
    assert_eq!(ctx.rootfs_v1, "/mnt/@kde-linux_42");

    assert_eq!(world.kind("/mnt/@system"), Some(Kind::Subvolume));
    assert!(!world.has("/mnt/@system.import"));
    // etc and var hold the legacy files merged with what the overlay kept
    assert_eq!(world.kind("/mnt/@system/etc/hostname"), Some(Kind::File));
    assert_eq!(world.kind("/mnt/@system/etc/passwd"), Some(Kind::File));
    assert_eq!(world.kind("/mnt/@system/var/log"), Some(Kind::Dir));
    // the five subvolumes took their places; what predates them is gone
    assert_eq!(world.kind("/mnt/@system/root"), Some(Kind::Subvolume));
    assert_eq!(world.kind("/mnt/@system/snap"), Some(Kind::Subvolume));
    assert_eq!(world.kind("/mnt/@system/var/lib/containers"), Some(Kind::Subvolume));
    assert_eq!(world.kind("/mnt/@system/var/lib/docker"), Some(Kind::Subvolume));
    assert_eq!(world.kind("/mnt/@system/var/lib/docker/image"), Some(Kind::File));
    assert!(!world.has("/mnt/@system/var/lib/docker/stale"));
    // the legacy root filesystem is as it was
    assert_eq!(world.kind("/mnt/@kde-linux_42/etc/hostname"), Some(Kind::File));
    assert!(!world.has("/mnt/@kde-linux_42/etc/passwd"));
    assert!(world.shadowed.is_empty());

    // the third epoch: snapshots subvolume, empty, with its mode
    assert_eq!(world.kind("/mnt/@home"), Some(Kind::Subvolume));
    assert_eq!(world.kind("/mnt/@home/.snapshots"), Some(Kind::Subvolume));
    assert!(world.children("/mnt/@home/.snapshots").is_empty());
    assert_eq!(world.modes, vec![("/mnt/@home/.snapshots".to_string(), 0o755)]);
    // the home data that sat in the system subvolume moved to @home
    assert!(!world.has("/mnt/@system/home"));
    assert_eq!(world.kind("/mnt/@home/alice/notes.txt"), Some(Kind::File));
    assert!(!world.has("/mnt/@oldhome"));

    assert_eq!(
        world.messages,
        vec![
            "Migrating to v2 rootfs. This may take a while.".to_string(),
            "Migrating to v3 rootfs. Setting up @home structure.".to_string(),
        ]
    );
    assert_eq!(world.asked(ActionKind::Confirm), 0);
    assert_eq!(world.asked(ActionKind::Rename), 1);
}

#[test]
fn fresh_layout_asks_for_the_documented_actions_in_order() {
    let mut world = legacy_layout();
    let (result, _) = run(&mut world, "/mnt");
    assert_eq!(result, Ok(()));
    let path = |p: &str| p.to_string();
    let expected_start = vec![
        Action::PathExists { path: path("/mnt/@system") },
        Action::SettleDevices { timeout: 8 },
        Action::ShowMessage { text: path("Migrating to v2 rootfs. This may take a while.") },
        Action::PathExists { path: path("/mnt/@system.import") },
        Action::CreateSubvolume { path: path("/mnt/@system.import") },
        Action::ReadFstab { path: path("/mnt/@etc-overlay/upper/fstab") },
        Action::ListDirectory { path: path("/mnt") },
        Action::PathExists { path: path("/mnt/@kde-linux_42/etc") },
        Action::MountOverlay {
            options: path(
                "ro,lowerdir=/mnt/@kde-linux_42/etc,upperdir=/mnt/@etc-overlay/upper,workdir=/mnt/@etc-overlay/work,index=off,metacopy=off",
            ),
            target: path("/mnt/@kde-linux_42/etc"),
        },
        Action::CopyTree {
            source: path("/mnt/@kde-linux_42/etc"),
            target: path("/mnt/@system.import/etc"),
        },
        Action::Unmount { target: path("/mnt/@kde-linux_42/etc") },
        Action::MountOverlay {
            options: path(
                "ro,lowerdir=/mnt/@kde-linux_42/var,upperdir=/mnt/@var-overlay/upper,workdir=/mnt/@var-overlay/work,index=off,metacopy=off",
            ),
            target: path("/mnt/@kde-linux_42/var"),
        },
        Action::CopyTree {
            source: path("/mnt/@kde-linux_42/var"),
            target: path("/mnt/@system.import/var"),
        },
        Action::Unmount { target: path("/mnt/@kde-linux_42/var") },
        Action::PathExists { path: path("/mnt/@system.import/home") },
        Action::PathExists { path: path("/mnt/@system.import") },
        Action::CreateSnapshot {
            source: path("/mnt/@home"),
            target: path("/mnt/@system.import/home"),
        },
    ];
    assert_eq!(&world.log[..expected_start.len()], &expected_start[..]);
    let expected_end = vec![
        Action::PathExists { path: path("/mnt/@system.import/var/lib/docker") },
        Action::RemoveDirAll { path: path("/mnt/@system.import/var/lib/docker") },
        Action::PathExists { path: path("/mnt/@system.import/var/lib") },
        Action::CreateSnapshot {
            source: path("/mnt/@docker"),
            target: path("/mnt/@system.import/var/lib/docker"),
        },
        Action::Rename { from: path("/mnt/@system.import"), to: path("/mnt/@system") },
        Action::PathExists { path: path("/mnt/@home") },
        Action::PathExists { path: path("/mnt/@home/.snapshots") },
        Action::ShowMessage { text: path("Migrating to v3 rootfs. Setting up @home structure.") },
        Action::PathExists { path: path("/mnt/@home") },
        Action::PathExists { path: path("/mnt/@home/.snapshots") },
        Action::CreateSubvolume { path: path("/mnt/@home/.snapshots") },
        Action::SetMode { path: path("/mnt/@home/.snapshots"), mode: 0o755 },
        Action::PathExists { path: path("/mnt/@system/home") },
        Action::InodeNumber { path: path("/mnt/@system/home") },
        Action::ShowContents { path: path("/mnt/@system/home") },
        Action::PathExists { path: path("/mnt/@oldhome") },
        Action::CreateSnapshot { source: path("/mnt/@system/home"), target: path("/mnt/@oldhome") },
        Action::DeleteSubvolume { path: path("/mnt/@system/home") },
        Action::PathExists { path: path("/mnt/@home") },
        Action::ListDirectory { path: path("/mnt/@oldhome") },
        Action::IsDirectory { path: path("/mnt/@oldhome/alice") },
        Action::PathExists { path: path("/mnt/@home/alice") },
        Action::CopyContents { source: path("/mnt/@oldhome/alice/."), target: path("/mnt/@home/alice") },
        Action::DeleteSubvolume { path: path("/mnt/@oldhome") },
    ];
    let from = world.log.len() - expected_end.len();
    assert_eq!(&world.log[from..], &expected_end[..]);
}

#[test]
fn up_to_date_layout_is_left_alone() {
    let mut world = up_to_date_layout();
    let before = world.nodes.clone();
    let (result, ctx) = run(&mut world, "/mnt");
    assert_eq!(result, Ok(()));
    assert_eq!(world.nodes, before);
    assert_eq!(
        world.log,
        vec![
            Action::PathExists { path: "/mnt/@system".to_string() },
            Action::PathExists { path: "/mnt/@home".to_string() },
            Action::PathExists { path: "/mnt/@home/.snapshots".to_string() },
        ]
    );
    assert!(world.log.iter().all(|action| action.is_observation()));
    assert_eq!(ctx.current_step, 0);
    assert!(world.messages.is_empty());
}

#[test]
fn second_run_after_a_migration_changes_nothing() {
    let mut world = legacy_layout();
    assert_eq!(run(&mut world, "/mnt").0, Ok(()));
    let before = world.nodes.clone();
    world.log.clear();
    assert_eq!(run(&mut world, "/mnt").0, Ok(()));
    assert_eq!(world.nodes, before);
    assert_eq!(world.log.len(), 3);
    assert!(world.log.iter().all(|action| action.is_observation()));
}

#[test]
fn plain_home_directory_is_relocated_through_a_backup() {
    let mut world = plain_home_layout();
    let (result, ctx) = run(&mut world, "/mnt");
    assert_eq!(result, Ok(()));
    assert_eq!(ctx.current_step, 2);
    // the legacy home is emptied, not removed
    assert_eq!(world.kind("/mnt/@system/home"), Some(Kind::Dir));
    assert!(world.children("/mnt/@system/home").is_empty());
    // the home subvolume holds the data, but not the old snapshots
    assert_eq!(world.kind("/mnt/@home"), Some(Kind::Subvolume));
    assert_eq!(world.kind("/mnt/@home/alice/notes.txt"), Some(Kind::File));
    assert_eq!(world.kind("/mnt/@home/readme"), Some(Kind::File));
    assert_eq!(world.kind("/mnt/@home/.snapshots"), Some(Kind::Subvolume));
    assert!(world.children("/mnt/@home/.snapshots").is_empty());
    // the backup is gone
    assert!(!world.has("/mnt/@oldhome"));

    let path = |p: &str| p.to_string();
    let expected = vec![
        Action::PathExists { path: path("/mnt/@system") },
        Action::PathExists { path: path("/mnt/@home") },
        Action::ShowMessage { text: path("Migrating to v3 rootfs. Setting up @home structure.") },
        Action::PathExists { path: path("/mnt/@home") },
        Action::CreateSubvolume { path: path("/mnt/@home") },
        Action::PathExists { path: path("/mnt/@home/.snapshots") },
        Action::CreateSubvolume { path: path("/mnt/@home/.snapshots") },
        Action::SetMode { path: path("/mnt/@home/.snapshots"), mode: 0o755 },
        Action::PathExists { path: path("/mnt/@system/home") },
        Action::InodeNumber { path: path("/mnt/@system/home") },
        Action::ShowContents { path: path("/mnt/@system/home") },
        Action::PathExists { path: path("/mnt/@oldhome") },
        Action::CreateSubvolume { path: path("/mnt/@oldhome") },
        Action::PathExists { path: path("/mnt/@oldhome") },
        Action::CopyContents { source: path("/mnt/@system/home/."), target: path("/mnt/@oldhome") },
        Action::ListDirectory { path: path("/mnt/@system/home") },
        Action::IsDirectory { path: path("/mnt/@system/home/.snapshots") },
        Action::RemoveDirAll { path: path("/mnt/@system/home/.snapshots") },
        Action::IsDirectory { path: path("/mnt/@system/home/alice") },
        Action::RemoveDirAll { path: path("/mnt/@system/home/alice") },
        Action::IsDirectory { path: path("/mnt/@system/home/readme") },
        Action::RemoveFile { path: path("/mnt/@system/home/readme") },
        Action::PathExists { path: path("/mnt/@home") },
        Action::ListDirectory { path: path("/mnt/@oldhome") },
        Action::IsDirectory { path: path("/mnt/@oldhome/alice") },
        Action::PathExists { path: path("/mnt/@home/alice") },
        Action::CreateDirAll { path: path("/mnt/@home/alice") },
        Action::CopyContents { source: path("/mnt/@oldhome/alice/."), target: path("/mnt/@home/alice") },
        Action::IsDirectory { path: path("/mnt/@oldhome/readme") },
        Action::CopyFile { source: path("/mnt/@oldhome/readme"), target: path("/mnt/@home/readme") },
        Action::DeleteSubvolume { path: path("/mnt/@oldhome") },
    ];
    assert_eq!(world.log, expected);
}

#[test]
fn declined_migration_reboots_and_never_commits() {
    let mut world = legacy_layout();
    world.fstab = Some(vec!["ext4".to_string()]);
    world.answer = false;
    let (result, _) = run(&mut world, "/mnt");
    assert_eq!(result, Err(Failure::Declined));
    assert_eq!(result.unwrap_err().describe(), "Migration aborted by user");
    assert_eq!(world.reboots, 1);
    assert_eq!(world.asked(ActionKind::Rename), 0);
    assert_eq!(world.asked(ActionKind::CopyTree), 0);
    assert_eq!(world.asked(ActionKind::MountOverlay), 0);
    assert!(!world.has("/mnt/@system"));
    // the scratch subvolume was made before the operator was asked, and stays
    assert_eq!(world.kind("/mnt/@system.import"), Some(Kind::Subvolume));
    assert_eq!(
        &world.log[world.log.len() - 4..],
        &[
            Action::HideSplash,
            Action::ShowQrCode { url: "https://community.kde.org/KDE_Linux/RootFSv2".to_string() },
            Action::Confirm {
                concerning: 1,
                prompt: "Do you want to continue with auto-migration?".to_string(),
            },
            Action::Reboot,
        ]
    );
}

#[test]
fn declined_migration_reports_a_reboot_that_cannot_be_asked_for() {
    let mut world = legacy_layout();
    world.fstab = Some(vec!["ext4".to_string()]);
    world.answer = false;
    world.overrule = Some((
        |action| matches!(action, Action::Reboot),
        Outcome::Failed { reason: "systemctl: not found".to_string() },
    ));
    let (result, _) = run(&mut world, "/mnt");
    assert_eq!(
        result.unwrap_err().describe(),
        "User abort: Failed to reboot: systemctl: not found"
    );
    assert_eq!(world.asked(ActionKind::Rename), 0);
}

#[test]
fn swap_only_mount_table_never_prompts() {
    let mut world = legacy_layout();
    world.fstab = Some(vec!["swap".to_string(), "swap".to_string()]);
    world.answer = false;
    let (result, _) = run(&mut world, "/mnt");
    assert_eq!(result, Ok(()));
    assert_eq!(world.asked(ActionKind::Confirm), 0);
    assert_eq!(world.asked(ActionKind::HideSplash), 0);
    assert_eq!(world.reboots, 0);
}

#[test]
fn concerning_mount_table_prompts_before_any_copy() {
    let mut world = legacy_layout();
    world.fstab = Some(vec!["swap".to_string(), "ext4".to_string(), "vfat".to_string()]);
    world.answer = true;
    let (result, _) = run(&mut world, "/mnt");
    assert_eq!(result, Ok(()));
    assert_eq!(world.asked(ActionKind::Confirm), 1);
    let prompt = world.first(ActionKind::Confirm).unwrap();
    assert!(matches!(&world.log[prompt], Action::Confirm { concerning: 2, .. }));
    assert!(prompt < world.first(ActionKind::CopyTree).unwrap());
    assert!(prompt < world.first(ActionKind::MountOverlay).unwrap());
    assert!(prompt < world.first(ActionKind::ListDirectory).unwrap());
    assert_eq!(world.kind("/mnt/@system"), Some(Kind::Subvolume));
}

#[test]
fn failed_copy_still_unmounts_exactly_once_and_never_commits() {
    let mut world = legacy_layout();
    world.overrule = Some((|action| matches!(action, Action::CopyTree { .. }), Outcome::Unsuccessful));
    let (result, _) = run(&mut world, "/mnt");
    assert_eq!(result.unwrap_err().describe(), "V2 migration: Directory copy failed");
    assert_eq!(world.asked(ActionKind::MountOverlay), 1);
    assert_eq!(world.unmounts, vec!["/mnt/@kde-linux_42/etc".to_string()]);
    assert!(world.shadowed.is_empty());
    assert_eq!(world.asked(ActionKind::Rename), 0);
    assert!(!world.has("/mnt/@system"));
    assert_eq!(world.log.last(), Some(&Action::Unmount { target: "/mnt/@kde-linux_42/etc".to_string() }));
}

#[test]
fn copy_that_cannot_start_still_unmounts() {
    let mut world = legacy_layout();
    world.overrule = Some((
        |action| matches!(action, Action::CopyTree { .. }),
        Outcome::Failed { reason: "cp: not found".to_string() },
    ));
    let (result, _) = run(&mut world, "/mnt");
    assert_eq!(
        result.unwrap_err().describe(),
        "Directory copy: Failed to copy directory: cp: not found"
    );
    assert_eq!(world.unmounts.len(), 1);
    assert_eq!(world.asked(ActionKind::Rename), 0);
}

#[test]
fn failed_mount_ends_the_run_without_an_unmount() {
    let mut world = legacy_layout();
    world.overrule = Some((|action| matches!(action, Action::MountOverlay { .. }), Outcome::Unsuccessful));
    let (result, _) = run(&mut world, "/mnt");
    assert_eq!(result.unwrap_err().describe(), "V2 migration: Overlay mount failed");
    assert!(world.unmounts.is_empty());
    assert_eq!(world.asked(ActionKind::CopyTree), 0);
    assert_eq!(world.asked(ActionKind::Rename), 0);
}

#[test]
fn mount_that_cannot_start_is_reported_with_its_reason() {
    let mut world = legacy_layout();
    world.overrule = Some((
        |action| matches!(action, Action::MountOverlay { .. }),
        Outcome::Failed { reason: "mount: not found".to_string() },
    ));
    let (result, _) = run(&mut world, "/mnt");
    assert_eq!(
        result.unwrap_err().describe(),
        "Overlay mount: Failed to mount overlay: mount: not found"
    );
}

#[test]
fn failed_unmount_is_fatal_and_var_is_not_processed() {
    let mut world = legacy_layout();
    world.overrule = Some((|action| matches!(action, Action::Unmount { .. }), Outcome::Unsuccessful));
    let (result, _) = run(&mut world, "/mnt");
    assert_eq!(result.unwrap_err().describe(), "V2 migration: Overlay unmount failed");
    assert_eq!(world.asked(ActionKind::MountOverlay), 1);
    assert_eq!(world.asked(ActionKind::Unmount), 1);
    assert_eq!(world.asked(ActionKind::CopyTree), 1);
    assert_eq!(world.asked(ActionKind::CreateSnapshot), 0);
    assert_eq!(world.asked(ActionKind::Rename), 0);
    assert!(!world.has("/mnt/@system"));
    assert!(!world.has("/mnt/@system.import/var"));
    assert_eq!(world.log.last(), Some(&Action::Unmount { target: "/mnt/@kde-linux_42/etc".to_string() }));
}

#[test]
fn unmount_that_cannot_start_is_fatal() {
    let mut world = legacy_layout();
    world.overrule = Some((
        |action| matches!(action, Action::Unmount { target } if target.ends_with("/var")),
        Outcome::Failed { reason: "umount: not found".to_string() },
    ));
    let (result, _) = run(&mut world, "/mnt");
    assert_eq!(
        result.unwrap_err().describe(),
        "Overlay unmount: Failed to unmount overlay: umount: not found"
    );
    assert_eq!(world.asked(ActionKind::Unmount), 2);
    assert_eq!(world.asked(ActionKind::CreateSnapshot), 0);
    assert_eq!(world.asked(ActionKind::Rename), 0);
}

#[test]
fn legacy_home_contents_are_shown_before_the_backup() {
    let mut world = plain_home_layout();
    let (result, _) = run(&mut world, "/mnt");
    assert_eq!(result, Ok(()));
    assert_eq!(
        world.shown,
        vec![vec![".snapshots".to_string(), "alice".to_string(), "readme".to_string()]]
    );
    let shown = world.first(ActionKind::ShowContents).unwrap();
    assert_eq!(world.asked(ActionKind::ShowContents), 1);
    assert!(shown < world.first(ActionKind::CreateSubvolume).map_or(usize::MAX, |_| {
        world.log.iter().position(|action| matches!(action, Action::CreateSubvolume { path } if path == "/mnt/@oldhome")).unwrap()
    }));

    // a listing that cannot be shown stops nothing
    let mut world = plain_home_layout();
    world.overrule = Some((
        |action| matches!(action, Action::ShowContents { .. }),
        Outcome::Failed { reason: "Permission denied".to_string() },
    ));
    assert_eq!(run(&mut world, "/mnt").0, Ok(()));
    assert!(!world.has("/mnt/@oldhome"));
}

#[test]
fn each_mount_is_unmounted_once_on_success() {
    let mut world = legacy_layout();
    let (result, _) = run(&mut world, "/mnt");
    assert_eq!(result, Ok(()));
    assert_eq!(world.asked(ActionKind::MountOverlay), 2);
    assert_eq!(
        world.unmounts,
        vec!["/mnt/@kde-linux_42/etc".to_string(), "/mnt/@kde-linux_42/var".to_string()]
    );
    for (at, action) in world.log.iter().enumerate() {
        if let Action::MountOverlay { target, .. } = action {
            assert!(matches!(&world.log[at + 1], Action::CopyTree { source, .. } if source == target));
            assert_eq!(world.log[at + 2], Action::Unmount { target: target.clone() });
        }
    }
}

#[test]
fn failed_snapshot_never_commits() {
    let mut world = legacy_layout();
    world.overrule = Some((
        |action| matches!(action, Action::CreateSnapshot { source, .. } if source == "/mnt/@snap"),
        Outcome::Failed { reason: "No space left on device".to_string() },
    ));
    let (result, _) = run(&mut world, "/mnt");
    assert_eq!(
        result.unwrap_err().describe(),
        "Snapshot creation: Failed to create snapshot: No space left on device"
    );
    assert_eq!(world.asked(ActionKind::Rename), 0);
    assert!(!world.has("/mnt/@system"));
    assert_eq!(world.kind("/mnt/@system.import"), Some(Kind::Subvolume));
    assert_eq!(world.asked(ActionKind::CreateSnapshot), 3);
}

#[test]
fn failed_commit_is_fatal() {
    let mut world = legacy_layout();
    world.overrule = Some((
        |action| matches!(action, Action::Rename { .. }),
        Outcome::Failed { reason: "Device or resource busy".to_string() },
    ));
    let (result, _) = run(&mut world, "/mnt");
    assert_eq!(
        result.unwrap_err().describe(),
        "V2 finalization: Failed to rename import to system: Device or resource busy"
    );
    assert_eq!(world.asked(ActionKind::ShowMessage), 1);
}

#[test]
fn missing_legacy_rootfs_is_fatal() {
    let mut world = World::new(&[
        ("/mnt", Kind::Dir),
        ("/mnt/@home", Kind::Subvolume),
        ("/mnt/@kde-linux_7", Kind::Subvolume),
        ("/mnt/@kde-linux_x", Kind::Subvolume),
        ("/mnt/@kde-linux_x/etc", Kind::Dir),
    ]);
    let (result, _) = run(&mut world, "/mnt");
    assert_eq!(result.unwrap_err().describe(), "V2 migration: No legacy rootfs v1 found");
    assert_eq!(world.asked(ActionKind::MountOverlay), 0);
    assert_eq!(world.asked(ActionKind::Rename), 0);
    // the scratch subvolume was made before the search
    assert_eq!(world.kind("/mnt/@system.import"), Some(Kind::Subvolume));
}

#[test]
fn newest_legacy_rootfs_is_the_source() {
    let mut world = legacy_layout();
    for (path, kind) in [
        ("/mnt/@kde-linux_5", Kind::Subvolume),
        ("/mnt/@kde-linux_5/etc", Kind::Dir),
        ("/mnt/@kde-linux_5/var", Kind::Dir),
        ("/mnt/@kde-linux_100", Kind::Subvolume),
        ("/mnt/@kde-linux_99x", Kind::Subvolume),
        ("/mnt/@kde-linux_99x/etc", Kind::Dir),
    ] {
        world.nodes.insert(path.to_string(), kind);
    }
    let (result, ctx) = run(&mut world, "/mnt");
    assert_eq!(result, Ok(()));
    // 100 has no etc, 99x is no number: 42 beats 5
    assert_eq!(ctx.rootfs_v1, "/mnt/@kde-linux_42");
    assert!(world
        .log
        .iter()
        .all(|action| !matches!(action, Action::MountOverlay { target, .. } if !target.starts_with("/mnt/@kde-linux_42/"))));
    // only names with the prefix were probed
    let probes: Vec<&Action> = world
        .log
        .iter()
        .filter(|action| matches!(action, Action::PathExists { path } if path.ends_with("/etc")))
        .collect();
    assert_eq!(probes.len(), 4);
}

#[test]
fn stale_scratch_subvolume_is_replaced() {
    let mut world = legacy_layout();
    world.nodes.insert("/mnt/@system.import".to_string(), Kind::Subvolume);
    world.nodes.insert("/mnt/@system.import/leftover".to_string(), Kind::File);
    let (result, _) = run(&mut world, "/mnt");
    assert_eq!(result, Ok(()));
    assert!(!world.has("/mnt/@system/leftover"));
    assert_eq!(world.log[4], Action::DeleteSubvolume { path: "/mnt/@system.import".to_string() });
    assert_eq!(world.log[5], Action::CreateSubvolume { path: "/mnt/@system.import".to_string() });
}

#[test]
fn stale_scratch_that_cannot_be_deleted_is_fatal() {
    let mut world = legacy_layout();
    world.nodes.insert("/mnt/@system.import".to_string(), Kind::Dir);
    let (result, _) = run(&mut world, "/mnt");
    assert_eq!(
        result.unwrap_err().describe(),
        "V2 preparation: Failed to remove existing import: Subvolume deletion: Failed to delete subvolume: Not a subvolume"
    );
}

#[test]
fn interrupted_transfer_keeps_the_backup() {
    let mut world = plain_home_layout();
    world.overrule = Some((|action| matches!(action, Action::CopyFile { .. }), Outcome::Unsuccessful));
    let (result, _) = run(&mut world, "/mnt");
    assert_eq!(result.unwrap_err().describe(), "Data transfer: File copy failed");
    // the backup is still there, with everything in it
    assert_eq!(world.kind("/mnt/@oldhome"), Some(Kind::Subvolume));
    assert_eq!(world.kind("/mnt/@oldhome/alice/notes.txt"), Some(Kind::File));
    assert_eq!(world.kind("/mnt/@oldhome/readme"), Some(Kind::File));
    // the legacy home was emptied before the transfer began
    assert!(world.children("/mnt/@system/home").is_empty());
    assert_eq!(world.asked(ActionKind::DeleteSubvolume), 0);
}

#[test]
fn failed_backup_leaves_the_legacy_home_untouched() {
    let mut world = plain_home_layout();
    world.overrule = Some((
        |action| matches!(action, Action::CopyContents { target, .. } if target == "/mnt/@oldhome"),
        Outcome::Unsuccessful,
    ));
    let before = world.subtree("/mnt/@system/home");
    let (result, _) = run(&mut world, "/mnt");
    assert_eq!(result.unwrap_err().describe(), "Directory copy: Directory copy failed");
    assert_eq!(world.subtree("/mnt/@system/home"), before);
    assert_eq!(world.asked(ActionKind::RemoveDirAll), 0);
    assert_eq!(world.asked(ActionKind::RemoveFile), 0);
    assert_eq!(world.asked(ActionKind::ListDirectory), 0);
}

#[test]
fn stale_backup_is_removed_before_the_new_one() {
    let mut world = plain_home_layout();
    world.nodes.insert("/mnt/@oldhome".to_string(), Kind::Subvolume);
    world.nodes.insert("/mnt/@oldhome/ancient".to_string(), Kind::File);
    let (result, _) = run(&mut world, "/mnt");
    assert_eq!(result, Ok(()));
    assert!(!world.has("/mnt/@home/ancient"));
    assert_eq!(world.asked(ActionKind::DeleteSubvolume), 2);
    let first_delete = world.first(ActionKind::DeleteSubvolume).unwrap();
    assert_eq!(world.log[first_delete + 1], Action::CreateSubvolume { path: "/mnt/@oldhome".to_string() });
}

#[test]
fn stale_backup_that_cannot_be_deleted_is_fatal() {
    let mut world = plain_home_layout();
    world.nodes.insert("/mnt/@oldhome".to_string(), Kind::Dir);
    let before = world.subtree("/mnt/@system/home");
    let (result, _) = run(&mut world, "/mnt");
    assert_eq!(
        result.unwrap_err().describe(),
        "Backup preparation: Failed to remove existing backup: Subvolume deletion: Failed to delete subvolume: Not a subvolume"
    );
    assert_eq!(world.subtree("/mnt/@system/home"), before);
}

#[test]
fn no_legacy_home_means_nothing_to_relocate() {
    let mut world = World::new(&[("/mnt", Kind::Dir), ("/mnt/@system", Kind::Subvolume)]);
    let (result, ctx) = run(&mut world, "/mnt");
    assert_eq!(result, Ok(()));
    assert_eq!(ctx.current_step, 2);
    assert_eq!(world.kind("/mnt/@home"), Some(Kind::Subvolume));
    assert_eq!(world.kind("/mnt/@home/.snapshots"), Some(Kind::Subvolume));
    assert_eq!(world.log.last(), Some(&Action::PathExists { path: "/mnt/@system/home".to_string() }));
    assert!(!world.has("/mnt/@oldhome"));
}

#[test]
fn home_without_snapshots_still_needs_the_third_epoch() {
    let mut world = World::new(&[
        ("/mnt", Kind::Dir),
        ("/mnt/@system", Kind::Subvolume),
        ("/mnt/@home", Kind::Subvolume),
    ]);
    let (result, _) = run(&mut world, "/mnt");
    assert_eq!(result, Ok(()));
    assert_eq!(world.kind("/mnt/@home/.snapshots"), Some(Kind::Subvolume));
    assert_eq!(world.asked(ActionKind::CreateSubvolume), 1);
    assert_eq!(world.asked(ActionKind::SetMode), 1);
}

#[test]
fn splash_message_that_cannot_be_shown_is_fatal() {
    let mut world = legacy_layout();
    world.overrule = Some((
        |action| matches!(action, Action::ShowMessage { .. }),
        Outcome::Failed { reason: "plymouth: not found".to_string() },
    ));
    let (result, _) = run(&mut world, "/mnt");
    assert_eq!(
        result.unwrap_err().describe(),
        "UI: Failed to show plymouth message: plymouth: not found"
    );
    assert_eq!(world.asked(ActionKind::CreateSubvolume), 0);
}

#[test]
fn splash_message_that_reports_failure_is_ignored() {
    let mut world = legacy_layout();
    world.overrule = Some((|action| matches!(action, Action::ShowMessage { .. }), Outcome::Unsuccessful));
    let (result, _) = run(&mut world, "/mnt");
    assert_eq!(result, Ok(()));
}

#[test]
fn devices_that_cannot_settle_are_fatal_only_when_the_command_cannot_start() {
    let mut world = legacy_layout();
    world.overrule = Some((|action| matches!(action, Action::SettleDevices { .. }), Outcome::Unsuccessful));
    assert_eq!(run(&mut world, "/mnt").0, Ok(()));

    let mut world = legacy_layout();
    world.overrule = Some((
        |action| matches!(action, Action::SettleDevices { .. }),
        Outcome::Failed { reason: "udevadm: not found".to_string() },
    ));
    assert_eq!(
        run(&mut world, "/mnt").0.unwrap_err().describe(),
        "V2 migration: Failed to settle devices: udevadm: not found"
    );
}

#[test]
fn unreadable_root_directory_is_fatal() {
    let mut world = legacy_layout();
    world.overrule = Some((
        |action| matches!(action, Action::ListDirectory { path } if path == "/mnt"),
        Outcome::Failed { reason: "Permission denied".to_string() },
    ));
    assert_eq!(
        run(&mut world, "/mnt").0.unwrap_err().describe(),
        "V1 detection: Failed to read root directory: Permission denied"
    );

    let mut world = legacy_layout();
    world.overrule = Some((
        |action| matches!(action, Action::ListDirectory { path } if path == "/mnt"),
        Outcome::EntryFailed { reason: "Input/output error".to_string() },
    ));
    assert_eq!(
        run(&mut world, "/mnt").0.unwrap_err().describe(),
        "V1 detection: Failed to read directory entry: Input/output error"
    );
}

#[test]
fn root_with_trailing_separator_gives_the_same_paths() {
    let mut world = up_to_date_layout();
    let (result, _) = run(&mut world, "/mnt/");
    assert_eq!(result, Ok(()));
    assert_eq!(world.log[2], Action::PathExists { path: "/mnt/@home/.snapshots".to_string() });
}
