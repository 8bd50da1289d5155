use dot::error::DotError;
use dot::reconcile::{backup_dir, decide, decide_with_backup, setup, LinkPlan, Step, TargetState};
use dot::walk::{relative_files, WalkEntry};

fn entry(path: &str, is_file: bool) -> WalkEntry {
    WalkEntry { path: path.to_string(), is_file }
}

fn fake_repo(root: &str) -> Vec<WalkEntry> {
    vec![
        entry(root, false),
        entry(&format!("{}/HOME", root), false),
        entry(&format!("{}/HOME/.config", root), false),
        entry(&format!("{}/HOME/.config/fish", root), false),
        entry(&format!("{}/HOME/.config/fish/config.fish", root), true),
        entry(&format!("{}/HOME/.gitconfig", root), true),
        entry(&format!("{}/ROOT", root), false),
        entry(&format!("{}/ROOT/var", root), false),
        entry(&format!("{}/ROOT/var/etc", root), false),
        entry(&format!("{}/ROOT/var/etc/config", root), false),
        entry(&format!("{}/ROOT/var/etc/config/emacs.conf", root), true),
    ]
}

fn home_plans(home: &str, checkout: &str) -> Vec<LinkPlan> {
    let files: Vec<String> = relative_files(checkout, &fake_repo(checkout))
        .into_iter()
        .filter(|f| !f.starts_with("ROOT"))
        .collect();
    setup(&files, Some(home), checkout).unwrap()
}

#[test]
fn test_walkdir_walks_through_all_the_files() {
    let root = "/tmp/walkdir_walks_through_all_the_files/home/dotfiles";
    let mut files = relative_files(root, &fake_repo(root));
    files.sort();
    let expected = vec![
        "HOME/.config/fish/config.fish",
        "HOME/.gitconfig",
        "ROOT/var/etc/config/emacs.conf",
    ];
    assert_eq!(files, expected);
}

#[test]
fn walk_with_trailing_separator_and_other_entries() {
    let entries = vec![
        entry("/c/", false),
        entry("/c/HOME/a", true),
        entry("/c/.git/HEAD", true),
        entry("/other/HOME/b", true),
        entry("/c/HOME/sock", false),
    ];
    assert_eq!(relative_files("/c/", &entries), vec!["HOME/a", ".git/HEAD"]);
    assert_eq!(relative_files("/c", &entries), vec!["HOME/a", ".git/HEAD"]);
}

#[test]
fn test_create_symlinks_will_create_symlinks_where_required() {
    let checkout = "/t/create_symlinks_where_required/home/dotfiles";
    let home = "/t/create_symlinks_where_required/home";
    let plans = home_plans(home, checkout);
    assert_eq!(plans.len(), 2);
    let fish = &plans[0];
    assert_eq!(fish.target, format!("{}/.config/fish/config.fish", home));
    assert_eq!(fish.dest, format!("{}/HOME/.config/fish/config.fish", checkout));
    assert_eq!(decide(fish, &TargetState::Absent), Ok(Step::Link));
    let git = &plans[1];
    assert_eq!(git.target, format!("{}/.gitconfig", home));
    let existing = TargetState::LinkTo(format!("{}/HOME/.gitconfig", checkout));
    assert_eq!(decide(git, &existing), Ok(Step::AlreadyCorrect));
}

#[test]
fn test_throws_error_if_a_file_already_exists() {
    let checkout = "/t/error_if_file_already_exists/home/dotfiles";
    let home = "/t/error_if_file_already_exists/home";
    let plans = home_plans(home, checkout);
    let git = plans.iter().find(|p| p.repo_path == "HOME/.gitconfig").unwrap();
    match decide(git, &TargetState::Occupied) {
        Ok(_) => panic!("Expected to throw error since .gitconfig should already exist"),
        Err(e) => {
            assert_eq!(e, DotError::AlreadyExists { path: format!("{}/.gitconfig", home) });
            assert!(e.describe().contains("gitconfig already exists"));
        }
    }
}

#[test]
fn test_create_symlinks_will_error_if_current_symlink_is_wrong() {
    let checkout = "/t/error_if_current_symlink_is_wrong/home/dotfiles";
    let home = "/t/error_if_current_symlink_is_wrong/home";
    let plans = home_plans(home, checkout);
    let git = plans.iter().find(|p| p.repo_path == "HOME/.gitconfig").unwrap();
    let state = TargetState::LinkTo("/fake_location/.gitconfig".to_string());
    match decide(git, &state) {
        Ok(_) => panic!("Expected to throw error since .gitconfig points to wrong location"),
        Err(e) => {
            assert_eq!(
                e,
                DotError::WrongLink {
                    path: format!("{}/.gitconfig", home),
                    expected: format!("{}/HOME/.gitconfig", checkout),
                    actual: "/fake_location/.gitconfig".to_string(),
                }
            );
            assert!(e.describe().contains("gitconfig linked to wrong file"));
            assert_eq!(
                e.describe(),
                format!(
                    "{}/.gitconfig linked to wrong file: /fake_location/.gitconfig instead of {}/HOME/.gitconfig",
                    home, checkout
                )
            );
        }
    }
}

#[test]
fn setup_on_single_gitconfig_links_it_from_home() {
    let paths = vec!["HOME/.gitconfig".to_string()];
    let plans = setup(&paths, Some("/home/u"), "/home/u/dotfiles").unwrap();
    assert_eq!(
        plans,
        vec![LinkPlan {
            repo_path: "HOME/.gitconfig".to_string(),
            target: "/home/u/.gitconfig".to_string(),
            dest: "/home/u/dotfiles/HOME/.gitconfig".to_string(),
        }]
    );
    assert_eq!(decide(&plans[0], &TargetState::Absent), Ok(Step::Link));
}

#[test]
fn second_run_finds_every_link_correct() {
    let checkout = "/home/u/dotfiles";
    let paths = relative_files(checkout, &fake_repo(checkout));
    let plans = setup(&paths, Some("/home/u"), checkout).unwrap();
    assert_eq!(plans.len(), 3);
    for p in &plans {
        assert_eq!(decide(p, &TargetState::Absent), Ok(Step::Link));
        let linked = TargetState::LinkTo(p.dest.clone());
        assert_eq!(decide(p, &linked), Ok(Step::AlreadyCorrect));
    }
    assert_eq!(plans[2].target, "/var/etc/config/emacs.conf");
}

#[test]
fn setup_skips_unmarked_and_needs_home_only_for_home_paths() {
    let paths = vec![".git/HEAD".to_string(), "ROOT/etc/hosts".to_string()];
    let plans = setup(&paths, None, "/d").unwrap();
    assert_eq!(plans.len(), 1);
    assert_eq!(plans[0].target, "/etc/hosts");
    assert_eq!(plans[0].dest, "/d/ROOT/etc/hosts");

    let paths = vec!["ROOT/etc/hosts".to_string(), "HOME/.gitconfig".to_string()];
    assert_eq!(setup(&paths, None, "/d"), Err(DotError::MissingHome));
    assert_eq!(setup(&Vec::new(), None, "/d"), Ok(Vec::new()));
}

#[test]
fn added_file_is_already_correct_on_setup() {
    let home = "/home/u";
    let checkout = "/home/u/dotfiles";
    let added = dot::add::add_file("/home/u/.tool/conf", Some(home), checkout).unwrap();
    let plans = setup(&vec![added.repo_path.clone()], Some(home), checkout).unwrap();
    assert_eq!(plans[0].target, "/home/u/.tool/conf");
    assert_eq!(plans[0].dest, added.stored);
    let state = TargetState::LinkTo(added.stored.clone());
    assert_eq!(decide(&plans[0], &state), Ok(Step::AlreadyCorrect));
}

#[test]
fn backup_policy_moves_plain_entries_aside() {
    let dir = backup_dir("/home/u", "2024-01-02T03-04-05");
    assert_eq!(dir, "/home/u/.dotfiles_backup/2024-01-02T03-04-05");
    let plans = setup(&vec!["HOME/.gitconfig".to_string()], Some("/home/u"), "/home/u/dotfiles")
        .unwrap();
    let plan = &plans[0];
    assert_eq!(
        decide_with_backup(plan, &TargetState::Occupied, &dir),
        Ok(Step::MoveAside {
            to: "/home/u/.dotfiles_backup/2024-01-02T03-04-05/HOME/.gitconfig".to_string()
        })
    );
    assert_eq!(decide_with_backup(plan, &TargetState::Absent, &dir), Ok(Step::Link));
    let right = TargetState::LinkTo("/home/u/dotfiles/HOME/.gitconfig".to_string());
    assert_eq!(decide_with_backup(plan, &right, &dir), Ok(Step::AlreadyCorrect));
    let wrong = TargetState::LinkTo("/elsewhere".to_string());
    assert_eq!(
        decide_with_backup(plan, &wrong, &dir),
        Err(DotError::WrongLink {
            path: "/home/u/.gitconfig".to_string(),
            expected: "/home/u/dotfiles/HOME/.gitconfig".to_string(),
            actual: "/elsewhere".to_string(),
        })
    );
}

#[test]
fn link_with_redundant_separators_counts_as_correct() {
    let plans = setup(&vec!["HOME/.gitconfig".to_string()], Some("/home/u"), "/home/u/dotfiles")
        .unwrap();
    let state = TargetState::LinkTo("/home/u/dotfiles//HOME/./.gitconfig".to_string());
    assert_eq!(decide(&plans[0], &state), Ok(Step::AlreadyCorrect));
    let relative = TargetState::LinkTo("home/u/dotfiles/HOME/.gitconfig".to_string());
    assert!(decide(&plans[0], &relative).is_err());
}

#[test]
fn bare_home_marker_is_planned_against_the_home_directory() {
    let plans = setup(&vec!["HOME".to_string()], Some("/home/u"), "/home/u/dotfiles").unwrap();
    assert_eq!(plans[0].target, "/home/u/");
    assert_eq!(
        decide(&plans[0], &TargetState::Occupied),
        Err(DotError::AlreadyExists { path: "/home/u/".to_string() })
    );
    assert_eq!(setup(&vec!["HOME".to_string()], None, "/d"), Err(DotError::MissingHome));
}
