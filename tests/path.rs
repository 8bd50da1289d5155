use dot::add::add_file;
use dot::error::DotError;
use dot::path::{components_of, join, marker, resolve_path, same_path, starts_with, Marker};

#[test]
fn test_resolve_path_will_resolve_home_and_root_in_paths() {
    let home = Some("/home/apollo");

    let got = resolve_path("HOME/.config/alacritty/alacritty.yml", home).unwrap().unwrap();
    assert_eq!(got, "/home/apollo/.config/alacritty/alacritty.yml");

    let got = resolve_path("HOME/.gitconfig", home).unwrap().unwrap();
    assert_eq!(got, "/home/apollo/.gitconfig");

    let got = resolve_path("ROOT/var/etc/conf/httpd.conf", home).unwrap().unwrap();
    assert_eq!(got, "/var/etc/conf/httpd.conf");
}

#[test]
fn home_and_root_markers_resolve_against_their_bases() {
    assert_eq!(resolve_path("HOME/a/b", Some("/x")).unwrap().unwrap(), "/x/a/b");
    assert_eq!(resolve_path("ROOT/a/b", Some("/x")).unwrap().unwrap(), "/a/b");
    assert_eq!(resolve_path("ROOT/a/b", Some("/elsewhere")).unwrap().unwrap(), "/a/b");
    assert_eq!(resolve_path("ROOT/a/b", None).unwrap().unwrap(), "/a/b");
}

#[test]
fn home_with_trailing_separator_is_joined_once() {
    assert_eq!(resolve_path("HOME/a", Some("/x/")).unwrap().unwrap(), "/x/a");
}

#[test]
fn unmarked_paths_are_skipped() {
    assert_eq!(resolve_path(".git/config", Some("/x")), Ok(None));
    assert_eq!(resolve_path("HOMEX/a", Some("/x")), Ok(None));
    assert_eq!(resolve_path("README.md", None), Ok(None));
}

#[test]
fn home_path_without_home_is_a_configuration_error() {
    assert_eq!(resolve_path("HOME/.gitconfig", None), Err(DotError::MissingHome));
    assert_eq!(resolve_path("HOME/.gitconfig", Some("")), Err(DotError::MissingHome));
    assert_eq!(
        DotError::MissingHome.describe(),
        "the home directory is not known"
    );
}

#[test]
fn markers_are_recognised() {
    assert_eq!(marker("HOME/a"), Some(Marker::Home));
    assert_eq!(marker("ROOT/a"), Some(Marker::Root));
    assert_eq!(marker("HOME"), Some(Marker::Home));
    assert_eq!(marker("ROOT"), Some(Marker::Root));
    assert_eq!(marker("HOMEX"), None);
    assert_eq!(marker("HOM"), None);
    assert_eq!(marker("etc/ROOT/a"), None);
}

#[test]
fn join_and_prefix() {
    assert_eq!(join("/a", "b"), "/a/b");
    assert_eq!(join("/a/", "b"), "/a/b");
    assert_eq!(join("", "b"), "/b");
    assert!(starts_with("/home/u/x", "/home/u/"));
    assert!(!starts_with("/home/ux", "/home/u/"));
    assert!(!starts_with("/h", "/home"));
}

#[test]
fn add_under_home_round_trips_through_resolution() {
    let plan = add_file("/home/u/.tool/conf", Some("/home/u"), "/home/u/dotfiles").unwrap();
    assert_eq!(plan.repo_path, "HOME/.tool/conf");
    assert_eq!(plan.stored, "/home/u/dotfiles/HOME/.tool/conf");
    assert_eq!(plan.link, "/home/u/.tool/conf");
    let back = resolve_path(&plan.repo_path, Some("/home/u")).unwrap().unwrap();
    assert_eq!(back, "/home/u/.tool/conf");
}

#[test]
fn add_outside_home_goes_below_root() {
    let plan = add_file("/etc/hosts", Some("/home/u"), "/home/u/dotfiles").unwrap();
    assert_eq!(plan.repo_path, "ROOT/etc/hosts");
    assert_eq!(plan.stored, "/home/u/dotfiles/ROOT/etc/hosts");
    let back = resolve_path(&plan.repo_path, Some("/home/u")).unwrap().unwrap();
    assert_eq!(back, "/etc/hosts");

    let plan = add_file("/home/user2/x", Some("/home/u"), "/d").unwrap();
    assert_eq!(plan.repo_path, "ROOT/home/user2/x");

    let plan = add_file("/home/u/x", None, "/d").unwrap();
    assert_eq!(plan.repo_path, "ROOT/home/u/x");
}

#[test]
fn add_refuses_relative_paths_and_the_root() {
    assert_eq!(
        add_file("notes.txt", Some("/home/u"), "/d"),
        Err(DotError::NotAbsolute { path: "notes.txt".to_string() })
    );
    assert_eq!(
        add_file("", Some("/home/u"), "/d"),
        Err(DotError::NotAbsolute { path: "".to_string() })
    );
    assert_eq!(
        add_file("/", Some("/home/u"), "/d"),
        Err(DotError::NothingToAdd { path: "/".to_string() })
    );
    assert_eq!(
        DotError::NotAbsolute { path: "notes.txt".to_string() }.describe(),
        "notes.txt is not an absolute path"
    );
    assert_eq!(
        DotError::NothingToAdd { path: "/".to_string() }.describe(),
        "/ names no file to add"
    );
}

#[test]
fn bare_markers_resolve_to_their_base_directories() {
    assert_eq!(resolve_path("HOME", Some("/x")), Ok(Some("/x/".to_string())));
    assert_eq!(resolve_path("ROOT", Some("/x")), Ok(Some("/".to_string())));
    assert_eq!(resolve_path("ROOT", None), Ok(Some("/".to_string())));
    assert_eq!(resolve_path("HOME", None), Err(DotError::MissingHome));
    assert_eq!(resolve_path("HOME/", Some("/x")), Ok(Some("/x/".to_string())));
}

#[test]
fn paths_compare_component_by_component() {
    assert_eq!(components_of("/a//b/./c/"), vec!["a", "b", "c"]);
    assert_eq!(components_of("/"), Vec::<String>::new());
    assert!(same_path("/a/b", "/a//b/"));
    assert!(same_path("/a/./b", "/a/b"));
    assert!(!same_path("/a/b", "a/b"));
    assert!(!same_path("/a/b", "/a/c"));
    assert!(!same_path("/a/b", "/a/b/c"));
    assert!(!same_path("/a/../b", "/b"));
}

#[test]
fn add_refuses_paths_that_are_not_plain() {
    for bad in ["/home/u/./x", "/home/u/../x", "/home//u/x", "/home/u/x/", "/home/u/.."] {
        assert_eq!(
            add_file(bad, Some("/home/u"), "/d"),
            Err(DotError::NotPlain { path: bad.to_string() })
        );
    }
    assert_eq!(add_file("/home/u/.x", Some("/home/u"), "/d").unwrap().repo_path, "HOME/.x");
    assert_eq!(add_file("/home/u/...", Some("/home/u"), "/d").unwrap().repo_path, "HOME/...");
    assert_eq!(
        DotError::NotPlain { path: "/a/./b".to_string() }.describe(),
        "/a/./b has an empty, `.` or `..` component"
    );
}
