use tuning::file::{
    Error as FileError, File, FileState, FsAction, Observation, ParentFacts, PathFacts,
};
use tuning::jobs::Status;

fn nothing() -> PathFacts {
    PathFacts { present: false, is_symlink: false, exists: false, is_dir: false, link_target: None }
}

fn regular_file() -> PathFacts {
    PathFacts { present: true, is_symlink: false, exists: true, is_dir: false, link_target: None }
}

fn directory() -> PathFacts {
    PathFacts { present: true, is_symlink: false, exists: true, is_dir: true, link_target: None }
}

fn link_to(target: &str) -> PathFacts {
    PathFacts {
        present: true,
        is_symlink: true,
        exists: true,
        is_dir: false,
        link_target: Some(String::from(target)),
    }
}

fn in_dir(path: PathFacts, src: PathFacts, parent: &str) -> Observation {
    Observation {
        path,
        src,
        parent: Some(ParentFacts { path: String::from(parent), facts: directory() }),
    }
}

fn s(x: &str) -> String {
    String::from(x)
}

#[test]
fn absent_deletes_existing_file() {
    let file = File { path: s("/tmp/t1/a.txt"), state: FileState::Absent, ..Default::default() };
    let plan = file.execute(&in_dir(regular_file(), nothing(), "/tmp/t1")).unwrap();
    assert_eq!(plan.status, Status::Changed(s("/tmp/t1/a.txt"), s("absent")));
    assert_eq!(plan.actions, vec![FsAction::RemoveFile(s("/tmp/t1/a.txt"))]);
}

#[test]
fn absent_deletes_existing_directory() {
    let file = File { path: s("/tmp/t2"), state: FileState::Absent, ..Default::default() };
    let plan = file.execute(&in_dir(directory(), nothing(), "/tmp")).unwrap();
    assert_eq!(plan.status, Status::Changed(s("/tmp/t2"), s("absent")));
    assert_eq!(plan.actions, vec![FsAction::RemoveDirAll(s("/tmp/t2"))]);
}

#[test]
fn absent_makes_nochange_when_already_absent() {
    let file = File { path: s("/tmp/t3/missing.txt"), state: FileState::Absent, ..Default::default() };
    let plan = file.execute(&in_dir(nothing(), nothing(), "/tmp/t3")).unwrap();
    assert_eq!(plan.status, Status::NoChange(s("/tmp/t3/missing.txt")));
    assert!(plan.actions.is_empty());
}

#[test]
fn link_symlinks_src_to_path() {
    let file = File {
        path: s("/tmp/dest1"),
        src: Some(s("/tmp/src1")),
        state: FileState::Link,
        ..Default::default()
    };
    let plan = file.execute(&in_dir(nothing(), regular_file(), "/tmp")).unwrap();
    assert_eq!(plan.status, Status::Changed(s("absent"), format!("{} -> {}", "/tmp/src1", "/tmp/dest1")));
    assert_eq!(plan.actions, vec![FsAction::Symlink { src: s("/tmp/src1"), path: s("/tmp/dest1") }]);
}

#[test]
fn link_symlinks_src_to_path_in_new_directory() {
    let file = File {
        path: s("/tmp/d2/symlink.txt"),
        src: Some(s("/tmp/src2")),
        state: FileState::Link,
        ..Default::default()
    };
    let plan = file.execute(&in_dir(nothing(), regular_file(), "/tmp/d2")).unwrap();
    assert_eq!(
        plan.status,
        Status::Changed(s("absent"), format!("{} -> {}", "/tmp/src2", "/tmp/d2/symlink.txt"))
    );
    assert_eq!(
        plan.actions,
        vec![FsAction::Symlink { src: s("/tmp/src2"), path: s("/tmp/d2/symlink.txt") }]
    );
}

#[test]
fn link_creates_missing_parent_directory() {
    let file = File {
        path: s("/tmp/new/symlink.txt"),
        src: Some(s("/tmp/src")),
        state: FileState::Link,
        ..Default::default()
    };
    let obs = Observation {
        path: nothing(),
        src: regular_file(),
        parent: Some(ParentFacts { path: s("/tmp/new"), facts: nothing() }),
    };
    let plan = file.execute(&obs).unwrap();
    assert_eq!(
        plan.actions,
        vec![
            FsAction::CreateDirAll(s("/tmp/new")),
            FsAction::Symlink { src: s("/tmp/src"), path: s("/tmp/new/symlink.txt") },
        ]
    );
}

#[test]
fn link_corrects_existing_symlink() {
    let file = File {
        force: Some(true),
        path: s("/tmp/d3/symlink.txt"),
        src: Some(s("/tmp/src3")),
        state: FileState::Link,
    };
    let plan = file.execute(&in_dir(link_to("/tmp/src3_old"), regular_file(), "/tmp/d3")).unwrap();
    assert_eq!(
        plan.status,
        Status::Changed(
            format!("{} -> {}", "/tmp/src3_old", "/tmp/d3/symlink.txt"),
            format!("{} -> {}", "/tmp/src3", "/tmp/d3/symlink.txt")
        )
    );
    assert_eq!(
        plan.actions,
        vec![
            FsAction::RemoveFile(s("/tmp/d3/symlink.txt")),
            FsAction::Symlink { src: s("/tmp/src3"), path: s("/tmp/d3/symlink.txt") },
        ]
    );
}

#[test]
fn link_already_in_place_makes_nochange() {
    let file = File {
        path: s("/tmp/d4/symlink.txt"),
        src: Some(s("/tmp/src4")),
        state: FileState::Link,
        ..Default::default()
    };
    let plan = file.execute(&in_dir(link_to("/tmp/src4"), regular_file(), "/tmp/d4")).unwrap();
    assert_eq!(plan.status, Status::NoChange(s("/tmp/src4 -> /tmp/d4/symlink.txt")));
    assert!(plan.actions.is_empty());
}

#[test]
fn link_to_same_path_written_otherwise_makes_nochange() {
    let file = File {
        path: s("/tmp/d5/symlink.txt"),
        src: Some(s("/tmp//src5")),
        state: FileState::Link,
        ..Default::default()
    };
    let plan = file.execute(&in_dir(link_to("/tmp/src5"), regular_file(), "/tmp/d5")).unwrap();
    assert_eq!(plan.status, Status::NoChange(s("/tmp/src5 -> /tmp/d5/symlink.txt")));
}

#[test]
fn link_to_other_target_without_force_is_refused() {
    let file = File {
        path: s("/tmp/d6/symlink.txt"),
        src: Some(s("/tmp/src6")),
        state: FileState::Link,
        ..Default::default()
    };
    let got = file.execute(&in_dir(link_to("/tmp/elsewhere"), regular_file(), "/tmp/d6"));
    assert_eq!(got.err().unwrap(), FileError::PathExists { path: s("/tmp/d6/symlink.txt") });
}

#[test]
fn link_removes_existing_file_at_path() {
    let file = File {
        force: Some(true),
        path: s("/tmp/f7"),
        src: Some(s("/tmp/src7")),
        state: FileState::Link,
    };
    let plan = file.execute(&in_dir(regular_file(), regular_file(), "/tmp")).unwrap();
    assert_eq!(
        plan.status,
        Status::Changed(format!("existing: {}", "/tmp/f7"), format!("{} -> {}", "/tmp/src7", "/tmp/f7"))
    );
    assert_eq!(
        plan.actions,
        vec![FsAction::RemoveFile(s("/tmp/f7")), FsAction::Symlink { src: s("/tmp/src7"), path: s("/tmp/f7") }]
    );
}

#[test]
fn link_removes_existing_directory_at_path() {
    let file = File {
        force: Some(true),
        path: s("/tmp/d8"),
        src: Some(s("/tmp/src8")),
        state: FileState::Link,
    };
    let plan = file.execute(&in_dir(directory(), regular_file(), "/tmp")).unwrap();
    assert_eq!(
        plan.status,
        Status::Changed(format!("existing: {}", "/tmp/d8"), format!("{} -> {}", "/tmp/src8", "/tmp/d8"))
    );
    assert_eq!(
        plan.actions,
        vec![FsAction::RemoveDirAll(s("/tmp/d8")), FsAction::Symlink { src: s("/tmp/src8"), path: s("/tmp/d8") }]
    );
}

#[test]
fn link_without_force_requires_src_to_exist() {
    let src = s("/tmp/src9");
    let file = File {
        path: s("/tmp/d9"),
        src: Some(src.clone()),
        state: FileState::Link,
        ..Default::default()
    };
    let got = file.execute(&in_dir(directory(), nothing(), "/tmp"));
    assert!(got.is_err());
    assert_eq!(got.err().unwrap(), FileError::SrcNotFound { src });
}

#[test]
fn link_with_force_makes_dangling_link() {
    let file = File {
        force: Some(true),
        path: s("/tmp/d10/p"),
        src: Some(s("/tmp/s10")),
        state: FileState::Link,
    };
    let plan = file.execute(&in_dir(nothing(), nothing(), "/tmp/d10")).unwrap();
    assert_eq!(plan.status, Status::Changed(s("absent"), s("/tmp/s10 -> /tmp/d10/p")));
    assert_eq!(plan.actions, vec![FsAction::Symlink { src: s("/tmp/s10"), path: s("/tmp/d10/p") }]);
}

#[test]
fn link_without_force_requires_path_to_not_exist() {
    let file = File {
        path: s("/tmp/d11"),
        src: Some(s("/tmp/src11")),
        state: FileState::Link,
        ..Default::default()
    };
    let got = file.execute(&in_dir(directory(), regular_file(), "/tmp"));
    assert!(got.is_err());
    assert_eq!(got.err().unwrap(), FileError::PathExists { path: s("/tmp/d11") });
}

#[test]
fn link_requires_src() {
    let file = File { path: s("/tmp/d12"), state: FileState::Link, ..Default::default() };
    let got = file.execute(&in_dir(nothing(), nothing(), "/tmp"));
    assert_eq!(got.err().unwrap(), FileError::StateRequiresSrc { state: FileState::Link });
}

#[test]
fn file_and_hard_states_are_not_implemented() {
    for state in [FileState::File, FileState::Hard] {
        let file = File { path: s("/tmp/d13"), state, ..Default::default() };
        let got = file.execute(&in_dir(nothing(), nothing(), "/tmp"));
        assert_eq!(got.err().unwrap(), FileError::StateNotImplemented { state });
    }
}

#[test]
fn directory_created_when_absent() {
    let file = File { path: s("/tmp/d14"), state: FileState::Directory, ..Default::default() };
    let plan = file.execute(&in_dir(nothing(), nothing(), "/tmp")).unwrap();
    assert_eq!(plan.status, Status::Changed(s("absent"), s("directory: /tmp/d14")));
    assert_eq!(plan.actions, vec![FsAction::CreateDirAll(s("/tmp/d14"))]);
}

#[test]
fn directory_makes_nochange_when_present() {
    let file = File { path: s("/tmp/d15"), state: FileState::Directory, ..Default::default() };
    let plan = file.execute(&in_dir(directory(), nothing(), "/tmp")).unwrap();
    assert_eq!(plan.status, Status::NoChange(s("directory: /tmp/d15")));
    assert!(plan.actions.is_empty());
}

#[test]
fn directory_over_file_needs_force() {
    let file = File { path: s("/tmp/d16"), state: FileState::Directory, ..Default::default() };
    let got = file.execute(&in_dir(regular_file(), nothing(), "/tmp"));
    assert_eq!(got.err().unwrap(), FileError::PathExists { path: s("/tmp/d16") });
    let forced = File { force: Some(true), path: s("/tmp/d16"), state: FileState::Directory, src: None };
    let plan = forced.execute(&in_dir(regular_file(), nothing(), "/tmp")).unwrap();
    assert_eq!(plan.status, Status::Changed(s("not directory"), s("directory: /tmp/d16")));
    assert_eq!(
        plan.actions,
        vec![FsAction::RemoveFile(s("/tmp/d16")), FsAction::CreateDirAll(s("/tmp/d16"))]
    );
}

#[test]
fn touch_creates_new_empty_file() {
    let file = File { path: s("/tmp/d17/new.txt"), state: FileState::Touch, ..Default::default() };
    let plan = file.execute(&in_dir(nothing(), nothing(), "/tmp/d17")).unwrap();
    assert_eq!(plan.status, Status::Changed(s("absent"), s("/tmp/d17/new.txt")));
    assert_eq!(plan.actions, vec![FsAction::WriteEmpty(s("/tmp/d17/new.txt"))]);
}

#[test]
fn touch_makes_nochange_for_existing_path() {
    let file = File { path: s("/tmp/f18"), state: FileState::Touch, ..Default::default() };
    let plan = file.execute(&in_dir(regular_file(), nothing(), "/tmp")).unwrap();
    assert_eq!(plan.status, Status::NoChange(s("/tmp/f18")));
    assert!(plan.actions.is_empty());
}

#[test]
fn touch_twice_changes_then_does_not() {
    let file = File { path: s("/tmp/d19/x"), state: FileState::Touch, ..Default::default() };
    let first = file.execute(&in_dir(nothing(), nothing(), "/tmp/d19")).unwrap();
    assert_eq!(first.status, Status::Changed(s("absent"), s("/tmp/d19/x")));
    let second = file.execute(&in_dir(regular_file(), nothing(), "/tmp/d19")).unwrap();
    assert_eq!(second.status, Status::NoChange(s("/tmp/d19/x")));
}

#[test]
fn touch_under_a_file_is_refused() {
    let file = File { path: s("/tmp/f20/x"), state: FileState::Touch, ..Default::default() };
    let obs = Observation {
        path: nothing(),
        src: nothing(),
        parent: Some(ParentFacts { path: s("/tmp/f20"), facts: regular_file() }),
    };
    assert_eq!(file.execute(&obs).err().unwrap(), FileError::PathExists { path: s("/tmp/f20") });
}

#[test]
fn failed_actions_name_their_paths() {
    let r = s("denied");
    assert_eq!(
        FsAction::RemoveDirAll(s("a")).failure(r.clone()),
        FileError::RemovePath { path: s("a"), reason: r.clone() }
    );
    assert_eq!(
        FsAction::RemoveFile(s("a")).failure(r.clone()),
        FileError::RemovePath { path: s("a"), reason: r.clone() }
    );
    assert_eq!(
        FsAction::CreateDirAll(s("a")).failure(r.clone()),
        FileError::CreatePath { path: s("a"), reason: r.clone() }
    );
    assert_eq!(
        FsAction::Symlink { src: s("b"), path: s("a") }.failure(r.clone()),
        FileError::CreateLink { path: s("a"), src: s("b"), reason: r.clone() }
    );
    assert_eq!(
        FsAction::WriteEmpty(s("a")).failure(r.clone()),
        FileError::WritePath { path: s("a"), reason: r }
    );
}

#[test]
fn name_absent() {
    let file = File { path: s("foo"), state: FileState::Absent, ..Default::default() };
    let got = file.name();
    let want = "rm -r foo";
    assert_eq!(got, want);
}

#[test]
fn name_absent_force() {
    let file = File { force: Some(true), path: s("foo"), state: FileState::Absent, ..Default::default() };
    let got = file.name();
    let want = "rm -rf foo";
    assert_eq!(got, want);
}

#[test]
fn name_directory() {
    let file = File { path: s("foo"), state: FileState::Directory, ..Default::default() };
    let got = file.name();
    let want = "mkdir -p foo";
    assert_eq!(got, want);
}

#[test]
fn name_link() {
    let file = File { path: s("foo"), src: Some(s("bar")), state: FileState::Link, ..Default::default() };
    let got = file.name();
    let want = "ln -s bar foo";
    assert_eq!(got, want);
}

#[test]
fn name_link_force() {
    let file = File { force: Some(true), path: s("foo"), src: Some(s("bar")), state: FileState::Link };
    let got = file.name();
    let want = "ln -sf bar foo";
    assert_eq!(got, want);
}

#[test]
fn name_touch() {
    let file = File { path: s("foo"), state: FileState::Touch, ..Default::default() };
    let got = file.name();
    let want = "touch foo";
    assert_eq!(got, want);
}

#[test]
fn name_without_shell_form_lists_fields() {
    let file = File { force: Some(true), path: s("foo"), src: Some(s("bar")), state: FileState::Hard };
    assert_eq!(
        file.name(),
        "File {\n    force: Some(\n        true,\n    ),\n    path: \"foo\",\n    src: Some(\n        \"bar\",\n    ),\n    state: Hard,\n}"
    );
    let plain = File { path: s("foo"), state: FileState::File, ..Default::default() };
    assert_eq!(
        plain.name(),
        "File {\n    force: None,\n    path: \"foo\",\n    src: None,\n    state: File,\n}"
    );
}
