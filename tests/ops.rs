use std::collections::{BTreeMap, HashMap, HashSet};
use std::io;

use diary::config::Config;
use diary::errors::DiaryError;
use diary::ops::add::{add, AddEntry, AddOptions};
use diary::ops::commit::{commit, commit_step, CommitEntry, CommitOptions, CommitStep};
use diary::ops::init::{establish_path, init, init_target, InitDiary, InitOptions, InitStatus};
use diary::ops::new::{new, NewEntry, NewOptions};
use diary::ops::open::{open, OpenEntry, OpenFileOptions};
use diary::ops::{Action, Event, IoErrorKind, IoFailure, StagedTree};
use diary::utils::editing::{test_empty_string_getter, test_string_getter};
use diary::{Diary, EntryDate};

trait Operation {
    fn accepts(&self, event: &Event) -> bool;
    fn resume(&mut self, event: Event) -> Action;
}

impl Operation for NewEntry {
    fn accepts(&self, event: &Event) -> bool {
        NewEntry::accepts(self, event)
    }
    fn resume(&mut self, event: Event) -> Action {
        NewEntry::resume(self, event)
    }
}

impl Operation for AddEntry {
    fn accepts(&self, event: &Event) -> bool {
        AddEntry::accepts(self, event)
    }
    fn resume(&mut self, event: Event) -> Action {
        AddEntry::resume(self, event)
    }
}

impl Operation for OpenEntry {
    fn accepts(&self, event: &Event) -> bool {
        OpenEntry::accepts(self, event)
    }
    fn resume(&mut self, event: Event) -> Action {
        OpenEntry::resume(self, event)
    }
}

impl Operation for InitDiary {
    fn accepts(&self, event: &Event) -> bool {
        InitDiary::accepts(self, event)
    }
    fn resume(&mut self, event: Event) -> Action {
        InitDiary::resume(self, event)
    }
}

impl Operation for CommitEntry {
    fn accepts(&self, event: &Event) -> bool {
        CommitEntry::accepts(self, event)
    }
    fn resume(&mut self, event: Event) -> Action {
        CommitEntry::resume(self, event)
    }
}

/// A file system kept in memory, with an editor that answers at once.
struct MemFs {
    dirs: HashSet<String>,
    files: HashMap<String, String>,
    open_file: Option<String>,
    editor: fn(String) -> io::Result<String>,
    /// The staged files of the repository, with their contents.
    index: BTreeMap<String, String>,
    /// The commits made: message, tree and whether it sits on HEAD.
    commits: Vec<(String, String, bool)>,
}

impl MemFs {
    fn new() -> MemFs {
        let mut dirs = HashSet::new();
        dirs.insert("/".to_string());
        dirs.insert("/tmp".to_string());
        MemFs {
            dirs,
            files: HashMap::new(),
            open_file: None,
            editor: test_string_getter,
            index: BTreeMap::new(),
            commits: Vec::new(),
        }
    }

    fn has(&self, path: &str) -> bool {
        self.dirs.contains(path) || self.files.contains_key(path)
    }
}

fn parent(path: &str) -> String {
    match path.rfind('/') {
        Some(0) => "/".to_string(),
        Some(i) => path[..i].to_string(),
        None => String::new(),
    }
}

fn failure(kind: IoErrorKind, error_kind: io::ErrorKind) -> IoFailure {
    IoFailure { kind, error: io::Error::new(error_kind, "simulated") }
}

fn run<O: Operation>(op: &mut O, first: Action, fs: &mut MemFs) -> Result<(), DiaryError> {
    let mut action = first;
    loop {
        let event = match action {
            Action::Finish(result) => return result,
            Action::CheckExists(path) => Event::Exists(fs.has(&path)),
            Action::CreateDir(path) => {
                if !fs.dirs.contains(&parent(&path)) {
                    Event::Done(Err(failure(IoErrorKind::NotFound, io::ErrorKind::NotFound)))
                } else if fs.has(&path) {
                    Event::Done(Err(failure(
                        IoErrorKind::AlreadyExists,
                        io::ErrorKind::AlreadyExists,
                    )))
                } else {
                    fs.dirs.insert(path);
                    Event::Done(Ok(()))
                }
            }
            Action::CreateDirAll(path) => {
                let mut current = path;
                while !current.is_empty() && !fs.dirs.contains(&current) {
                    fs.dirs.insert(current.clone());
                    current = parent(&current);
                }
                Event::Done(Ok(()))
            }
            Action::CreateNewFile(path) => {
                if !fs.dirs.contains(&parent(&path)) {
                    Event::Done(Err(failure(IoErrorKind::NotFound, io::ErrorKind::NotFound)))
                } else if fs.has(&path) {
                    Event::Done(Err(failure(
                        IoErrorKind::AlreadyExists,
                        io::ErrorKind::AlreadyExists,
                    )))
                } else {
                    fs.files.insert(path.clone(), String::new());
                    fs.open_file = Some(path);
                    Event::Done(Ok(()))
                }
            }
            Action::OpenForAppend(path) => {
                if fs.files.contains_key(&path) {
                    fs.open_file = Some(path);
                    Event::Done(Ok(()))
                } else {
                    Event::Done(Err(failure(IoErrorKind::NotFound, io::ErrorKind::NotFound)))
                }
            }
            Action::Write(text) => {
                let path = fs.open_file.clone().unwrap();
                fs.files.get_mut(&path).unwrap().push_str(&text);
                Event::Done(Ok(()))
            }
            Action::SolicitText(seed) => Event::Text((fs.editor)(seed)),
            Action::EditFile(path) => {
                fs.files.get_mut(&path).unwrap().push_str("Test content");
                Event::Done(Ok(()))
            }
            Action::InitRepository(path) => {
                fs.dirs.insert(format!("{}/.git", path));
                Event::Git(Ok(()))
            }
            Action::Stage { repository, path } => {
                match fs.files.get(&format!("{}/{}", repository, path)) {
                    Some(content) => {
                        fs.index.insert(path, content.clone());
                        let tree = format!("{:?}", fs.index);
                        let head_tree = fs.commits.last().map(|c| c.1.clone());
                        Event::Staged(Ok(StagedTree { head_tree, tree }))
                    }
                    None => Event::Staged(Err(git2::Error::from_str("No such file or directory"))),
                }
            }
            Action::Commit { repository: _, tree, message, on_head } => {
                fs.commits.push((message, tree, on_head));
                Event::Git(Ok(()))
            }
            Action::Push(_) => Event::Git(Err(git2::Error::from_str("remote 'origin' does not exist"))),
        };
        assert!(op.accepts(&event));
        action = op.resume(event);
    }
}

fn temp_config() -> Config {
    Config::builder().diary_path("/tmp/t/diary".to_string()).build()
}

fn default_init(fs: &mut MemFs, config: &Config) {
    let opts = InitOptions { path: "/tmp/other".to_string(), prefix: None, git_repo: false };
    let (mut op, first) = init(&opts, config);
    run(&mut op, first, fs).unwrap();
}

fn diary_from(fs: &MemFs, config: &Config) -> Diary {
    let exists = config.diary_path().as_ref().map_or(false, |p| fs.has(p));
    Diary::from_config(config, exists).unwrap()
}

fn new_entry(fs: &mut MemFs, config: &Config, date: &EntryDate) {
    let diary = diary_from(fs, config);
    let (mut op, first) = new(&NewOptions { open: false }, &diary, date);
    run(&mut op, first, fs).unwrap();
}

fn entry_date() -> EntryDate {
    EntryDate::from_ymd(2021, 11, 6).unwrap()
}

#[test]
fn new_success() {
    let mut fs = MemFs::new();
    let config = temp_config();
    default_init(&mut fs, &config);

    let diary = diary_from(&fs, &config);

    let (mut op, first) = new(&NewOptions { open: false }, &diary, &entry_date());
    run(&mut op, first, &mut fs).unwrap();

    let test_path = diary.get_entry_path(&entry_date());

    assert!(fs.has(&test_path));
}

#[test]
#[should_panic(expected = "value: UnInitialised")]
fn new_not_init() {
    let fs = MemFs::new();
    let config = temp_config();
    let diary = diary_from(&fs, &config);

    let mut fs = fs;
    let (mut op, first) = new(&NewOptions { open: false }, &diary, &entry_date());
    run(&mut op, first, &mut fs).unwrap();
}

#[test]
#[should_panic(expected = "kind: AlreadyExists")]
fn new_fail_second_time() {
    let mut fs = MemFs::new();
    let config = temp_config();
    default_init(&mut fs, &config);
    let diary = diary_from(&fs, &config);

    let (mut op, first) = new(&NewOptions { open: false }, &diary, &entry_date());
    run(&mut op, first, &mut fs).unwrap();
    let (mut op, first) = new(&NewOptions { open: false }, &diary, &entry_date());
    run(&mut op, first, &mut fs).unwrap();
}

#[test]
#[should_panic(expected = "value: UnInitialised")]
fn new_not_init_default_config() {
    let fs = MemFs::new();
    let config = Config::default();
    let diary = diary_from(&fs, &config);

    let mut fs = fs;
    let (mut op, first) = new(&NewOptions { open: false }, &diary, &entry_date());
    run(&mut op, first, &mut fs).unwrap();
}

#[test]
fn new_open_file_success() {
    let mut fs = MemFs::new();
    let config = temp_config();
    default_init(&mut fs, &config);
    let diary = diary_from(&fs, &config);

    let (mut op, first) = new(&NewOptions { open: true }, &diary, &entry_date());
    run(&mut op, first, &mut fs).unwrap();

    let content = &fs.files[&diary.get_entry_path(&entry_date())];
    assert!(content.contains("Test content"));
}

#[test]
fn new_writes_title_then_newline() {
    let mut fs = MemFs::new();
    let config = temp_config();
    default_init(&mut fs, &config);
    new_entry(&mut fs, &config, &entry_date());

    let diary = diary_from(&fs, &config);
    let content = &fs.files[&diary.get_entry_path(&entry_date())];

    assert_eq!(content, "# Saturday 6<sup>th</sup> November 2021\n\n\n");
}

#[test]
fn second_new_keeps_first_content() {
    let mut fs = MemFs::new();
    let config = temp_config();
    default_init(&mut fs, &config);
    let diary = diary_from(&fs, &config);

    let (mut op, first) = new(&NewOptions { open: true }, &diary, &entry_date());
    run(&mut op, first, &mut fs).unwrap();
    let before = fs.files[&diary.get_entry_path(&entry_date())].clone();

    let (mut op, first) = new(&NewOptions { open: true }, &diary, &entry_date());
    let result = run(&mut op, first, &mut fs);

    assert!(matches!(result, Err(DiaryError::EntryAlreadyExists { .. })));
    assert_eq!(fs.files[&diary.get_entry_path(&entry_date())], before);
}

#[test]
fn new_after_diary_folder_removed_is_uninitialised() {
    let mut fs = MemFs::new();
    let config = temp_config();
    default_init(&mut fs, &config);
    let diary = diary_from(&fs, &config);
    fs.dirs.remove("/tmp/t/diary");

    let (mut op, first) = new(&NewOptions { open: false }, &diary, &entry_date());
    let result = run(&mut op, first, &mut fs);

    assert!(matches!(result, Err(DiaryError::UnInitialised { source: Some(_) })));
}

#[test]
fn add_no_tag() {
    let mut fs = MemFs::new();
    let config = temp_config();
    default_init(&mut fs, &config);
    new_entry(&mut fs, &config, &entry_date());

    let diary = diary_from(&fs, &config);
    let opts = AddOptions { tag: None };
    let (mut op, first) = add(&opts, &diary, &entry_date());
    run(&mut op, first, &mut fs).unwrap();

    let content = &fs.files[&diary.get_entry_path(&entry_date())];

    assert!(content.contains("Test content"));
}

#[test]
fn add_with_tag() {
    let mut fs = MemFs::new();
    let config = temp_config();
    default_init(&mut fs, &config);
    new_entry(&mut fs, &config, &entry_date());

    let diary = diary_from(&fs, &config);
    let opts = AddOptions { tag: Some("Tag") };
    let (mut op, first) = add(&opts, &diary, &entry_date());
    run(&mut op, first, &mut fs).unwrap();

    let content = &fs.files[&diary.get_entry_path(&entry_date())];

    assert!(content.contains("Test content"));
    assert!(content.contains("Tag"));
}

#[test]
#[should_panic(expected = "value: NoContent")]
fn add_empty_string() {
    let mut fs = MemFs::new();
    let config = temp_config();
    default_init(&mut fs, &config);
    new_entry(&mut fs, &config, &entry_date());

    let diary = diary_from(&fs, &config);
    fs.editor = test_empty_string_getter;
    let opts = AddOptions { tag: Some("Tag") };
    let (mut op, first) = add(&opts, &diary, &entry_date());
    run(&mut op, first, &mut fs).unwrap();
}

#[test]
#[should_panic(expected = "value: NoEntry")]
fn add_to_nonexistent_file() {
    let mut fs = MemFs::new();
    let config = temp_config();
    default_init(&mut fs, &config);

    let diary = diary_from(&fs, &config);
    let opts = AddOptions { tag: Some("Tag") };
    let (mut op, first) = add(&opts, &diary, &entry_date());
    run(&mut op, first, &mut fs).unwrap();
}

#[test]
fn add_appends_tag_then_text_and_newline() {
    let mut fs = MemFs::new();
    let config = temp_config();
    default_init(&mut fs, &config);
    new_entry(&mut fs, &config, &entry_date());
    let diary = diary_from(&fs, &config);
    let path = diary.get_entry_path(&entry_date());
    let before = fs.files[&path].clone();

    let opts = AddOptions { tag: Some("Meeting") };
    let (mut op, first) = add(&opts, &diary, &entry_date());
    run(&mut op, first, &mut fs).unwrap();

    assert_eq!(fs.files[&path], format!("{}## Meeting\n\nTest content\n", before));
}

#[test]
fn add_without_entry_writes_nothing() {
    let mut fs = MemFs::new();
    let config = temp_config();
    default_init(&mut fs, &config);
    let diary = diary_from(&fs, &config);

    let opts = AddOptions { tag: None };
    let (mut op, first) = add(&opts, &diary, &entry_date());
    let result = run(&mut op, first, &mut fs);

    assert!(matches!(result, Err(DiaryError::NoEntry { source: Some(_) })));
    assert!(fs.files.is_empty());
}

#[test]
fn add_empty_text_leaves_entry_unchanged() {
    let mut fs = MemFs::new();
    let config = temp_config();
    default_init(&mut fs, &config);
    new_entry(&mut fs, &config, &entry_date());
    let diary = diary_from(&fs, &config);
    let path = diary.get_entry_path(&entry_date());
    let before = fs.files[&path].clone();

    fs.editor = test_empty_string_getter;
    let (mut op, first) = add(&AddOptions { tag: Some("Tag") }, &diary, &entry_date());
    let result = run(&mut op, first, &mut fs);

    assert!(matches!(result, Err(DiaryError::NoContent)));
    assert_eq!(fs.files[&path], before);
}

#[test]
fn rst_add_with_tag_underlines_it() {
    let mut fs = MemFs::new();
    let config = Config::builder()
        .diary_path("/tmp/t/diary".to_string())
        .file_type("rst")
        .build();
    default_init(&mut fs, &config);
    new_entry(&mut fs, &config, &entry_date());
    let diary = diary_from(&fs, &config);
    let path = diary.get_entry_path(&entry_date());
    let before = fs.files[&path].clone();

    let (mut op, first) = add(&AddOptions { tag: Some("Meeting") }, &diary, &entry_date());
    run(&mut op, first, &mut fs).unwrap();

    assert_eq!(fs.files[&path], format!("{}Meeting\n^^^^^^^\n\nTest content\n", before));
}

#[test]
fn open_success() {
    let mut fs = MemFs::new();
    let config = temp_config();
    default_init(&mut fs, &config);
    let diary = diary_from(&fs, &config);

    let (mut op, first) = new(&NewOptions { open: false }, &diary, &entry_date());
    run(&mut op, first, &mut fs).unwrap();

    let opts = OpenFileOptions { entry_date: entry_date() };
    let (mut op, first) = open(&opts, &diary);
    run(&mut op, first, &mut fs).unwrap();

    let content = &fs.files[&diary.get_entry_path(&entry_date())];

    assert!(content.contains("Test content"));
}

#[test]
#[should_panic(expected = "value: NoEntry")]
fn open_no_entry() {
    let mut fs = MemFs::new();
    let config = temp_config();
    default_init(&mut fs, &config);
    let diary = diary_from(&fs, &config);

    let opts = OpenFileOptions { entry_date: entry_date() };
    let (mut op, first) = open(&opts, &diary);
    run(&mut op, first, &mut fs).unwrap();
}

#[test]
#[should_panic(expected = "value: UnInitialised")]
fn open_bad_config() {
    let mut fs = MemFs::new();
    let config = Config::default();
    let diary = diary_from(&fs, &config);

    let opts = OpenFileOptions { entry_date: entry_date() };
    let (mut op, first) = open(&opts, &diary);
    run(&mut op, first, &mut fs).unwrap();
}

#[test]
fn blank_config_valid_path() {
    let mut fs = MemFs::new();
    let opts = InitOptions { path: "/tmp/dir".to_string(), prefix: None, git_repo: false };
    let config = Config::default();

    let (mut op, first) = init(&opts, &config);
    run(&mut op, first, &mut fs).unwrap();

    assert!(fs.has("/tmp/dir/diary"));
    assert_eq!(op.path, "/tmp/dir/diary");
}

#[test]
fn blank_config_invalid_path() {
    let mut fs = MemFs::new();
    fs.dirs.insert("/tmp/dir".to_string());
    fs.dirs.insert("/tmp/dir/diary".to_string());
    let opts = InitOptions { path: "/tmp/dir".to_string(), prefix: None, git_repo: false };
    let config = Config::default();

    let (mut op, first) = init(&opts, &config);
    run(&mut op, first, &mut fs).expect_err("No error produced.");
}

#[test]
fn filled_config_non_existing_path() {
    let mut fs = MemFs::new();
    let config = Config::builder().diary_path("/tmp/dir/diary".to_string()).build();
    let opts = InitOptions { path: "/tmp/other".to_string(), prefix: None, git_repo: false };

    let (mut op, first) = init(&opts, &config);
    run(&mut op, first, &mut fs).unwrap();

    assert!(fs.has("/tmp/dir/diary"));
}

#[test]
fn filled_config_existing_path() {
    let mut fs = MemFs::new();
    fs.dirs.insert("/tmp/dir".to_string());
    fs.dirs.insert("/tmp/dir/diary".to_string());
    let config = Config::builder().diary_path("/tmp/dir/diary".to_string()).build();
    let opts = InitOptions { path: "/tmp/other".to_string(), prefix: None, git_repo: false };

    let (mut op, first) = init(&opts, &config);
    run(&mut op, first, &mut fs).expect_err("No error produced.");
}

#[test]
fn blank_config_valid_path_git_repo() {
    let mut fs = MemFs::new();
    let opts = InitOptions { path: "/tmp/dir".to_string(), prefix: None, git_repo: true };
    let config = Config::default();

    let (mut op, first) = init(&opts, &config);
    run(&mut op, first, &mut fs).unwrap();

    assert!(fs.has("/tmp/dir/diary/.git"));
}

#[test]
fn filled_config_non_existing_path_git_repo() {
    let mut fs = MemFs::new();
    let config = Config::builder().diary_path("/tmp/dir/diary".to_string()).build();
    let opts = InitOptions { path: "/tmp/other".to_string(), prefix: None, git_repo: true };

    let (mut op, first) = init(&opts, &config);
    run(&mut op, first, &mut fs).unwrap();

    assert!(fs.has("/tmp/dir/diary/.git"));
}

#[test]
fn filled_config_existing_path_git_repo() {
    let mut fs = MemFs::new();
    fs.dirs.insert("/tmp/dir".to_string());
    fs.dirs.insert("/tmp/dir/diary".to_string());
    let config = Config::builder().diary_path("/tmp/dir/diary".to_string()).build();
    let opts = InitOptions { path: "/tmp/other".to_string(), prefix: None, git_repo: true };

    let (mut op, first) = init(&opts, &config);
    run(&mut op, first, &mut fs).expect_err("No error produced.");
    assert!(!fs.has("/tmp/dir/diary/.git"));
}

#[test]
fn second_init_fails_here_without_recorded_folder() {
    let mut fs = MemFs::new();
    let opts = InitOptions { path: "/tmp/dir".to_string(), prefix: None, git_repo: false };
    let config = Config::default();

    let (mut op, first) = init(&opts, &config);
    run(&mut op, first, &mut fs).unwrap();
    let (mut op, first) = init(&opts, &config);
    let result = run(&mut op, first, &mut fs);

    assert!(matches!(result, Err(DiaryError::ExistsHere)));
}

#[test]
fn second_init_fails_elsewhere_with_recorded_folder() {
    let mut fs = MemFs::new();
    let config = Config::builder().diary_path("/tmp/dir/diary".to_string()).build();
    let opts = InitOptions { path: "/tmp/other".to_string(), prefix: None, git_repo: false };

    let (mut op, first) = init(&opts, &config);
    run(&mut op, first, &mut fs).unwrap();
    let (mut op, first) = init(&opts, &config);
    let result = run(&mut op, first, &mut fs);

    assert!(matches!(result, Err(DiaryError::ExistsElsewhere)));
}

#[test]
fn establish_path_decisions() {
    let opts = InitOptions { path: "/tmp/dir".to_string(), prefix: None, git_repo: false };
    let blank = Config::default();
    let filled = Config::builder().diary_path("/srv/diary".to_string()).build();

    assert_eq!(init_target(&opts, &blank), "/tmp/dir/diary");
    assert_eq!(init_target(&opts, &filled), "/srv/diary");
    assert!(matches!(establish_path(&opts, &blank, true), Err(DiaryError::ExistsHere)));
    assert!(matches!(establish_path(&opts, &filled, true), Err(DiaryError::ExistsElsewhere)));
    match establish_path(&opts, &blank, false) {
        Ok(InitStatus::UseOpt(p)) => assert_eq!(p, "/tmp/dir/diary"),
        _ => panic!("expected the options' folder"),
    }
    match establish_path(&opts, &filled, false) {
        Ok(InitStatus::UseConfig(p)) => assert_eq!(p, "/srv/diary"),
        _ => panic!("expected the recorded folder"),
    }
}

fn git_init(fs: &mut MemFs, config: &Config) {
    let opts = InitOptions { path: "/tmp/other".to_string(), prefix: None, git_repo: true };
    let (mut op, first) = init(&opts, config);
    run(&mut op, first, fs).unwrap();
}

fn commit_opts(date: EntryDate, push: bool) -> CommitOptions {
    CommitOptions { entry_date: date, message: "Test message".to_string(), push }
}

#[test]
fn commit_today() {
    let mut fs = MemFs::new();
    let config = temp_config();
    git_init(&mut fs, &config);

    let entry_date = EntryDate::from_ymd(2022, 1, 13).unwrap();
    new_entry(&mut fs, &config, &entry_date);

    let diary = diary_from(&fs, &config);
    let (mut op, first) = commit(&commit_opts(entry_date, false), &diary).unwrap();
    run(&mut op, first, &mut fs).unwrap();

    let last_commit = fs.commits.last().cloned();
    let entry_date = EntryDate::from_ymd(2022, 1, 13).unwrap();
    let (mut op, first) = commit(&commit_opts(entry_date, false), &diary).unwrap();
    run(&mut op, first, &mut fs).unwrap();
    assert!(last_commit.is_some());

    assert_eq!(fs.index.len(), 1);
    assert_eq!(fs.commits.len(), 1);
    assert!(!fs.commits[0].2);
}

#[test]
fn commit_multiple() {
    let mut fs = MemFs::new();
    let config = temp_config();
    git_init(&mut fs, &config);

    let entry_date = EntryDate::from_ymd(2022, 1, 13).unwrap();
    new_entry(&mut fs, &config, &entry_date);

    let diary = diary_from(&fs, &config);
    let (mut op, first) = commit(&commit_opts(entry_date, false), &diary).unwrap();
    run(&mut op, first, &mut fs).unwrap();

    assert!(fs.commits.last().is_some());

    let entry_date = EntryDate::from_ymd(2022, 1, 14).unwrap();
    new_entry(&mut fs, &config, &entry_date);

    let (mut op, first) = commit(&commit_opts(entry_date, false), &diary).unwrap();
    run(&mut op, first, &mut fs).unwrap();

    assert!(fs.commits.last().is_some());
    assert_eq!(fs.index.len(), 2);
    assert_eq!(fs.commits.len(), 2);
    assert!(fs.commits[1].2);
}

#[test]
#[should_panic(expected = "remote 'origin' does not exist")]
fn commit_and_fail_to_push() {
    let mut fs = MemFs::new();
    let config = temp_config();
    git_init(&mut fs, &config);

    let entry_date = EntryDate::from_ymd(2022, 1, 13).unwrap();
    new_entry(&mut fs, &config, &entry_date);

    let diary = diary_from(&fs, &config);
    let (mut op, first) = commit(&commit_opts(entry_date, true), &diary).unwrap();
    run(&mut op, first, &mut fs).unwrap();
}

#[test]
fn commit_after_a_change_commits_again() {
    let mut fs = MemFs::new();
    let config = temp_config();
    git_init(&mut fs, &config);
    new_entry(&mut fs, &config, &entry_date());
    let diary = diary_from(&fs, &config);

    let (mut op, first) = commit(&commit_opts(entry_date(), false), &diary).unwrap();
    run(&mut op, first, &mut fs).unwrap();
    let (mut op, first) = add(&AddOptions { tag: None }, &diary, &entry_date());
    run(&mut op, first, &mut fs).unwrap();
    let (mut op, first) = commit(&commit_opts(entry_date(), false), &diary).unwrap();
    run(&mut op, first, &mut fs).unwrap();

    assert_eq!(fs.commits.len(), 2);
    assert!(fs.commits[1].2);
}

#[test]
fn commit_stages_the_entry_relative_to_the_folder() {
    let mut fs = MemFs::new();
    let config = temp_config();
    default_init(&mut fs, &config);
    new_entry(&mut fs, &config, &entry_date());
    let diary = diary_from(&fs, &config);

    let opts = CommitOptions {
        entry_date: entry_date(),
        message: "Test message".to_string(),
        push: false,
    };
    let (mut op, first) = commit(&opts, &diary).unwrap();
    run(&mut op, first, &mut fs).unwrap();

    assert_eq!(fs.index.keys().collect::<Vec<_>>(), vec!["2021-11/diary_2021-11-06.md"]);
    assert_eq!(fs.commits.len(), 1);
    assert_eq!(fs.commits[0].0, "Test message");
}

#[test]
fn commit_without_entry_fails() {
    let mut fs = MemFs::new();
    let config = temp_config();
    default_init(&mut fs, &config);
    let diary = diary_from(&fs, &config);

    let opts = CommitOptions {
        entry_date: entry_date(),
        message: "Test message".to_string(),
        push: false,
    };
    let (mut op, first) = commit(&opts, &diary).unwrap();
    let result = run(&mut op, first, &mut fs);

    assert!(matches!(result, Err(DiaryError::NoEntry { source: None })));
    assert!(fs.commits.is_empty());
}

#[test]
fn commit_pushes_when_asked() {
    let mut fs = MemFs::new();
    let config = temp_config();
    default_init(&mut fs, &config);
    new_entry(&mut fs, &config, &entry_date());
    let diary = diary_from(&fs, &config);

    let opts = CommitOptions {
        entry_date: entry_date(),
        message: "Test message".to_string(),
        push: true,
    };
    let (mut op, first) = commit(&opts, &diary).unwrap();
    let result = run(&mut op, first, &mut fs);

    assert_eq!(fs.commits.len(), 1);
    assert!(matches!(result, Err(DiaryError::GitError(_))));
}

#[test]
fn commit_step_decisions() {
    assert!(matches!(commit_step(None, "abc"), CommitStep::CommitRoot));
    assert!(matches!(commit_step(Some("abc"), "abc"), CommitStep::Skip));
    assert!(matches!(commit_step(Some("abc"), "abd"), CommitStep::CommitOnHead));
}
