//! Creating the diary's folder.
use vstd::prelude::*;

use crate::config::Config;
use crate::errors::DiaryError;
use crate::ops::{Action, Event};
use crate::utils::file_system::{join, join_path};

verus! {

/// The options of `init`.
pub struct InitOptions {
    /// The folder to create the `diary` folder in, when the settings name none.
    pub path: String,
    /// The prefix to use for the entries' file names.
    pub prefix: Option<String>,
    /// Whether to create a git repository in the diary's folder.
    pub git_repo: bool,
}

/// Where the diary's folder is to be created, and why there.
pub enum InitStatus {
    /// The settings already name a diary folder.
    UseConfig(String),
    /// A `diary` folder inside the folder of the options.
    UseOpt(String),
}

/// The folder that `init` creates: the one that the settings name, if any,
/// otherwise `diary` inside the folder of the options.
pub open spec fn init_target_path(config: &Config, opts_path: Seq<char>) -> Seq<char> {
    match config.spec_diary_path() {
        Some(p) => p,
        None => join_path(opts_path, "diary"@),
    }
}

/// The folder that `init` creates.
pub fn init_target(opts: &InitOptions, config: &Config) -> (r: String)
    ensures
        r@ == init_target_path(config, opts.path@),
{
    match config.diary_path() {
        Some(path) => path.clone(),
        None => join(opts.path.as_str(), "diary"),
    }
}

/// Where the folder `target` goes, given whether the settings named it and
/// whether it exists already: an existing folder is never taken over.
fn settle_target(from_config: bool, target: String, target_exists: bool) -> (r: Result<
    InitStatus,
    DiaryError,
>)
    ensures
        from_config ==> {
            &&& target_exists <==> (r matches Err(DiaryError::ExistsElsewhere))
            &&& !target_exists ==> (r matches Ok(InitStatus::UseConfig(p)) && p == target)
        },
        !from_config ==> {
            &&& target_exists <==> (r matches Err(DiaryError::ExistsHere))
            &&& !target_exists ==> (r matches Ok(InitStatus::UseOpt(p)) && p == target)
        },
{
    if from_config {
        if target_exists {
            Err(DiaryError::ExistsElsewhere)
        } else {
            Ok(InitStatus::UseConfig(target))
        }
    } else {
        if target_exists {
            return Err(DiaryError::ExistsHere);
        }
        Ok(InitStatus::UseOpt(target))
    }
}

/// Decides where the diary's folder goes, given whether that folder (the one
/// `init_target` names) exists already.
pub fn establish_path(opts: &InitOptions, config: &Config, target_exists: bool) -> (r: Result<
    InitStatus,
    DiaryError,
>)
    ensures
        config.spec_diary_path() is Some ==> {
            &&& target_exists <==> (r matches Err(DiaryError::ExistsElsewhere))
            &&& !target_exists ==> (r matches Ok(InitStatus::UseConfig(p)) && p@
                == init_target_path(config, opts.path@))
        },
        config.spec_diary_path() is None ==> {
            &&& target_exists <==> (r matches Err(DiaryError::ExistsHere))
            &&& !target_exists ==> (r matches Ok(InitStatus::UseOpt(p)) && p@ == init_target_path(
                config,
                opts.path@,
            ))
        },
{
    let target = init_target(opts, config);
    settle_target(config.diary_path().is_some(), target, target_exists)
}

/// The settings of a diary just created in `diary_path`: the prefix and the
/// file type given, or the defaults.
pub fn build_new_config(diary_path: String, prefix: Option<String>, file_type: Option<&str>) -> (r:
    Config)
    ensures
        r.spec_diary_path() == Some(diary_path@),
        prefix is None ==> r.spec_prefix() == "diary"@,
        prefix matches Some(p) ==> r.spec_prefix() == p@,
        file_type is None ==> r.spec_file_type() == "md"@,
        file_type matches Some(t) ==> r.spec_file_type() == t@,
{
    let new_cfg_builder = Config::builder().diary_path(diary_path);

    let new_cfg_builder = match prefix {
        None => new_cfg_builder,
        Some(prefix) => new_cfg_builder.prefix(prefix.as_str()),
    };

    match file_type {
        None => new_cfg_builder,
        Some(file_type) => new_cfg_builder.file_type(file_type),
    }.build()
}

/// What `init` waits for.
pub enum InitStage {
    TargetChecked,
    FolderCreated,
    RepositoryCreated,
    Finished,
}

/// The creation of a diary's folder, and of a git repository in it if asked.
pub struct InitDiary {
    pub stage: InitStage,
    pub git_repo: bool,
    /// The folder being created.
    pub path: String,
    /// Whether the settings already named the folder.
    pub from_config: bool,
}

/// Starts `init`: first, whether the folder to create exists already.
pub fn init(opts: &InitOptions, config: &Config) -> (r: (InitDiary, Action))
    ensures
        r.0.stage is TargetChecked,
        r.0.git_repo == opts.git_repo,
        r.0.path@ == init_target_path(config, opts.path@),
        r.0.from_config == config.spec_diary_path() is Some,
        r.1 matches Action::CheckExists(p) && p@ == init_target_path(config, opts.path@),
{
    let path = init_target(opts, config);
    let check = Action::CheckExists(path.clone());
    let from_config = config.diary_path().is_some();
    (InitDiary { stage: InitStage::TargetChecked, git_repo: opts.git_repo, path, from_config }, check)
}

impl InitDiary {
    /// Whether `event` is the kind of answer the current stage waits for.
    pub open spec fn awaits(&self, event: Event) -> bool {
        match self.stage {
            InitStage::TargetChecked => event is Exists,
            InitStage::FolderCreated => event is Done,
            InitStage::RepositoryCreated => event is Git,
            InitStage::Finished => false,
        }
    }

    pub fn accepts(&self, event: &Event) -> (r: bool)
        ensures
            r == self.awaits(*event),
    {
        match self.stage {
            InitStage::TargetChecked => matches!(event, Event::Exists(_)),
            InitStage::FolderCreated => matches!(event, Event::Done(_)),
            InitStage::RepositoryCreated => matches!(event, Event::Git(_)),
            InitStage::Finished => false,
        }
    }

    /// Takes what came of the last action and names the next one.
    pub fn resume(&mut self, event: Event) -> (r: Action)
        requires
            old(self).awaits(event),
        ensures
            final(self).git_repo == old(self).git_repo,
            final(self).path == old(self).path,
            final(self).from_config == old(self).from_config,
            final(self).stage is Finished <==> r is Finish,
            // An existing folder is an error: where it is says which.
            old(self).stage is TargetChecked ==> (event matches Event::Exists(true) ==> {
                &&& old(self).from_config ==> (r matches Action::Finish(
                    Err(DiaryError::ExistsElsewhere),
                ))
                &&& !old(self).from_config ==> (r matches Action::Finish(
                    Err(DiaryError::ExistsHere),
                ))
            }),
            old(self).stage is TargetChecked ==> (event matches Event::Exists(false) ==> {
                &&& final(self).stage is FolderCreated
                &&& r matches Action::CreateDirAll(p) && p == old(self).path
            }),
            old(self).stage is FolderCreated ==> (event matches Event::Done(Ok(_)) ==> {
                &&& old(self).git_repo ==> final(self).stage is RepositoryCreated && (r
                    matches Action::InitRepository(p) && p == old(self).path)
                &&& !old(self).git_repo ==> (r matches Action::Finish(Ok(_)))
            }),
            old(self).stage is RepositoryCreated ==> (event matches Event::Git(Ok(_)) ==> (r
                matches Action::Finish(Ok(_)))),
            // A failure leaves what was created so far in place.
            event matches Event::Done(Err(f)) ==> (r matches Action::Finish(
                Err(DiaryError::IOError(e)),
            ) && e == f.error),
            event matches Event::Git(Err(g)) ==> (r matches Action::Finish(
                Err(DiaryError::GitError(e)),
            ) && e == g),
    {
        match (&self.stage, event) {
            (InitStage::TargetChecked, Event::Exists(exists)) => {
                match settle_target(self.from_config, self.path.clone(), exists) {
                    Err(e) => {
                        self.stage = InitStage::Finished;
                        Action::Finish(Err(e))
                    },
                    Ok(_) => {
                        self.stage = InitStage::FolderCreated;
                        Action::CreateDirAll(self.path.clone())
                    },
                }
            },
            (InitStage::FolderCreated, Event::Done(Ok(_))) => {
                if self.git_repo {
                    self.stage = InitStage::RepositoryCreated;
                    Action::InitRepository(self.path.clone())
                } else {
                    self.stage = InitStage::Finished;
                    Action::Finish(Ok(()))
                }
            },
            (_, Event::Done(Err(f))) => {
                self.stage = InitStage::Finished;
                Action::Finish(Err(DiaryError::IOError(f.error)))
            },
            (_, Event::Git(Err(e))) => {
                self.stage = InitStage::Finished;
                Action::Finish(Err(DiaryError::GitError(e)))
            },
            (_, _) => {
                self.stage = InitStage::Finished;
                Action::Finish(Ok(()))
            },
        }
    }
}

} // verus!
