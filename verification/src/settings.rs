//! The settings of a session, and the search for the file that holds them.
//!
//! Reading a file is not done here. `Settings::resolve` turns the values that
//! were read, as far as there were any, into the settings of a session.
//! `ConfigSearch` decides where to look for the file and what to do when it
//! is not there: the caller makes each attempt and reports how it went.

use vstd::prelude::*;
use vstd::string::StringExecFns;

verus! {

/// A goal or timeout as it was read: a value that is not positive stands for
/// none.
pub open spec fn limit_of(raw: Option<i64>) -> Option<u64> {
    match raw {
        Some(n) => if n > 0 {
            Some(n as u64)
        } else {
            None
        },
        None => None,
    }
}

/// The format of the title where none is configured.
pub open spec fn default_title_format() -> Seq<char> {
    "## %Y-%m-%d"@
}

/// The format of the file name where none is configured.
pub open spec fn default_file_format() -> Seq<char> {
    "%Y-%m.md"@
}

/// The settings of a session.
pub struct Settings {
    /// The date format of the first title.
    pub title_format: String,
    /// The date format of the name of the file that sessions are saved to.
    pub file_format: String,
    pub backspace_active: bool,
    /// Seconds of writing to reach, if any.
    pub time_goal: Option<u64>,
    /// Words to reach, if any.
    pub word_goal: Option<u64>,
    pub strict_mode: bool,
    /// Seconds of silence after which the body is lost, if any.
    pub keystroke_timeout: Option<u64>,
}

fn limit(raw: Option<i64>) -> (r: Option<u64>)
    ensures
        r == limit_of(raw),
{
    match raw {
        Some(n) => if n > 0 {
            Some(n as u64)
        } else {
            None
        },
        None => None,
    }
}

impl Settings {
    /// The settings that follow from what was configured. What is missing
    /// takes its default: backspace and strict mode are on, no goal and no
    /// timeout are set.
    pub fn resolve(
        title_string: Option<String>,
        file_string: Option<String>,
        backspace_active: Option<bool>,
        time_goal: Option<i64>,
        word_goal: Option<i64>,
        keystroke_timeout: Option<i64>,
        strict_mode: Option<bool>,
    ) -> (settings: Settings)
        ensures
            settings.title_format@ == match title_string {
                Some(s) => s@,
                None => default_title_format(),
            },
            settings.file_format@ == match file_string {
                Some(s) => s@,
                None => default_file_format(),
            },
            settings.backspace_active == match backspace_active {
                Some(b) => b,
                None => true,
            },
            settings.time_goal == limit_of(time_goal),
            settings.word_goal == limit_of(word_goal),
            settings.keystroke_timeout == limit_of(keystroke_timeout),
            settings.strict_mode == match strict_mode {
                Some(b) => b,
                None => true,
            },
    {
        Settings {
            title_format: match title_string {
                Some(s) => s,
                None => String::from_str("## %Y-%m-%d"),
            },
            file_format: match file_string {
                Some(s) => s,
                None => String::from_str("%Y-%m.md"),
            },
            backspace_active: match backspace_active {
                Some(b) => b,
                None => true,
            },
            time_goal: limit(time_goal),
            word_goal: limit(word_goal),
            keystroke_timeout: limit(keystroke_timeout),
            strict_mode: match strict_mode {
                Some(b) => b,
                None => true,
            },
        }
    }
}

/// A place where the settings file may be.
#[derive(Clone, Copy, PartialEq, Eq, Debug, Structural)]
pub enum Place {
    /// The file named on the command line.
    Named,
    /// A file in the working directory, by its name without extension.
    LocalName,
    /// The file in the working directory, by its full name.
    LocalFile,
    /// A file in the user's configuration directory, by its name without
    /// extension.
    UserName,
    /// The file in the user's configuration directory, by its full name.
    UserFile,
}

/// What the search asks for next, or how it ended.
#[derive(Clone, Copy, PartialEq, Eq, Debug, Structural)]
pub enum Action {
    /// Read the settings at the place.
    Load(Place),
    /// Write a file of default settings at the place.
    Create(Place),
    /// Read the settings at the place, where a file was just written for
    /// them.
    Reload(Place),
    /// The settings that were read last are the ones to use.
    UseLoaded,
    /// No file is used: every setting takes its default.
    UseDefaults,
    /// No settings can be had: leave with an error.
    Exit,
}

/// What is said to the user during the search.
#[derive(Clone, Copy, PartialEq, Eq, Debug, Structural)]
pub enum Notice {
    ReadSpecifiedConfig,
    CreateConfig,
    /// The named file is not there and is not to be created. The catalogue
    /// has no message for this.
    MissingConfig,
    NoConfigCurrentDir,
    CreateConfigCurrentDir,
    CreateDefaultBecauseError,
    NoConfigExit,
}

/// The search for the settings file: what was asked for on the command line,
/// whether the user has a configuration directory, and the step that is on.
#[derive(Clone, Copy, PartialEq, Eq, Debug, Structural)]
pub struct ConfigSearch {
    /// A file was named on the command line.
    pub named: bool,
    /// A missing file is to be created.
    pub initialize: bool,
    /// The user has a configuration directory.
    pub has_user_dir: bool,
    /// What the search asks for, or how it ended.
    pub action: Action,
}

impl Place {
    /// Where a file written at this place is read from.
    pub open spec fn read_back(self) -> Place {
        match self {
            Place::UserFile => Place::UserName,
            p => p,
        }
    }

    /// The path of the place below its directory: the working directory or
    /// the user's configuration directory. The named file has its own path.
    pub open spec fn path_text(self) -> Option<Seq<char>> {
        match self {
            Place::Named => None,
            Place::LocalName => Some("writingbuddy"@),
            Place::LocalFile => Some("writingbuddy.toml"@),
            Place::UserName => Some("writingbuddy/writingbuddy"@),
            Place::UserFile => Some("writingbuddy/writingbuddy.toml"@),
        }
    }

    /// The path of the place below its directory, where it has one.
    pub fn path(&self) -> (r: Option<&'static str>)
        ensures
            match r {
                Some(p) => self.path_text() == Some(p@),
                None => self.path_text() is None,
            },
    {
        match self {
            Place::Named => None,
            Place::LocalName => Some("writingbuddy"),
            Place::LocalFile => Some("writingbuddy.toml"),
            Place::UserName => Some("writingbuddy/writingbuddy"),
            Place::UserFile => Some("writingbuddy/writingbuddy.toml"),
        }
    }
}

impl Notice {
    /// The key of the notice in the message catalogue.
    pub open spec fn key_text(self) -> Seq<char> {
        match self {
            Notice::ReadSpecifiedConfig => "read-specified-config"@,
            Notice::CreateConfig => "create-config"@,
            Notice::MissingConfig => ""@,
            Notice::NoConfigCurrentDir => "no-config-current-dir"@,
            Notice::CreateConfigCurrentDir => "create-config-current-dir"@,
            Notice::CreateDefaultBecauseError => "create-default-because-error"@,
            Notice::NoConfigExit => "no-config-exit"@,
        }
    }

    /// The key of the notice in the message catalogue.
    pub fn key(&self) -> (key: &'static str)
        ensures
            key@ == self.key_text(),
    {
        match self {
            Notice::ReadSpecifiedConfig => "read-specified-config",
            Notice::CreateConfig => "create-config",
            Notice::MissingConfig => "",
            Notice::NoConfigCurrentDir => "no-config-current-dir",
            Notice::CreateConfigCurrentDir => "create-config-current-dir",
            Notice::CreateDefaultBecauseError => "create-default-because-error",
            Notice::NoConfigExit => "no-config-exit",
        }
    }
}

impl ConfigSearch {
    /// The search at its start: it asks for the named file, or else for the
    /// file in the working directory.
    pub open spec fn start(named: bool, initialize: bool, has_user_dir: bool) -> ConfigSearch {
        ConfigSearch {
            named,
            initialize,
            has_user_dir,
            action: Action::Load(if named { Place::Named } else { Place::LocalName }),
        }
    }

    /// What is said when the search starts.
    pub open spec fn opening(self) -> Notice {
        if self.named {
            Notice::ReadSpecifiedConfig
        } else {
            Notice::NoConfigCurrentDir
        }
    }

    /// Whether the search has ended.
    pub open spec fn ended(self) -> bool {
        !(self.action is Load) && !(self.action is Create) && !(self.action is Reload)
    }

    /// What the search asks for once the attempt it asked for has succeeded
    /// or failed.
    ///
    /// Settings that can be read are used. Where the first place holds none:
    /// a named file is created if that was asked for, and is an error if
    /// not; without a name the file is created in the working directory if
    /// that was asked for, and otherwise looked for in the user's directory
    /// and created there. A file that cannot be created leaves the defaults;
    /// one that was created and cannot be read is an error.
    pub open spec fn action_after(self, succeeded: bool) -> Action {
        match self.action {
            Action::Load(place) => if succeeded {
                Action::UseLoaded
            } else {
                match place {
                    Place::Named => if self.initialize {
                        Action::Create(Place::Named)
                    } else {
                        Action::Exit
                    },
                    Place::LocalName => if self.initialize {
                        Action::Create(Place::LocalFile)
                    } else if self.has_user_dir {
                        Action::Load(Place::UserName)
                    } else {
                        Action::UseDefaults
                    },
                    Place::UserName => Action::Create(Place::UserFile),
                    Place::LocalFile => Action::Exit,
                    Place::UserFile => Action::Exit,
                }
            },
            Action::Create(place) => if succeeded {
                Action::Reload(place.read_back())
            } else {
                Action::UseDefaults
            },
            Action::Reload(_) => if succeeded {
                Action::UseLoaded
            } else {
                Action::Exit
            },
            ended => ended,
        }
    }

    /// What is said once the attempt that the search asked for has succeeded
    /// or failed.
    pub open spec fn notices_after(self, succeeded: bool) -> Seq<Notice> {
        match self.action {
            Action::Load(place) => if succeeded {
                Seq::empty()
            } else {
                match place {
                    Place::Named => if self.initialize {
                        seq![Notice::CreateConfig]
                    } else {
                        seq![Notice::MissingConfig]
                    },
                    Place::LocalName => if self.initialize {
                        seq![Notice::NoConfigCurrentDir, Notice::CreateConfigCurrentDir]
                    } else {
                        seq![Notice::NoConfigCurrentDir]
                    },
                    Place::UserName => seq![Notice::CreateDefaultBecauseError],
                    Place::LocalFile => seq![Notice::NoConfigExit],
                    Place::UserFile => seq![Notice::NoConfigExit],
                }
            },
            Action::Reload(_) => if succeeded {
                Seq::empty()
            } else {
                seq![Notice::NoConfigExit]
            },
            _ => Seq::empty(),
        }
    }

    /// The search after the attempt that it asked for.
    pub open spec fn after(self, succeeded: bool) -> ConfigSearch {
        ConfigSearch { action: self.action_after(succeeded), ..self }
    }

    /// The attempts that the search may still ask for, at most.
    pub open spec fn attempts_left(self) -> nat {
        match self.action {
            Action::Load(Place::LocalName) => 4,
            Action::Load(Place::Named) => 3,
            Action::Load(Place::UserName) => 3,
            Action::Load(_) => 1,
            Action::Create(_) => 2,
            Action::Reload(_) => 1,
            _ => 0,
        }
    }

    /// Starts a search.
    pub fn begin(named: bool, initialize: bool, has_user_dir: bool) -> (search: ConfigSearch)
        ensures
            search == ConfigSearch::start(named, initialize, has_user_dir),
    {
        ConfigSearch {
            named,
            initialize,
            has_user_dir,
            action: Action::Load(if named { Place::Named } else { Place::LocalName }),
        }
    }

    /// What is said when the search starts.
    pub fn opening_notice(&self) -> (notice: Notice)
        ensures
            notice == self.opening(),
    {
        if self.named {
            Notice::ReadSpecifiedConfig
        } else {
            Notice::NoConfigCurrentDir
        }
    }

    /// Takes the outcome of the attempt that the search asked for, and gives
    /// what is to be said. What the search asks for next is its `action`.
    pub fn advance(&mut self, succeeded: bool) -> (notices: Vec<Notice>)
        ensures
            *final(self) == old(self).after(succeeded),
            notices@ == old(self).notices_after(succeeded),
    {
        let mut notices: Vec<Notice> = Vec::new();
        match self.action {
            Action::Load(place) => {
                if succeeded {
                    self.action = Action::UseLoaded;
                } else {
                    match place {
                        Place::Named => {
                            if self.initialize {
                                notices.push(Notice::CreateConfig);
                                self.action = Action::Create(Place::Named);
                            } else {
                                notices.push(Notice::MissingConfig);
                                self.action = Action::Exit;
                            }
                        },
                        Place::LocalName => {
                            notices.push(Notice::NoConfigCurrentDir);
                            if self.initialize {
                                notices.push(Notice::CreateConfigCurrentDir);
                                self.action = Action::Create(Place::LocalFile);
                            } else if self.has_user_dir {
                                self.action = Action::Load(Place::UserName);
                            } else {
                                self.action = Action::UseDefaults;
                            }
                        },
                        Place::UserName => {
                            notices.push(Notice::CreateDefaultBecauseError);
                            self.action = Action::Create(Place::UserFile);
                        },
                        Place::LocalFile => {
                            notices.push(Notice::NoConfigExit);
                            self.action = Action::Exit;
                        },
                        Place::UserFile => {
                            notices.push(Notice::NoConfigExit);
                            self.action = Action::Exit;
                        },
                    }
                }
            },
            Action::Create(place) => {
                if succeeded {
                    self.action = Action::Reload(
                        match place {
                            Place::UserFile => Place::UserName,
                            p => p,
                        },
                    );
                } else {
                    self.action = Action::UseDefaults;
                }
            },
            Action::Reload(_) => {
                if succeeded {
                    self.action = Action::UseLoaded;
                } else {
                    notices.push(Notice::NoConfigExit);
                    self.action = Action::Exit;
                }
            },
            _ => {},
        }
        notices
    }
}

/// Every search ends: each attempt leaves fewer attempts to make, and a search
/// with none left has ended. No search makes more than four.
pub proof fn lemma_search_ends(search: ConfigSearch, succeeded: bool)
    ensures
        search.attempts_left() <= 4,
        search.ended() <==> search.attempts_left() == 0,
        !search.ended() ==> search.after(succeeded).attempts_left() < search.attempts_left(),
        search.ended() ==> search.after(succeeded) == search,
{
}

} // verus!
