//! The provisioning engine: the interactive flow that collects logins and
//! folders, as a machine that takes what the operator typed and says what it
//! needs next. The engine reads and writes nothing itself; the shell around
//! it shows the prompts, reads the answers and looks at the file system.

use vstd::prelude::*;

use crate::config::{complete, ConfigView, ServerConfiguration};
use crate::dialogue::{Event, EventView, Notice, Prompt, Request, RequestView};
use crate::entry::{
    chop, chopped, declines, is_decline, is_valid_password, is_valid_username,
    lemma_valid_password_is_hashable, strip, stripped, valid_password, valid_username,
};
use crate::hasher::{digest, stored_digest, DIGEST_TEXT_LEN};
use crate::login::LoginInfo;
use crate::text::bytes_of;

verus! {

/// What a run of the engine is for.
#[derive(Clone, Copy, PartialEq, Eq, Debug, Structural)]
pub enum Mode {
    /// Provide what a store needs to count as initialised: a first login
    /// where there is none, a first folder where there is none. Declining
    /// either ends the program in failure.
    Initialize,
    /// Add logins for as long as the operator wants to, then folders.
    Append,
}

/// Where the flow stands.
#[derive(Clone, Copy, PartialEq, Eq, Debug, Structural)]
pub enum Phase {
    /// Asking whether a login is to be entered.
    LoginConsent,
    /// Waiting for a user name.
    Username,
    /// Waiting for a password.
    Password,
    /// Waiting for the user name to be repeated.
    ConfirmUsername,
    /// Waiting for the password to be repeated.
    ConfirmPassword,
    /// Asking whether a folder is to be entered.
    FolderConsent,
    /// Waiting for the path of a folder.
    FolderPath,
    /// Waiting to learn what the path names on this host.
    FolderCheck,
    /// The flow is complete.
    Finished,
    /// The operator declined what had to be provided.
    Aborted,
}

/// What an engine is: its mode, its phase and the entries it holds on to.
pub struct EngineView {
    pub mode: Mode,
    pub phase: Phase,
    /// The user name that is being confirmed.
    pub username: Seq<char>,
    /// The password that is being confirmed.
    pub password: Seq<char>,
    /// The folder path that is being checked.
    pub folder: Seq<char>,
}

/// The provisioning engine.
pub struct Engine {
    mode: Mode,
    phase: Phase,
    username: String,
    password: String,
    folder: String,
}

impl View for Engine {
    type V = EngineView;

    closed spec fn view(&self) -> EngineView {
        EngineView {
            mode: self.mode,
            phase: self.phase,
            username: self.username@,
            password: self.password@,
            folder: self.folder@,
        }
    }
}

/// An engine in the given phase that holds on to nothing.
pub open spec fn idle(mode: Mode, phase: Phase) -> EngineView {
    EngineView { mode, phase, username: Seq::empty(), password: Seq::empty(), folder: Seq::empty() }
}

/// Whether a user name is held in the given phase.
pub open spec fn holds_username(phase: Phase) -> bool {
    phase == Phase::Password || phase == Phase::ConfirmUsername || phase == Phase::ConfirmPassword
}

/// Whether a password is held in the given phase.
pub open spec fn holds_password(phase: Phase) -> bool {
    phase == Phase::ConfirmUsername || phase == Phase::ConfirmPassword
}

/// What holds of an engine at all times: it holds a user name, a password
/// or a path only in the phases that need them, and a name or password
/// that it holds is within policy.
pub open spec fn sound(e: EngineView) -> bool {
    &&& if holds_username(e.phase) {
        valid_username(e.username)
    } else {
        e.username == Seq::<char>::empty()
    }
    &&& if holds_password(e.phase) {
        valid_password(e.password)
    } else {
        e.password == Seq::<char>::empty()
    }
    &&& e.phase != Phase::FolderCheck ==> e.folder == Seq::<char>::empty()
}

/// What the engine waits for in a given state.
pub open spec fn request_of(e: EngineView) -> RequestView {
    match e.phase {
        Phase::LoginConsent => RequestView::Line(
            if e.mode == Mode::Initialize {
                Prompt::NoLogin
            } else {
                Prompt::AnotherLogin
            },
        ),
        Phase::Username => RequestView::Line(Prompt::Username),
        Phase::Password => RequestView::Secret(Prompt::Password),
        Phase::ConfirmUsername => RequestView::Line(Prompt::ConfirmUsername),
        Phase::ConfirmPassword => RequestView::Secret(Prompt::ConfirmPassword),
        Phase::FolderConsent => RequestView::Line(
            if e.mode == Mode::Initialize {
                Prompt::NoFolder
            } else {
                Prompt::AnotherFolder
            },
        ),
        Phase::FolderPath => RequestView::Line(Prompt::FolderPath),
        Phase::FolderCheck => RequestView::Probe(e.folder),
        Phase::Finished => RequestView::Done,
        Phase::Aborted => RequestView::Abort,
    }
}

/// The phase in which a run starts on a store with the given contents. To
/// initialise a store that is complete there is nothing to do; otherwise
/// the login comes first where it is missing.
pub open spec fn first_phase(mode: Mode, config: ConfigView) -> Phase {
    match mode {
        Mode::Initialize => if complete(config) {
            Phase::Finished
        } else if config.logins.is_empty() {
            Phase::LoginConsent
        } else {
            Phase::FolderConsent
        },
        Mode::Append => Phase::LoginConsent,
    }
}

/// The phase that follows when the operator declines at a consent gate.
pub open spec fn after_decline(mode: Mode, phase: Phase) -> Phase {
    match mode {
        Mode::Initialize => Phase::Aborted,
        Mode::Append => if phase == Phase::LoginConsent {
            Phase::FolderConsent
        } else {
            Phase::Finished
        },
    }
}

/// The phase that follows a login that was taken into the store whose
/// contents were `before`.
pub open spec fn after_login(mode: Mode, before: ConfigView) -> Phase {
    match mode {
        Mode::Initialize => if before.folders.is_empty() {
            Phase::FolderConsent
        } else {
            Phase::Finished
        },
        Mode::Append => Phase::LoginConsent,
    }
}

/// The phase that follows a folder that was taken into the store.
pub open spec fn after_folder(mode: Mode) -> Phase {
    match mode {
        Mode::Initialize => Phase::Finished,
        Mode::Append => Phase::FolderConsent,
    }
}

/// The notice for a user name that already has a login.
pub open spec fn duplicate_notice(mode: Mode) -> Notice {
    match mode {
        Mode::Initialize => Notice::DuplicateLogin,
        Mode::Append => Notice::DuplicateUser,
    }
}

/// Where one event leads: the engine and the store afterwards, and what the
/// operator is told.
pub struct Outcome {
    pub engine: EngineView,
    pub config: ConfigView,
    pub notice: Option<Notice>,
}

/// The outcome in which only the engine has changed.
pub open spec fn moved(engine: EngineView, config: ConfigView) -> Outcome {
    Outcome { engine, config, notice: None }
}

/// The outcome of an entry that is not taken: the store stays as it is and
/// the operator is told why.
pub open spec fn refused(engine: EngineView, config: ConfigView, notice: Notice) -> Outcome {
    Outcome { engine, config, notice: Some(notice) }
}

/// Where a line leads.
pub open spec fn after_line(e: EngineView, c: ConfigView, line: Seq<char>) -> Outcome {
    match e.phase {
        Phase::LoginConsent | Phase::FolderConsent => if declines(line) {
            moved(idle(e.mode, after_decline(e.mode, e.phase)), c)
        } else if e.phase == Phase::LoginConsent {
            moved(idle(e.mode, Phase::Username), c)
        } else {
            moved(idle(e.mode, Phase::FolderPath), c)
        },
        Phase::Username => if valid_username(chopped(line)) {
            moved(EngineView { phase: Phase::Password, username: chopped(line), ..e }, c)
        } else {
            refused(e, c, Notice::UsernameLength)
        },
        Phase::ConfirmUsername => if chopped(line) == e.username {
            moved(EngineView { phase: Phase::ConfirmPassword, ..e }, c)
        } else {
            refused(idle(e.mode, Phase::Username), c, Notice::UsernameMismatch)
        },
        Phase::FolderPath => moved(
            EngineView { phase: Phase::FolderCheck, folder: stripped(line), ..e },
            c,
        ),
        _ => moved(e, c),
    }
}

/// Where a confirmed login leads: into the store, unless its user name has
/// a login already.
pub open spec fn after_confirmation(e: EngineView, c: ConfigView) -> Outcome {
    if c.logins.contains_key(e.username) {
        refused(idle(e.mode, Phase::LoginConsent), c, duplicate_notice(e.mode))
    } else {
        moved(
            idle(e.mode, after_login(e.mode, c)),
            ConfigView {
                logins: c.logins.insert(e.username, stored_digest(bytes_of(e.password))),
                ..c
            },
        )
    }
}

/// Where a secret leads.
pub open spec fn after_secret(e: EngineView, c: ConfigView, secret: Seq<char>) -> Outcome {
    match e.phase {
        Phase::Password => if valid_password(secret) {
            moved(EngineView { phase: Phase::ConfirmUsername, password: secret, ..e }, c)
        } else {
            refused(e, c, Notice::PasswordLength)
        },
        Phase::ConfirmPassword => if secret == e.password {
            after_confirmation(e, c)
        } else {
            refused(idle(e.mode, Phase::Username), c, Notice::PasswordMismatch)
        },
        _ => moved(e, c),
    }
}

/// Where the answer to a probe leads: the path is taken only if it is
/// absolute and names an existing directory.
pub open spec fn after_probe(e: EngineView, c: ConfigView, absolute: bool, directory: bool) -> Outcome {
    match e.phase {
        Phase::FolderCheck => if absolute && directory {
            moved(
                idle(e.mode, after_folder(e.mode)),
                ConfigView { folders: c.folders.insert(e.folder), ..c },
            )
        } else {
            refused(idle(e.mode, Phase::FolderPath), c, Notice::InvalidPath)
        },
        _ => moved(e, c),
    }
}

/// Where an event leads. An event that the engine did not ask for changes
/// nothing.
pub open spec fn after(e: EngineView, c: ConfigView, event: EventView) -> Outcome {
    match event {
        EventView::Line(line) => after_line(e, c, line),
        EventView::Secret(secret) => after_secret(e, c, secret),
        EventView::Probed { absolute, directory } => after_probe(e, c, absolute, directory),
    }
}

/// Every digest that is in the store `after` and was not in `before` has 32
/// characters, and so differs from `secret` unless that has 32 characters
/// too.
pub open spec fn new_digests_are_no_secret(
    before: ConfigView,
    after: ConfigView,
    secret: Seq<char>,
) -> bool {
    forall|name: Seq<char>|
        #![trigger after.logins[name]]
        after.logins.contains_key(name) && !before.logins.contains_key(name) ==> {
            &&& after.logins[name].len() == DIGEST_TEXT_LEN
            &&& secret.len() != DIGEST_TEXT_LEN ==> after.logins[name] != secret
        }
}

impl Engine {
    /// What holds of the engine at all times.
    pub open spec fn wf(&self) -> bool {
        sound(self@)
    }

    /// An engine for a run in `mode` on the store `config`.
    pub fn start(mode: Mode, config: &ServerConfiguration) -> (engine: Self)
        ensures
            engine.wf(),
            engine@ == idle(mode, first_phase(mode, config@)),
    {
        let status = config.status();
        let phase = match mode {
            Mode::Initialize => if status.done() {
                Phase::Finished
            } else if !status.login_info {
                Phase::LoginConsent
            } else {
                Phase::FolderConsent
            },
            Mode::Append => Phase::LoginConsent,
        };
        Self { mode, phase, username: String::new(), password: String::new(), folder: String::new() }
    }

    /// The mode of the run.
    pub fn mode(&self) -> (mode: Mode)
        ensures
            mode == self@.mode,
    {
        self.mode
    }

    /// Where the flow stands.
    pub fn phase(&self) -> (phase: Phase)
        ensures
            phase == self@.phase,
    {
        self.phase
    }

    /// Whether the flow has come to its end, one way or the other.
    pub fn is_over(&self) -> (over: bool)
        ensures
            over == (self@.phase == Phase::Finished || self@.phase == Phase::Aborted),
    {
        match self.phase {
            Phase::Finished | Phase::Aborted => true,
            _ => false,
        }
    }

    /// What the engine needs next.
    pub fn pending(&self) -> (request: Request)
        ensures
            request@ == request_of(self@),
    {
        match self.phase {
            Phase::LoginConsent => Request::Line(
                match self.mode {
                    Mode::Initialize => Prompt::NoLogin,
                    Mode::Append => Prompt::AnotherLogin,
                },
            ),
            Phase::Username => Request::Line(Prompt::Username),
            Phase::Password => Request::Secret(Prompt::Password),
            Phase::ConfirmUsername => Request::Line(Prompt::ConfirmUsername),
            Phase::ConfirmPassword => Request::Secret(Prompt::ConfirmPassword),
            Phase::FolderConsent => Request::Line(
                match self.mode {
                    Mode::Initialize => Prompt::NoFolder,
                    Mode::Append => Prompt::AnotherFolder,
                },
            ),
            Phase::FolderPath => Request::Line(Prompt::FolderPath),
            Phase::FolderCheck => Request::Probe(self.folder.clone()),
            Phase::Finished => Request::Done,
            Phase::Aborted => Request::Abort,
        }
    }

    /// Lets go of whatever the engine holds on to and moves to `phase`.
    fn drop_to(&mut self, phase: Phase)
        ensures
            final(self)@ == idle(old(self)@.mode, phase),
    {
        self.username = String::new();
        self.password = String::new();
        self.folder = String::new();
        self.phase = phase;
    }

    /// The phase after a decline at the present consent gate.
    fn declined(&self) -> (phase: Phase)
        ensures
            phase == after_decline(self@.mode, self@.phase),
    {
        match self.mode {
            Mode::Initialize => Phase::Aborted,
            Mode::Append => match self.phase {
                Phase::LoginConsent => Phase::FolderConsent,
                _ => Phase::Finished,
            },
        }
    }

    /// Takes a line that the operator typed.
    pub fn on_line(&mut self, line: String) -> (notice: Option<Notice>)
        requires
            old(self).wf(),
        ensures
            final(self).wf(),
            forall|c: ConfigView|
                #![trigger after_line(old(self)@, c, line@)]
                after_line(old(self)@, c, line@) == (Outcome {
                    engine: final(self)@,
                    config: c,
                    notice,
                }),
    {
        match self.phase {
            Phase::LoginConsent => {
                if is_decline(line.as_str()) {
                    let next = self.declined();
                    self.drop_to(next);
                } else {
                    self.drop_to(Phase::Username);
                }
                None
            },
            Phase::FolderConsent => {
                if is_decline(line.as_str()) {
                    let next = self.declined();
                    self.drop_to(next);
                } else {
                    self.drop_to(Phase::FolderPath);
                }
                None
            },
            Phase::Username => {
                let name = chop(line);
                if is_valid_username(name.as_str()) {
                    self.username = name;
                    self.phase = Phase::Password;
                    None
                } else {
                    Some(Notice::UsernameLength)
                }
            },
            Phase::ConfirmUsername => {
                let again = chop(line);
                if again == self.username {
                    self.phase = Phase::ConfirmPassword;
                    None
                } else {
                    self.drop_to(Phase::Username);
                    Some(Notice::UsernameMismatch)
                }
            },
            Phase::FolderPath => {
                self.folder = strip(line.as_str()).to_owned();
                self.phase = Phase::FolderCheck;
                None
            },
            _ => None,
        }
    }

    /// Takes a secret that the operator typed.
    pub fn on_secret(&mut self, config: &mut ServerConfiguration, secret: String) -> (notice:
        Option<Notice>)
        requires
            old(self).wf(),
            old(config).wf(),
        ensures
            final(self).wf(),
            final(config).wf(),
            after_secret(old(self)@, old(config)@, secret@) == (Outcome {
                engine: final(self)@,
                config: final(config)@,
                notice,
            }),
            new_digests_are_no_secret(old(config)@, final(config)@, secret@),
    {
        match self.phase {
            Phase::Password => {
                if is_valid_password(secret.as_str()) {
                    self.password = secret;
                    self.phase = Phase::ConfirmUsername;
                    None
                } else {
                    Some(Notice::PasswordLength)
                }
            },
            Phase::ConfirmPassword => {
                if secret == self.password {
                    proof {
                        lemma_valid_password_is_hashable(self.password@);
                    }
                    let text = digest(self.password.as_str());
                    let mut name = String::new();
                    core::mem::swap(&mut self.username, &mut name);
                    let ghost before = config@;
                    let added = config.get_logins_mut().insert(LoginInfo::from_parts(name, text));
                    if added {
                        let next = match self.mode {
                            Mode::Initialize => if config.get_folders().is_empty() {
                                Phase::FolderConsent
                            } else {
                                Phase::Finished
                            },
                            Mode::Append => Phase::LoginConsent,
                        };
                        self.drop_to(next);
                        assert(config@.logins == before.logins.insert(name@, text@));
                        assert(config@ == (ConfigView {
                            logins: before.logins.insert(name@, text@),
                            ..before
                        }));
                        None
                    } else {
                        let notice = match self.mode {
                            Mode::Initialize => Notice::DuplicateLogin,
                            Mode::Append => Notice::DuplicateUser,
                        };
                        self.drop_to(Phase::LoginConsent);
                        assert(config@ == before);
                        Some(notice)
                    }
                } else {
                    self.drop_to(Phase::Username);
                    Some(Notice::PasswordMismatch)
                }
            },
            _ => None,
        }
    }

    /// Takes what was found out about the path of the last probe.
    pub fn on_probe(&mut self, config: &mut ServerConfiguration, absolute: bool, directory: bool) -> (notice:
        Option<Notice>)
        requires
            old(self).wf(),
            old(config).wf(),
        ensures
            final(self).wf(),
            final(config).wf(),
            after_probe(old(self)@, old(config)@, absolute, directory) == (Outcome {
                engine: final(self)@,
                config: final(config)@,
                notice,
            }),
    {
        match self.phase {
            Phase::FolderCheck => {
                if absolute && directory {
                    let mut path = String::new();
                    core::mem::swap(&mut self.folder, &mut path);
                    let ghost before = config@;
                    let _ = config.get_folders_mut().insert(path);
                    let next = match self.mode {
                        Mode::Initialize => Phase::Finished,
                        Mode::Append => Phase::FolderConsent,
                    };
                    self.drop_to(next);
                    assert(config@ == (ConfigView {
                        folders: before.folders.insert(path@),
                        ..before
                    }));
                    None
                } else {
                    self.drop_to(Phase::FolderPath);
                    Some(Notice::InvalidPath)
                }
            },
            _ => None,
        }
    }

    /// Takes one event and moves on: the engine and the store are afterwards
    /// what `after` says, and the notice, if there is one, is for the
    /// operator. A digest that the step stores is never the secret that was
    /// typed, as far as lengths can tell.
    pub fn step(&mut self, config: &mut ServerConfiguration, event: Event) -> (notice: Option<
        Notice,
    >)
        requires
            old(self).wf(),
            old(config).wf(),
        ensures
            final(self).wf(),
            final(config).wf(),
            after(old(self)@, old(config)@, event@) == (Outcome {
                engine: final(self)@,
                config: final(config)@,
                notice,
            }),
            event@ matches EventView::Secret(secret) ==> new_digests_are_no_secret(
                old(config)@,
                final(config)@,
                secret,
            ),
    {
        match event {
            Event::Line(line) => {
                let notice = self.on_line(line);
                assert(after_line(old(self)@, config@, line@).config == config@);
                notice
            },
            Event::Secret(secret) => self.on_secret(config, secret),
            Event::Probed { absolute, directory } => self.on_probe(config, absolute, directory),
        }
    }
}

} // verus!
