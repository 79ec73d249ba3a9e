use vstd::prelude::*;
use crate::text::lit;

use crate::state::GreetAlign;
use crate::text::{contains_char, push_str, str_eq};

verus! {

/// The greeter's settings, as given on the command line.
#[derive(Debug)]
pub struct Config {
    pub cmd: Option<String>,
    pub env: Vec<String>,
    pub sessions: Option<String>,
    pub xsessions: Option<String>,
    pub session_wrapper: Option<String>,
    pub xsession_wrapper: String,
    pub no_xsession_wrapper: bool,
    pub issue: bool,
    pub greeting: Option<String>,
    pub ascii_art: Option<String>,
    pub width: u16,
    pub time: bool,
    pub time_format: Option<String>,
    pub theme: Option<String>,
    pub bg_color: String,
    pub window_padding: u16,
    pub container_padding: u16,
    pub prompt_padding: u16,
    pub greet_align: String,
    pub asterisks: bool,
    pub asterisks_char: String,
    pub remember: bool,
    pub remember_session: bool,
    pub remember_user_session: bool,
    pub user_menu: bool,
    pub user_menu_min_uid: Option<u16>,
    pub user_menu_max_uid: Option<u16>,
    pub power_shutdown: Option<String>,
    pub power_reboot: Option<String>,
    pub power_suspend: String,
    pub power_hibernate: String,
    pub vt: Option<u32>,
    pub no_vt_switch: bool,
    pub numlock: bool,
    pub kb_command: u8,
    pub kb_sessions: u8,
    pub kb_power: u8,
    pub kb_shutdown: Option<u8>,
    pub kb_reboot: Option<u8>,
    pub kb_suspend: Option<u8>,
    pub kb_hibernate: Option<u8>,
    pub debug: Option<String>,
}

/// Why a set of settings is refused.
#[derive(Debug, PartialEq, Eq)]
pub enum ConfigError {
    /// `--issue` and `--greeting` together.
    IssueAndGreeting,
    /// `--remember-user-session` without `--remember`.
    UserSessionWithoutRemember,
    /// `--remember-session` and `--remember-user-session` together.
    SessionAndUserSession,
    /// `--env` without `--cmd`.
    EnvWithoutCmd,
    /// An `--env` definition without `=`.
    MalformedEnv(String),
    /// `--asterisks` with an empty `--asterisks-char`.
    EmptyAsterisksChar,
    /// Two keybindings on the same function key.
    DuplicateKeybindings,
    /// A `--greet-align` other than left, center or right.
    InvalidGreetAlign,
}

/// The seven function-key bindings, in the order they are checked.
pub open spec fn keybindings(c: Config) -> Seq<Option<u8>> {
    seq![
        Some(c.kb_command),
        Some(c.kb_sessions),
        Some(c.kb_power),
        c.kb_shutdown,
        c.kb_reboot,
        c.kb_suspend,
        c.kb_hibernate,
    ]
}

/// No function key is bound twice.
pub open spec fn keybindings_distinct(c: Config) -> bool {
    let k = keybindings(c);
    forall|i: int, j: int|
        0 <= i < j < k.len() && k[i] is Some && k[j] is Some ==> k[i] != k[j]
}

/// An environment definition has the form `KEY=VALUE`.
pub open spec fn env_well_formed(e: Seq<char>) -> bool {
    e.contains('=')
}

/// The greeting alignments that may be asked for.
pub open spec fn greet_align_valid(a: Seq<char>) -> bool {
    a == "left"@ || a == "center"@ || a == "right"@
}

/// `i` is the index of the first `--env` definition without `=`.
pub open spec fn is_first_malformed_env(c: Config, i: int) -> bool {
    &&& 0 <= i < c.env.len()
    &&& !env_well_formed(c.env@[i]@)
    &&& forall|j: int| 0 <= j < i ==> env_well_formed(#[trigger] c.env@[j]@)
}

/// The index of the first `--env` definition without `=`, if any.
pub open spec fn first_malformed_env(c: Config) -> Option<int> {
    if exists|i: int| is_first_malformed_env(c, i) {
        Some(choose|i: int| is_first_malformed_env(c, i))
    } else {
        None
    }
}

/// The first rule that the settings break, checked in a fixed order.
pub open spec fn config_error(c: Config) -> Option<ConfigError> {
    if c.issue && c.greeting is Some {
        Some(ConfigError::IssueAndGreeting)
    } else if c.remember_user_session && !c.remember {
        Some(ConfigError::UserSessionWithoutRemember)
    } else if c.remember_session && c.remember_user_session {
        Some(ConfigError::SessionAndUserSession)
    } else if c.env.len() > 0 && c.cmd is None {
        Some(ConfigError::EnvWithoutCmd)
    } else if first_malformed_env(c) is Some {
        Some(ConfigError::MalformedEnv(c.env@[first_malformed_env(c)->0]))
    } else if c.asterisks && c.asterisks_char@.len() == 0 {
        Some(ConfigError::EmptyAsterisksChar)
    } else if !keybindings_distinct(c) {
        Some(ConfigError::DuplicateKeybindings)
    } else if !greet_align_valid(c.greet_align@) {
        Some(ConfigError::InvalidGreetAlign)
    } else {
        None
    }
}

impl Config {
    /// Checks the rules that tie settings together and reports the first
    /// that is broken.
    pub fn validate(&self) -> (r: Result<(), ConfigError>)
        ensures
            r is Ok <==> config_error(*self) is None,
            r is Err ==> Some(r->Err_0) == config_error(*self),
    {
        if self.issue && self.greeting.is_some() {
            return Err(ConfigError::IssueAndGreeting);
        }
        if self.remember_user_session && !self.remember {
            return Err(ConfigError::UserSessionWithoutRemember);
        }
        if self.remember_session && self.remember_user_session {
            return Err(ConfigError::SessionAndUserSession);
        }
        if self.env.len() > 0 && self.cmd.is_none() {
            return Err(ConfigError::EnvWithoutCmd);
        }
        let mut i: usize = 0;
        while i < self.env.len()
            invariant
                i <= self.env.len(),
                forall|j: int| 0 <= j < i ==> env_well_formed(#[trigger] self.env@[j]@),
                !(self.issue && self.greeting is Some),
                !(self.remember_user_session && !self.remember),
                !(self.remember_session && self.remember_user_session),
                !(self.env.len() > 0 && self.cmd is None),
            decreases self.env.len() - i,
        {
            if !contains_char(self.env[i].as_str(), '=') {
                proof {
                    let w = i as int;
                    assert(is_first_malformed_env(*self, w));
                    let k = first_malformed_env(*self)->0;
                    assert(is_first_malformed_env(*self, k));
                    if k < w {
                        assert(env_well_formed(self.env@[k]@));
                    }
                    if w < k {
                        assert(env_well_formed(self.env@[w]@));
                    }
                }
                return Err(ConfigError::MalformedEnv(self.env[i].clone()));
            }
            i += 1;
        }
        if self.asterisks && self.asterisks_char.as_str().is_empty() {
            return Err(ConfigError::EmptyAsterisksChar);
        }
        if !self.keybindings_are_distinct() {
            return Err(ConfigError::DuplicateKeybindings);
        }
        let a = self.greet_align.as_str();
        proof {
            reveal_strlit("left");
            reveal_strlit("center");
            reveal_strlit("right");
        }
        if !(str_eq(a, "left") || str_eq(a, "center") || str_eq(a, "right")) {
            return Err(ConfigError::InvalidGreetAlign);
        }
        Ok(())
    }

    fn keybindings_are_distinct(&self) -> (r: bool)
        ensures
            r == keybindings_distinct(*self),
    {
        let k: Vec<Option<u8>> = vec![
            Some(self.kb_command),
            Some(self.kb_sessions),
            Some(self.kb_power),
            self.kb_shutdown,
            self.kb_reboot,
            self.kb_suspend,
            self.kb_hibernate,
        ];
        assert(k@ == keybindings(*self));
        let mut i: usize = 0;
        while i < k.len()
            invariant
                k@ == keybindings(*self),
                i <= k.len(),
                forall|a: int, b: int|
                    0 <= a < b < k.len() && a < i && k@[a] is Some && k@[b] is Some ==> k@[a] != k@[b],
            decreases k.len() - i,
        {
            let mut j: usize = i + 1;
            while j < k.len()
                invariant
                    k@ == keybindings(*self),
                    i < k.len(),
                    i + 1 <= j <= k.len(),
                    forall|a: int, b: int|
                        0 <= a < b < k.len() && a < i && k@[a] is Some && k@[b] is Some ==> k@[a] != k@[b],
                    forall|b: int|
                        i < b < j && k@[i as int] is Some && k@[b] is Some ==> k@[i as int] != k@[b],
                decreases k.len() - j,
            {
                if k[i].is_some() && k[j].is_some() && k[i] == k[j] {
                    return false;
                }
                j += 1;
            }
            i += 1;
        }
        true
    }

    /// The greeting alignment named by `greet_align`; anything but "left"
    /// and "right" means centred.
    pub fn greet_align_parsed(&self) -> (r: GreetAlign)
        ensures
            r == (if self.greet_align@ == "left"@ {
                GreetAlign::Left
            } else if self.greet_align@ == "right"@ {
                GreetAlign::Right
            } else {
                GreetAlign::Center
            }),
    {
        let a = self.greet_align.as_str();
        if str_eq(a, "left") {
            GreetAlign::Left
        } else if str_eq(a, "right") {
            GreetAlign::Right
        } else {
            GreetAlign::Center
        }
    }
}

/// The settings with nothing given: no options set, and the documented
/// default value for each option that has one.
pub open spec fn is_cli_default(c: Config) -> bool {
    &&& c.cmd is None
    &&& c.env@.len() == 0
    &&& c.sessions is None
    &&& c.xsessions is None
    &&& c.session_wrapper is None
    &&& c.xsession_wrapper@ == "startx /usr/bin/env"@
    &&& !c.no_xsession_wrapper
    &&& !c.issue
    &&& c.greeting is None
    &&& c.ascii_art is None
    &&& c.width == 80
    &&& !c.time
    &&& c.time_format is None
    &&& c.theme is None
    &&& c.bg_color@ == Seq::<char>::empty()
    &&& c.window_padding == 0
    &&& c.container_padding == 1
    &&& c.prompt_padding == 1
    &&& c.greet_align@ == "center"@
    &&& !c.asterisks
    &&& c.asterisks_char@ == "*"@
    &&& !c.remember
    &&& !c.remember_session
    &&& !c.remember_user_session
    &&& !c.user_menu
    &&& c.user_menu_min_uid is None
    &&& c.user_menu_max_uid is None
    &&& c.power_shutdown is None
    &&& c.power_reboot is None
    &&& c.power_suspend@ == "systemctl suspend"@
    &&& c.power_hibernate@ == "systemctl hibernate"@
    &&& c.vt is None
    &&& !c.no_vt_switch
    &&& !c.numlock
    &&& c.kb_command == 2
    &&& c.kb_sessions == 3
    &&& c.kb_power == 12
    &&& c.kb_shutdown is None
    &&& c.kb_reboot is None
    &&& c.kb_suspend is None
    &&& c.kb_hibernate is None
    &&& c.debug is None
}

impl Config {
    /// The settings when no option is given on the command line.
    pub fn cli_defaults() -> (r: Config)
        ensures
            is_cli_default(r),
    {
        Config {
            cmd: None,
            env: Vec::new(),
            sessions: None,
            xsessions: None,
            session_wrapper: None,
            xsession_wrapper: lit("startx /usr/bin/env"),
            no_xsession_wrapper: false,
            issue: false,
            greeting: None,
            ascii_art: None,
            width: 80,
            time: false,
            time_format: None,
            theme: None,
            bg_color: String::new(),
            window_padding: 0,
            container_padding: 1,
            prompt_padding: 1,
            greet_align: lit("center"),
            asterisks: false,
            asterisks_char: lit("*"),
            remember: false,
            remember_session: false,
            remember_user_session: false,
            user_menu: false,
            user_menu_min_uid: None,
            user_menu_max_uid: None,
            power_shutdown: None,
            power_reboot: None,
            power_suspend: lit("systemctl suspend"),
            power_hibernate: lit("systemctl hibernate"),
            vt: None,
            no_vt_switch: false,
            numlock: false,
            kb_command: 2,
            kb_sessions: 3,
            kb_power: 12,
            kb_shutdown: None,
            kb_reboot: None,
            kb_suspend: None,
            kb_hibernate: None,
            debug: None,
        }
    }
}

} // verus!
