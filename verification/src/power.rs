use vstd::prelude::*;
use crate::text::lit;

use crate::menu::MenuItem;
use crate::state::{App, AuthState, Mode, UiState};
use crate::text::{split_spec, split_strings, views};

verus! {

/// A power action.
#[derive(Debug, Clone, Copy, PartialEq, Eq, Structural)]
pub enum PowerOption {
    Shutdown,
    Reboot,
    Suspend,
    Hibernate,
}

impl Default for PowerOption {
    fn default() -> (r: PowerOption)
        ensures
            r == PowerOption::Shutdown,
    {
        PowerOption::Shutdown
    }
}

/// An entry of the power menu.
#[derive(Debug)]
pub struct Power {
    pub action: PowerOption,
    pub label: String,
    pub command: Option<String>,
}

impl MenuItem for Power {
    fn format(&self) -> (r: String)
        ensures
            r@ == self.label@,
    {
        self.label.clone()
    }
}

/// What the screen needs once a power command has finished.
#[derive(Debug, Clone, Copy, PartialEq, Eq, Structural)]
pub enum PowerPostAction {
    Noop,
    ClearScreen,
}

/// A program to run and its arguments.
#[derive(Debug)]
pub struct PowerCommand {
    pub program: String,
    pub args: Vec<String>,
}

/// The command configured for the first power entry with the given action.
pub open spec fn configured(options: Seq<Power>, option: PowerOption) -> Option<Seq<char>> {
    if exists|i: int| is_first_with(options, option, i) {
        let i = choose|i: int| is_first_with(options, option, i);
        match options[i].command {
            Some(c) => Some(c@),
            None => None,
        }
    } else {
        None
    }
}

pub open spec fn is_first_with(options: Seq<Power>, option: PowerOption, i: int) -> bool {
    &&& 0 <= i < options.len()
    &&& options[i].action == option
    &&& forall|j: int| 0 <= j < i ==> options[j].action != option
}

/// The program and arguments run for a power action: the configured
/// command split at each space (run through `setsid` when asked for, else
/// its first piece is the program), or else the standard command.
pub open spec fn power_spec(options: Seq<Power>, setsid: bool, option: PowerOption) -> (Seq<char>, Seq<Seq<char>>) {
    match configured(options, option) {
        Some(args) => {
            let parts = split_spec(args, ' ');
            if setsid {
                ("setsid"@, parts)
            } else {
                (parts[0], parts.drop_first())
            }
        },
        None => match option {
            PowerOption::Shutdown => ("shutdown"@, seq!["-h"@, "now"@]),
            PowerOption::Reboot => ("shutdown"@, seq!["-r"@, "now"@]),
            PowerOption::Suspend => ("systemctl"@, seq!["suspend"@]),
            PowerOption::Hibernate => ("systemctl"@, seq!["hibernate"@]),
        },
    }
}

fn find_command(options: &Vec<Power>, option: PowerOption) -> (r: Option<&String>)
    ensures
        match r {
            Some(c) => configured(options@, option) == Some(c@),
            None => configured(options@, option) is None,
        },
{
    let mut i: usize = 0;
    while i < options.len()
        invariant
            i <= options.len(),
            forall|j: int| 0 <= j < i ==> options@[j].action != option,
        decreases options.len() - i,
    {
        if options[i].action == option {
            proof {
                assert(is_first_with(options@, option, i as int));
                let k = choose|k: int| is_first_with(options@, option, k);
                if k < i {
                    assert(options@[k].action != option);
                }
                if i < k {
                    assert(options@[i as int].action != option);
                }
            }
            return match &options[i].command {
                Some(c) => Some(c),
                None => None,
            };
        }
        i += 1;
    }
    proof {
        if exists|k: int| is_first_with(options@, option, k) {
            let k = choose|k: int| is_first_with(options@, option, k);
            assert(options@[k].action != option);
        }
    }
    None
}

/// The command to run for a power action.
pub fn power(app: &App, option: PowerOption) -> (r: PowerCommand)
    ensures
        (r.program@, views(r.args@)) == power_spec(app.power.menu.options@, app.power.setsid, option),
{
    match find_command(&app.power.menu.options, option) {
        Some(args) => {
            let mut parts = split_strings(args.as_str(), ' ');
            proof {
                crate::text::lemma_split_nonempty(args@, ' ');
            }
            if app.power.setsid {
                proof {
                    reveal_strlit("setsid");
                }
                PowerCommand { program: lit("setsid"), args: parts }
            } else {
                let ghost before = parts@;
                let program = parts.remove(0);
                assert(views(parts@) =~= views(before).drop_first());
                PowerCommand { program, args: parts }
            }
        },
        None => {
            let mut args: Vec<String> = Vec::new();
            let program = match option {
                PowerOption::Shutdown => {
                    args.push(lit("-h"));
                    args.push(lit("now"));
                    lit("shutdown")
                },
                PowerOption::Reboot => {
                    args.push(lit("-r"));
                    args.push(lit("now"));
                    lit("shutdown")
                },
                PowerOption::Suspend => {
                    args.push(lit("suspend"));
                    lit("systemctl")
                },
                PowerOption::Hibernate => {
                    args.push(lit("hibernate"));
                    lit("systemctl")
                },
            };
            proof {
                assert(views(args@) =~= power_spec(app.power.menu.options@, app.power.setsid, option).1);
            }
            PowerCommand { program, args }
        },
    }
}

impl App {
    /// A power command is about to run: the processing screen is shown.
    pub fn power_started(&mut self)
        ensures
            *final(self) == (App {
                auth: AuthState { mode: Mode::Processing, ..old(self).auth },
                ..*old(self)
            }),
    {
        self.auth.mode = Mode::Processing;
    }

    /// A power command has finished, with an error message when it failed:
    /// on success the screen is to be cleared; on failure the previous screen
    /// comes back with the message.
    pub fn power_finished(&mut self, message: Option<String>) -> (r: PowerPostAction)
        ensures
            message is None ==> r == PowerPostAction::ClearScreen && *final(self) == *old(self),
            message is Some ==> r == PowerPostAction::Noop && *final(self) == (App {
                auth: AuthState { mode: old(self).auth.previous_mode, ..old(self).auth },
                ui: UiState { message: message, ..old(self).ui },
                ..*old(self)
            }),
    {
        match message {
            None => PowerPostAction::ClearScreen,
            Some(m) => {
                self.auth.mode = self.auth.previous_mode;
                self.ui.message = Some(m);
                PowerPostAction::Noop
            },
        }
    }
}

/// The message shown when a power command ends with a failure status:
/// the status as text, and on the next line what the command wrote.
pub fn exited_message(status: &str, output: &str) -> (r: String)
    ensures
        r@ == "Command exited with "@ + status@ + seq!['\n'] + output@,
{
    let mut r = lit("Command exited with ");
    crate::text::push_str(&mut r, status);
    crate::text::push_char(&mut r, '\n');
    crate::text::push_str(&mut r, output);
    r
}

/// The message shown when a power command cannot be run.
pub fn failed_message(error: &str) -> (r: String)
    ensures
        r@ == "Command failed: "@ + error@,
{
    let mut r = lit("Command failed: ");
    crate::text::push_str(&mut r, error);
    r
}

} // verus!
