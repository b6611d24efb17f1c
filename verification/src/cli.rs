//! What the command line asks for, and the options that follow from it.

use crate::croc::{join, separated, Options};
use crate::utils::{decimal, port_text};
use vstd::prelude::*;
use vstd::string::*;

verus! {

/// The first relay port where none is given.
pub const DEFAULT_PORT: u16 = 9009;

/// The number of transfer ports where none is given.
pub const DEFAULT_TRANSFERS: usize = 4;

/// The command line as a whole.
#[derive(Debug)]
pub struct App {
    pub global: GlobalArgs,
    pub command: Option<CrocCommand>,
}

/// What every command takes.
#[derive(Debug)]
pub struct GlobalArgs {
    pub classic: bool,
    pub remember: bool,
    pub relay: String,
    pub relay6: String,
    pub pass: String,
    pub local: bool,
    pub ip: String,
    pub socks5: String,
    pub connect: String,
    pub args: Vec<String>,
}

/// The commands.
#[derive(Debug)]
pub enum CrocCommand {
    Send(SendArgs),
    Relay,
}

/// What the command that sends takes.
#[derive(Debug)]
pub struct SendArgs {
    pub fnames: Vec<String>,
    pub zip: bool,
    pub hash: String,
    pub text: Option<String>,
    pub no_local: Option<bool>,
    pub no_multi: Option<bool>,
    pub git: bool,
    pub port: u16,
    pub transfers: usize,
    pub code: String,
}

/// What a command line comes to.
#[derive(Debug, Clone, Copy, PartialEq, Eq, Structural)]
pub enum Action {
    /// Send what the command names.
    Send,
    /// Ask whether to switch the classic mode, and do so.
    ToggleClassic,
    /// Receive.
    Receive,
}

/// The first relay port that a sender uses.
pub open spec fn first_port(port: u16) -> u16 {
    if port == 0 {
        DEFAULT_PORT
    } else {
        port
    }
}

/// The number of transfer ports that a sender uses.
pub open spec fn transfer_count(transfers: usize) -> usize {
    if transfers == 0 {
        DEFAULT_TRANSFERS
    } else {
        transfers
    }
}

/// The shared secret that the free arguments of a receiver give: a single
/// argument is the secret, three or four are its parts, to be joined with
/// hyphens; any other number gives none.
pub open spec fn secret_of(args: Seq<String>) -> Seq<char> {
    if args.len() == 1 {
        args[0]@
    } else if args.len() == 3 || args.len() == 4 {
        separated(args, "-"@)
    } else {
        Seq::<char>::empty()
    }
}

/// Whether an answer, in lower case, is a yes.
pub fn confirms(choice: &str) -> (yes: bool)
    ensures
        yes == (choice@ == "y"@ || choice@ == "yes"@),
{
    let choice: String = choice.to_owned();
    choice == "y".to_owned() || choice == "yes".to_owned()
}

/// The relay password: what the file named `pass` holds, where there is
/// such a file and `file` is what it holds, else `pass` itself.
pub fn determine_pass(pass: &str, file: Option<String>) -> (password: String)
    ensures
        password@ == match file {
            Some(text) => text@,
            None => pass@,
        },
{
    match file {
        Some(text) => text,
        None => pass.to_owned(),
    }
}

impl App {
    /// What the command line comes to: the command that sends is run; any
    /// other, and none, leaves the choice to the classic switch, and
    /// without it the client receives.
    pub fn run(&self) -> (action: Action)
        ensures
            action == if self.command matches Some(CrocCommand::Send(_)) {
                Action::Send
            } else if self.global.classic {
                Action::ToggleClassic
            } else {
                Action::Receive
            },
    {
        match &self.command {
            Some(CrocCommand::Send(_)) => Action::Send,
            _ => {
                if self.global.classic {
                    Action::ToggleClassic
                } else {
                    Action::Receive
                }
            },
        }
    }
}

/// The options of a sender. Its relay ports are the first port and as many
/// after it as there are transfers; all of them are ports.
pub fn send(args: &SendArgs, global: &GlobalArgs, relay_password: String) -> (opts: Options)
    requires
        first_port(args.port) + transfer_count(args.transfers) <= u16::MAX,
    ensures
        opts.is_sender,
        opts.shared_secret@ == "8971-djkasjd"@,
        opts.zip_folder == args.zip,
        opts.git_ignore == args.git,
        opts.relay_address@ == global.relay@,
        opts.relay_address6@ == global.relay6@,
        opts.relay_password@ == relay_password@,
        opts.disable_local == (args.no_local == Some(true)),
        opts.only_local == global.local,
        opts.ip@ == Seq::<char>::empty(),
        opts.relay_ports@.len() == transfer_count(args.transfers) + 1,
        forall|i: int|
            0 <= i < opts.relay_ports@.len() ==> (#[trigger] opts.relay_ports@[i])@ == decimal(
                (first_port(args.port) + i) as nat,
            ),
{
    let port_param: u16 = if args.port == 0 {
        DEFAULT_PORT
    } else {
        args.port
    };
    let transfers_param: usize = if args.transfers == 0 {
        DEFAULT_TRANSFERS
    } else {
        args.transfers
    };
    let mut ports: Vec<String> = Vec::new();
    let mut i: usize = 0;
    while i < transfers_param + 1
        invariant
            i <= transfers_param + 1,
            port_param + transfers_param <= u16::MAX,
            ports@.len() == i,
            forall|j: int|
                0 <= j < i ==> (#[trigger] ports@[j])@ == decimal((port_param + j) as nat),
        decreases transfers_param + 1 - i,
    {
        ports.push(port_text(port_param + i as u16));
        i += 1;
    }
    let disable_local: bool = match args.no_local {
        Some(b) => b,
        None => false,
    };
    Options {
        shared_secret: "8971-djkasjd".to_owned(),
        is_sender: true,
        zip_folder: args.zip,
        git_ignore: args.git,
        relay_address: global.relay.clone(),
        relay_address6: global.relay6.clone(),
        relay_password,
        disable_local,
        only_local: global.local,
        relay_ports: ports,
        ip: String::new(),
    }
}

/// The options of a receiver.
pub fn receive(global: &GlobalArgs, relay_password: String) -> (opts: Options)
    ensures
        !opts.is_sender,
        opts.shared_secret@ == secret_of(global.args@),
        !opts.zip_folder,
        !opts.git_ignore,
        opts.relay_address@ == global.relay@,
        opts.relay_address6@ == global.relay6@,
        opts.relay_password@ == relay_password@,
        !opts.disable_local,
        opts.only_local == global.local,
        opts.relay_ports@.len() == 0,
        opts.ip@ == global.ip@,
{
    let len: usize = global.args.len();
    let shared_secret: String = if len == 1 {
        global.args[0].clone()
    } else if len == 3 || len == 4 {
        assert(global.args@.subrange(0, len as int) =~= global.args@);
        join(&global.args, 0, "-")
    } else {
        String::new()
    };
    Options {
        shared_secret,
        is_sender: false,
        zip_folder: false,
        git_ignore: false,
        relay_address: global.relay.clone(),
        relay_address6: global.relay6.clone(),
        relay_password,
        disable_local: false,
        only_local: global.local,
        relay_ports: Vec::new(),
        ip: global.ip.clone(),
    }
}

} // verus!
