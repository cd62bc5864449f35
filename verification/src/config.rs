//! The command line of the server.

use crate::numeral::{parse_u16, parsed_u16};
use crate::text::{opt_text, same_text, texts};
use vstd::prelude::*;
use vstd::string::*;

verus! {

/// The port the server listens on when none is given.
pub const PORT_DEFAULT: u16 = 3000;

/// What the command line configures.
#[derive(Debug)]
pub struct Config {
    pub port: u16,
}

/// The position of the first argument at or after `from` that is the flag,
/// or the number of arguments when there is none.
pub open spec fn flag_position(args: Seq<Seq<char>>, flag: Seq<char>, from: int) -> int
    decreases args.len() - from,
{
    if from < 0 || from >= args.len() {
        args.len() as int
    } else if args[from] == flag {
        from
    } else {
        flag_position(args, flag, from + 1)
    }
}

/// Whether the flag, if it is given, is followed by a value.
pub open spec fn flag_has_value(args: Seq<Seq<char>>, flag: Seq<char>) -> bool {
    flag_position(args, flag, 0) >= args.len() || flag_position(args, flag, 0) + 1 < args.len()
}

/// The value that follows the flag, if the flag is given.
pub open spec fn flag_value(args: Seq<Seq<char>>, flag: Seq<char>) -> Option<Seq<char>>
    recommends
        flag_has_value(args, flag),
{
    let at = flag_position(args, flag, 0);
    if at >= args.len() {
        None
    } else {
        Some(args[at + 1])
    }
}

/// The arguments without the flag and its value.
pub open spec fn without_flag(args: Seq<Seq<char>>, flag: Seq<char>) -> Seq<Seq<char>>
    recommends
        flag_has_value(args, flag),
{
    let at = flag_position(args, flag, 0);
    if at >= args.len() {
        args
    } else {
        args.subrange(0, at) + args.subrange(at + 2, args.len() as int)
    }
}

/// Finds the first argument that is the flag.
pub fn find_flag(args: &Vec<String>, flag: &str) -> (at: usize)
    ensures
        at == flag_position(texts(args@), flag@, 0),
        at <= args@.len(),
{
    let mut i: usize = 0;
    while i < args.len()
        invariant
            i <= args@.len(),
            flag_position(texts(args@), flag@, 0) == flag_position(texts(args@), flag@, i as int),
        decreases args@.len() - i,
    {
        assert(texts(args@)[i as int] == args@[i as int]@);
        if same_text(args[i].as_str(), flag) {
            return i;
        }
        i = i + 1;
    }
    i
}

/// Takes a flag and the value behind it out of the arguments and returns
/// the value; without the flag the arguments stay as they are.
///
/// A flag that is the last argument has no value: such arguments are not
/// accepted.
pub fn find_flag_with_value(args: &mut Vec<String>, flag: &'static str) -> (r: Option<String>)
    requires
        flag_has_value(texts(old(args)@), flag@),
    ensures
        opt_text(r) == flag_value(texts(old(args)@), flag@),
        texts(final(args)@) == without_flag(texts(old(args)@), flag@),
{
    let at = find_flag(args, flag);
    if at >= args.len() {
        return None;
    }
    let ghost before = texts(args@);
    assert(before[at + 1] == args@[at + 1]@);
    args.remove(at);
    let value = args.remove(at);
    assert(texts(args@) =~= before.subrange(0, at as int) + before.subrange(
        at + 2,
        before.len() as int,
    ));
    Some(value)
}

/// Whether the arguments configure a server: `--port`, if given, is
/// followed by a port number.
pub open spec fn is_valid_command_line(args: Seq<Seq<char>>) -> bool {
    flag_has_value(args, "--port"@) && match flag_value(args, "--port"@) {
        Some(value) => parsed_u16(value).is_some(),
        None => true,
    }
}

/// The port that the arguments configure: the value of `--port`, or the
/// default.
pub open spec fn configured_port(args: Seq<Seq<char>>) -> u16
    recommends
        is_valid_command_line(args),
{
    match flag_value(args, "--port"@) {
        Some(value) => parsed_u16(value).unwrap(),
        None => PORT_DEFAULT,
    }
}

/// Why a command line configures no server.
#[derive(Debug, Clone, Copy, PartialEq, Eq, Structural)]
pub enum ConfigError {
    /// `--port` is the last argument.
    MissingPortValue,
    /// What follows `--port` is no port number.
    InvalidPort,
}

impl Config {
    /// Reads the configuration from the arguments.
    ///
    /// The arguments must be valid; `try_new` is for arguments of which
    /// that is not known.
    pub fn new(args: Vec<String>) -> (config: Config)
        requires
            is_valid_command_line(texts(args@)),
        ensures
            config.port == configured_port(texts(args@)),
    {
        let mut args = args;
        let port = match find_flag_with_value(&mut args, "--port") {
            None => PORT_DEFAULT,
            Some(value) => match parse_u16(value.as_str()) {
                Some(port) => port,
                None => vstd::pervasive::unreached(),
            },
        };
        Config { port }
    }

    /// Reads the configuration from the arguments, or says what is wrong
    /// with them.
    pub fn try_new(args: Vec<String>) -> (r: Result<Config, ConfigError>)
        ensures
            match r {
                Ok(config) => is_valid_command_line(texts(args@)) && config.port
                    == configured_port(texts(args@)),
                Err(ConfigError::MissingPortValue) => !flag_has_value(texts(args@), "--port"@),
                Err(ConfigError::InvalidPort) => flag_has_value(texts(args@), "--port"@)
                    && !is_valid_command_line(texts(args@)),
            },
    {
        let at = find_flag(&args, "--port");
        if at < args.len() {
            if at + 1 == args.len() {
                return Err(ConfigError::MissingPortValue);
            }
            assert(texts(args@)[at + 1] == args@[at + 1]@);
            if parse_u16(args[at + 1].as_str()).is_none() {
                return Err(ConfigError::InvalidPort);
            }
        }
        Ok(Config::new(args))
    }
}

} // verus!
