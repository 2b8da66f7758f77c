//! The command-line surface: parsing the argument words into one of the
//! tool's commands.  Running the commands — and all printing — sits outside
//! the library.

use vstd::prelude::*;

use crate::commands::CaptureTarget;
use crate::text::str_eq;

verus! {

/// One parsed invocation of the tool.
#[derive(Clone, Copy, Debug, PartialEq, Eq, Structural)]
pub enum CliCommand {
    Screenshot { target: CaptureTarget },
    RecordStart { target: CaptureTarget, audio: bool },
    RecordStop,
    Help,
}

/// The words that ask for the usage text.
pub open spec fn is_help_word(s: Seq<char>) -> bool {
    s == "help"@ || s == "--help"@ || s == "-h"@
}

/// The capture target a word names, if any.
pub open spec fn target_of(s: Seq<char>) -> Option<CaptureTarget> {
    if s == "region"@ {
        Some(CaptureTarget::Region)
    } else if s == "fullscreen"@ {
        Some(CaptureTarget::Fullscreen)
    } else {
        None
    }
}

/// The command-line grammar: which argument lists parse, and to what.
/// `None` is a usage error.
pub open spec fn parse_command_spec(av: Seq<Seq<char>>) -> Option<CliCommand>
    recommends
        av.len() >= 1,
{
    if is_help_word(av[0]) {
        Some(CliCommand::Help)
    } else if av[0] == "screenshot"@ {
        if av.len() == 2 {
            match target_of(av[1]) {
                Some(t) => Some(CliCommand::Screenshot { target: t }),
                None => None,
            }
        } else {
            None
        }
    } else if av[0] == "record"@ {
        if av.len() >= 2 && av[1] == "start"@ {
            if av.len() == 3 || av.len() == 4 {
                match target_of(av[2]) {
                    Some(t) => if av.len() == 3 {
                        Some(CliCommand::RecordStart { target: t, audio: false })
                    } else if av[3] == "--audio"@ {
                        Some(CliCommand::RecordStart { target: t, audio: true })
                    } else {
                        None
                    },
                    None => None,
                }
            } else {
                None
            }
        } else if av.len() == 2 && av[1] == "stop"@ {
            Some(CliCommand::RecordStop)
        } else {
            None
        }
    } else {
        None
    }
}

/// The capture target a word names; an unknown word is a usage error whose
/// message names the offending word.
pub fn parse_target(input: &str) -> (r: Result<CaptureTarget, String>)
    ensures
        target_of(input@) matches Some(t) ==> (r matches Ok(t2) && t2 == t),
        target_of(input@) is None ==> (r matches Err(m) && crate::text::contains_seq(m@, input@)),
{
    if str_eq(input, "region") {
        Ok(CaptureTarget::Region)
    } else if str_eq(input, "fullscreen") {
        Ok(CaptureTarget::Fullscreen)
    } else {
        let head = "unsupported target: ".to_owned();
        let m = head.concat(input).concat("; use region or fullscreen");
        proof {
            let at = "unsupported target: "@.len() as int;
            assert(m@.subrange(at, at + input@.len()) =~= input@);
            assert(crate::text::occurs_at(m@, input@, at));
        }
        Err(m)
    }
}

/// Parses the argument words (the program name already dropped) into a
/// command, exactly as the grammar reads them; anything else is a usage
/// error with a short message.
pub fn parse_cli_command(args: &Vec<String>) -> (r: Result<CliCommand, String>)
    requires
        args@.len() >= 1,
    ensures
        r matches Ok(c) ==> parse_command_spec(args.deep_view()) == Some(c),
        r is Err ==> parse_command_spec(args.deep_view()) is None,
{
    proof {
        assert(args.deep_view().len() == args@.len());
        assert(forall|i: int|
            0 <= i < args@.len() ==> args.deep_view()[i] == #[trigger] args@[i]@);
    }
    let head = args[0].as_str();
    if str_eq(head, "help") || str_eq(head, "--help") || str_eq(head, "-h") {
        return Ok(CliCommand::Help);
    }
    if str_eq(head, "screenshot") {
        if args.len() != 2 {
            return Err("usage: screenshot {region|fullscreen}".to_owned());
        }
        let target = match parse_target(args[1].as_str()) {
            Ok(t) => t,
            Err(m) => {
                return Err(m);
            },
        };
        return Ok(CliCommand::Screenshot { target });
    }
    if str_eq(head, "record") {
        if args.len() >= 2 && str_eq(args[1].as_str(), "start") {
            if args.len() < 3 || args.len() > 4 {
                return Err("usage: record start {region|fullscreen} [--audio]".to_owned());
            }
            let target = match parse_target(args[2].as_str()) {
                Ok(t) => t,
                Err(m) => {
                    return Err(m);
                },
            };
            let audio = if args.len() == 4 {
                if str_eq(args[3].as_str(), "--audio") {
                    true
                } else {
                    return Err("record start takes only the --audio flag".to_owned());
                }
            } else {
                false
            };
            return Ok(CliCommand::RecordStart { target, audio });
        }
        if args.len() == 2 && str_eq(args[1].as_str(), "stop") {
            return Ok(CliCommand::RecordStop);
        }
        return Err("usage: record {start|stop}".to_owned());
    }
    Err("unknown command".to_owned())
}

/// The usage text.
pub fn cli_usage() -> (r: &'static str) {
    "NCaptura

usage:
  ncaptura                      launch the graphical interface
  ncaptura screenshot region
  ncaptura screenshot fullscreen
  ncaptura record start region [--audio]
  ncaptura record start fullscreen [--audio]
  ncaptura record stop
  ncaptura help"
}

} // verus!
