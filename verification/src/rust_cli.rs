//! The minimal command line: `--name value` options and
//! `--flag` switches, with every command still refused.

use vstd::prelude::*;

use crate::strings::{has_prefix, starts_with, str_eq};

verus! {

/// Option names and their values, in the order they were given; a later value
/// for a name replaces an earlier one.
#[derive(Clone, Debug)]
pub struct OptionMap {
    entries: Vec<(String, String)>,
}

/// The map that a sequence of `(name, value)` assignments leaves.
pub open spec fn assigned(entries: Seq<(String, String)>) -> Map<Seq<char>, Seq<char>>
    decreases entries.len(),
{
    if entries.len() == 0 {
        Map::empty()
    } else {
        assigned(entries.drop_last()).insert(entries.last().0@, entries.last().1@)
    }
}

impl OptionMap {
    /// The options as a map from name to value.
    pub closed spec fn view(&self) -> Map<Seq<char>, Seq<char>> {
        assigned(self.entries@)
    }

    /// No options.
    pub fn new() -> (map: Self)
        ensures
            map.view() == Map::<Seq<char>, Seq<char>>::empty(),
    {
        OptionMap { entries: Vec::new() }
    }

    /// Sets `name` to `value`, replacing any earlier value.
    pub fn insert(&mut self, name: String, value: String)
        ensures
            final(self).view() == old(self).view().insert(name@, value@),
    {
        self.entries.push((name, value));
        proof {
            assert(self.entries@.drop_last() =~= old(self).entries@);
        }
    }

    /// The value of `name`, if it was given.
    pub fn get(&self, name: &str) -> (value: Option<&String>)
        ensures
            match value {
                Some(v) => self.view().contains_key(name@) && v@ == self.view()[name@],
                None => !self.view().contains_key(name@),
            },
    {
        let mut i = self.entries.len();
        while i > 0
            invariant
                i <= self.entries.len(),
                forall|k: int| i <= k < self.entries@.len() ==> self.entries@[k].0@ != name@,
            decreases i,
        {
            i = i - 1;
            if str_eq(self.entries[i].0.as_str(), name) {
                proof {
                    lemma_last_assignment(self.entries@, i as int, name@);
                }
                return Some(&self.entries[i].1);
            }
        }
        proof {
            lemma_never_assigned(self.entries@, name@);
        }
        None
    }
}

/// The last assignment of a name decides its value.
proof fn lemma_last_assignment(entries: Seq<(String, String)>, i: int, name: Seq<char>)
    requires
        0 <= i < entries.len(),
        entries[i].0@ == name,
        forall|k: int| i < k < entries.len() ==> entries[k].0@ != name,
    ensures
        assigned(entries).contains_key(name),
        assigned(entries)[name] == entries[i].1@,
    decreases entries.len(),
{
    if i < entries.len() - 1 {
        lemma_last_assignment(entries.drop_last(), i, name);
    }
}

/// A name that is never assigned has no value.
proof fn lemma_never_assigned(entries: Seq<(String, String)>, name: Seq<char>)
    requires
        forall|k: int| 0 <= k < entries.len() ==> entries[k].0@ != name,
    ensures
        !assigned(entries).contains_key(name),
    decreases entries.len(),
{
    if entries.len() > 0 {
        lemma_never_assigned(entries.drop_last(), name);
    }
}

/// Parsed command-line options.
#[derive(Debug)]
pub struct Options {
    pub values: OptionMap,
}

/// The views of the arguments.
pub open spec fn argument_views(arguments: Seq<String>) -> Seq<Seq<char>> {
    arguments.map_values(|a: String| a@)
}

/// The message for an argument that is not an option.
pub open spec fn not_an_option_text(argument: Seq<char>) -> Seq<char> {
    "expected an option, got: "@ + argument
}

/// The message for `--` alone.
pub open spec fn empty_option_text() -> Seq<char> {
    "option name must not be empty"@
}

/// Reading options from `arguments[index..]` into `values`: `--name value`
/// sets `name`; `--name` followed by another option, or last, sets it to
/// `true`; anything else is refused.
pub open spec fn parse_from(
    arguments: Seq<Seq<char>>,
    index: nat,
    values: Map<Seq<char>, Seq<char>>,
) -> Result<Map<Seq<char>, Seq<char>>, Seq<char>>
    decreases arguments.len() - index,
{
    if index >= arguments.len() {
        Ok(values)
    } else {
        let key = arguments[index as int];
        if !has_prefix(key, "--"@) {
            Err(not_an_option_text(key))
        } else if key.len() == 2 {
            Err(empty_option_text())
        } else {
            let name = key.subrange(2, key.len() as int);
            if index + 1 == arguments.len() || has_prefix(arguments[index + 1int], "--"@) {
                parse_from(arguments, index + 1, values.insert(name, "true"@))
            } else {
                parse_from(arguments, index + 2, values.insert(name, arguments[index + 1int]))
            }
        }
    }
}

impl Options {
    /// Reads `--name value` options and `--flag` switches.
    pub fn parse(arguments: &[String]) -> (result: Result<Self, String>)
        ensures
            match parse_from(argument_views(arguments@), 0, Map::empty()) {
                Ok(values) => result matches Ok(options) && options.values.view() == values,
                Err(message) => result matches Err(m) && m@ == message,
            },
    {
        proof {
            reveal_strlit("--");
            reveal_strlit("true");
        }
        let ghost args = argument_views(arguments@);
        let mut values = OptionMap::new();
        let mut index: usize = 0;
        while index < arguments.len()
            invariant
                args == argument_views(arguments@),
                args.len() == arguments@.len(),
                parse_from(args, 0, Map::empty()) == parse_from(args, index as nat, values.view()),
            decreases arguments.len() - index,
        {
            let key = &arguments[index];
            proof {
                reveal_strlit("--");
                reveal_strlit("true");
                assert(args[index as int] == key@);
            }
            if !starts_with(key.as_str(), "--") {
                let mut message = "expected an option, got: ".to_owned();
                message.append(key.as_str());
                return Err(message);
            }
            let len = key.as_str().unicode_len();
            if len == 2 {
                return Err("option name must not be empty".to_owned());
            }
            let name = key.as_str().substring_char(2, len).to_owned();
            if index + 1 == arguments.len() || starts_with(arguments[index + 1].as_str(), "--") {
                proof {
                    if index + 1 < arguments.len() {
                        assert(args[index + 1] == arguments@[index + 1]@);
                    }
                }
                values.insert(name, "true".to_owned());
                index = index + 1;
            } else {
                proof {
                    assert(args[index + 1] == arguments@[index + 1]@);
                }
                values.insert(name, arguments[index + 1].clone());
                index = index + 2;
            }
        }
        Ok(Options { values })
    }
}

/// What the minimal command line does with its arguments: the only success is the
/// help text, shown for no arguments, `help` or `--help`; every other command
/// has its options read and is then refused.
pub open spec fn run_result(arguments: Seq<Seq<char>>) -> Result<u8, Seq<char>> {
    if arguments.len() == 0 || arguments[0] == "help"@ || arguments[0] == "--help"@ {
        Ok(0)
    } else {
        match parse_from(arguments.subrange(1, arguments.len() as int), 0, Map::empty()) {
            Err(message) => Err(message),
            Ok(_) => Err(refused_command_text(arguments[0])),
        }
    }
}

/// The message for a command that this build does not run.
pub open spec fn refused_command_text(command: Seq<char>) -> Seq<char> {
    "command '"@ + command + "' has not been migrated to the Rust CLI yet"@
}

/// Runs the minimal command line. `Ok(0)` means that the help text
/// is to be shown.
pub fn run(arguments: Vec<String>) -> (result: Result<u8, String>)
    ensures
        match run_result(argument_views(arguments@)) {
            Ok(code) => result == Ok::<u8, String>(code),
            Err(message) => result matches Err(m) && m@ == message,
        },
{
    let ghost args = argument_views(arguments@);
    if arguments.len() == 0 {
        return Ok(0);
    }
    let command = arguments[0].as_str();
    proof {
        assert(args[0] == command@);
    }
    if str_eq(command, "help") || str_eq(command, "--help") {
        return Ok(0);
    }
    let rest = vstd::slice::slice_subrange(arguments.as_slice(), 1, arguments.len());
    proof {
        assert(argument_views(rest@) =~= args.subrange(1, args.len() as int));
    }
    match Options::parse(rest) {
        Err(message) => Err(message),
        Ok(_) => {
            let mut message = "command '".to_owned();
            message.append(command);
            message.append("' has not been migrated to the Rust CLI yet");
            proof {
                assert(message@ =~= refused_command_text(command@));
            }
            Err(message)
        },
    }
}

} // verus!
