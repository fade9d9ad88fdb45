//! The command line: flags for the script engine first, then the script
//! to load and whatever follows it.

use vstd::prelude::*;
use crate::runtime::FATAL_STATUS;
use crate::text::texts_of;

verus! {

/// The message for a command line that names no script.
pub open spec fn usage_text() -> Seq<char> {
    "Tell me what file to load."@
}

/// An argument that has the shape of a flag: it begins with a dash.
pub open spec fn is_flag(argument: Seq<char>) -> bool {
    argument.len() > 0 && argument[0] == '-'
}

/// How many arguments go to the engine: the flags that stand before the
/// first argument that is no flag.
pub open spec fn flag_count(arguments: Seq<Seq<char>>) -> nat
    decreases arguments.len(),
{
    if arguments.len() > 0 && is_flag(arguments[0]) {
        1 + flag_count(arguments.drop_first())
    } else {
        0
    }
}

/// The command line in its two parts.
#[derive(Debug, Clone, PartialEq, Eq)]
pub struct Arguments {
    /// What is handed on to the script engine, in order.
    pub engine_flags: Vec<String>,
    /// The script to load and what follows it, in order.
    pub positional: Vec<String>,
}

impl Arguments {
    /// The script to load: the first positional argument.
    pub fn script_path(&self) -> (path: Option<&String>)
        ensures
            self.positional@.len() == 0 ==> path is None,
            self.positional@.len() > 0 ==> path == Some(&self.positional@[0]),
    {
        if self.positional.len() > 0 {
            Some(&self.positional[0])
        } else {
            None
        }
    }
}

/// The message for a command line that names no script.
pub fn usage() -> (text: String)
    ensures
        text@ == usage_text(),
{
    "Tell me what file to load.".to_owned()
}

/// Whether an argument has the shape of a flag.
pub fn has_flag_shape(argument: &str) -> (flag: bool)
    ensures
        flag == is_flag(argument@),
{
    !argument.is_empty() && argument.get_char(0) == '-'
}

/// Splits the arguments that follow the program's name. Every flag
/// before the first argument that is no flag goes to the engine. From
/// that argument on everything is positional, flags included.
pub fn split_arguments(arguments: &Vec<String>) -> (split: Arguments)
    ensures
        texts_of(split.engine_flags@) == texts_of(arguments@).take(
            flag_count(texts_of(arguments@)) as int,
        ),
        texts_of(split.positional@) == texts_of(arguments@).skip(
            flag_count(texts_of(arguments@)) as int,
        ),
{
    let ghost all = texts_of(arguments@);
    let mut engine_flags: Vec<String> = Vec::new();
    let mut at: usize = 0;
    assert(all.skip(0) =~= all);
    while at < arguments.len() && has_flag_shape(arguments[at].as_str())
        invariant
            at <= arguments.len(),
            engine_flags@.len() == at,
            all == texts_of(arguments@),
            texts_of(engine_flags@) == all.take(at as int),
            flag_count(all) == at + flag_count(all.skip(at as int)),
        decreases arguments.len() - at,
    {
        proof {
            let rest = all.skip(at as int);
            assert(rest[0] == arguments@[at as int]@);
            assert(rest.drop_first() =~= all.skip(at + 1));
            let longer = texts_of(engine_flags@.push(arguments@[at as int]));
            assert forall|k: int| 0 <= k < at + 1 implies longer[k] == all[k] by {
                if k < at {
                    assert(texts_of(engine_flags@)[k] == all.take(at as int)[k]);
                }
            }
        }
        engine_flags.push(arguments[at].clone());
        at += 1;
    }
    let mut positional: Vec<String> = Vec::new();
    let ghost first = at;
    while at < arguments.len()
        invariant
            first <= at <= arguments.len(),
            positional@.len() == at - first,
            all == texts_of(arguments@),
            texts_of(positional@) == all.subrange(first as int, at as int),
        decreases arguments.len() - at,
    {
        proof {
            let longer = texts_of(positional@.push(arguments@[at as int]));
            assert forall|k: int| 0 <= k < at + 1 - first implies longer[k] == all[first + k] by {
                if k < at - first {
                    assert(texts_of(positional@)[k] == all.subrange(first as int, at as int)[k]);
                }
            }
        }
        positional.push(arguments[at].clone());
        at += 1;
    }
    Arguments { engine_flags, positional }
}

/// What the process does with its command line.
#[derive(Debug, Clone, PartialEq, Eq)]
pub enum Launch {
    /// Hand the flags to the engine and load the script. What follows
    /// the script on the command line is kept and not used.
    Run { engine_flags: Vec<String>, script: String, rest: Vec<String> },
    /// No script was named: write the message to the error stream and
    /// end the process with the status.
    Refuse { message: String, status: i32 },
}

/// The mathematical content of a [`Launch`].
pub enum LaunchView {
    Run { engine_flags: Seq<Seq<char>>, script: Seq<char>, rest: Seq<Seq<char>> },
    Refuse { message: Seq<char>, status: i32 },
}

impl View for Launch {
    type V = LaunchView;

    open spec fn view(&self) -> LaunchView {
        match *self {
            Launch::Run { engine_flags, script, rest } => LaunchView::Run {
                engine_flags: texts_of(engine_flags@),
                script: script@,
                rest: texts_of(rest@),
            },
            Launch::Refuse { message, status } => LaunchView::Refuse { message: message@, status },
        }
    }
}

/// What a command line asks for. The script is the first argument after
/// the engine's flags; a command line without one is refused.
pub open spec fn launch_of(arguments: Seq<Seq<char>>) -> LaunchView {
    let flags = flag_count(arguments) as int;
    if flags < arguments.len() {
        LaunchView::Run {
            engine_flags: arguments.take(flags),
            script: arguments[flags],
            rest: arguments.skip(flags + 1),
        }
    } else {
        LaunchView::Refuse { message: usage_text(), status: FATAL_STATUS }
    }
}

/// Decides what the process does with the arguments that follow the
/// program's name.
pub fn plan_launch(arguments: &Vec<String>) -> (launch: Launch)
    ensures
        launch@ == launch_of(texts_of(arguments@)),
{
    let ghost all = texts_of(arguments@);
    let Arguments { engine_flags, positional } = split_arguments(arguments);
    proof {
        law_split_is_a_cut(all);
    }
    if positional.len() == 0 {
        return Launch::Refuse { message: usage(), status: FATAL_STATUS };
    }
    let mut rest = positional;
    let script = rest.remove(0);
    proof {
        let flags = flag_count(all) as int;
        assert(texts_of(rest@) =~= all.skip(flags + 1)) by {
            assert forall|k: int| 0 <= k < rest@.len() implies texts_of(rest@)[k] == all.skip(
                flags + 1,
            )[k] by {
                assert(texts_of(positional@)[k + 1] == all.skip(flags)[k + 1]);
            }
        }
        assert(script@ == all[flags]) by {
            assert(texts_of(positional@)[0] == all.skip(flags)[0]);
        }
    }
    Launch::Run { engine_flags, script, rest }
}

/// The two parts of a command line, put together again, are the command
/// line. Every argument of the first part is a flag, and the second part
/// does not begin with one.
pub proof fn law_split_is_a_cut(arguments: Seq<Seq<char>>)
    ensures
        flag_count(arguments) <= arguments.len(),
        arguments.take(flag_count(arguments) as int) + arguments.skip(
            flag_count(arguments) as int,
        ) == arguments,
        forall|i: int| 0 <= i < flag_count(arguments) ==> is_flag(#[trigger] arguments[i]),
        flag_count(arguments) < arguments.len() ==> !is_flag(
            arguments[flag_count(arguments) as int],
        ),
    decreases arguments.len(),
{
    if arguments.len() > 0 && is_flag(arguments[0]) {
        let rest = arguments.drop_first();
        law_split_is_a_cut(rest);
        assert forall|i: int| 0 <= i < flag_count(arguments) implies is_flag(
            #[trigger] arguments[i],
        ) by {
            if i > 0 {
                assert(arguments[i] == rest[i - 1]);
            }
        }
    }
    assert(arguments.take(flag_count(arguments) as int) + arguments.skip(
        flag_count(arguments) as int,
    ) =~= arguments);
}

} // verus!
