//! Where log output goes. On the device any console output lands on the e-ink framebuffer and
//! corrupts the dashboard, so logs default to a file.
use vstd::prelude::*;

use crate::paths::{
    join, joined, law_absolute_path_stands_for_itself, law_relative_path_follows_the_base,
};
use crate::text::text_eq;

verus! {

/// A destination for log output.
#[derive(Debug)]
pub enum Sink {
    File(String),
    /// Discards all output.
    Null,
    Stdout,
    Stderr,
}

/// What a [`Sink`] stands for.
pub enum Destination {
    File(Seq<char>),
    Null,
    Stdout,
    Stderr,
}

impl View for Sink {
    type V = Destination;

    open spec fn view(&self) -> Destination {
        match self {
            Sink::File(path) => Destination::File(path@),
            Sink::Null => Destination::Null,
            Sink::Stdout => Destination::Stdout,
            Sink::Stderr => Destination::Stderr,
        }
    }
}

/// The destination that a setting names: a path, relative to `base`, or one of three words.
pub open spec fn destination(value: Seq<char>, base: Seq<char>) -> Destination {
    if value == "null"@ {
        Destination::Null
    } else if value == "stdout"@ {
        Destination::Stdout
    } else if value == "stderr"@ {
        Destination::Stderr
    } else {
        Destination::File(joined(base, value))
    }
}

impl Sink {
    /// The sink that an optional setting names: `null`, `stdout`, `stderr`, or a path, where a
    /// relative one is resolved against `base`. Without a setting it is `default_file`.
    pub fn from_config(value: Option<&str>, base: &str, default_file: String) -> (sink: Sink)
        ensures
            sink@ == match value {
                None => Destination::File(default_file@),
                Some(v) => destination(v@, base@),
            },
    {
        match value {
            None => Sink::File(default_file),
            Some(v) => {
                if text_eq(v, "null") {
                    Sink::Null
                } else if text_eq(v, "stdout") {
                    Sink::Stdout
                } else if text_eq(v, "stderr") {
                    Sink::Stderr
                } else {
                    Sink::File(join(base, v))
                }
            },
        }
    }
}

/// How much is logged.
#[derive(Debug, Clone, Copy, PartialEq, Eq, Structural)]
pub enum Verbosity {
    Info,
    Debug,
}

/// The verbosity: debugging raises it.
pub fn verbosity(debug: bool) -> (v: Verbosity)
    ensures
        v == if debug {
            Verbosity::Debug
        } else {
            Verbosity::Info
        },
{
    if debug {
        Verbosity::Debug
    } else {
        Verbosity::Info
    }
}

/// Three words name a sink that is no file.
pub proof fn law_words_name_sinks(base: Seq<char>)
    ensures
        destination("null"@, base) is Null,
        destination("stdout"@, base) is Stdout,
        destination("stderr"@, base) is Stderr,
{
    reveal_strlit("null");
    reveal_strlit("stdout");
    reveal_strlit("stderr");
    assert("null"@.len() != "stdout"@.len());
    assert("null"@.len() != "stderr"@.len());
    assert("stdout"@[3] != "stderr"@[3]);
}

/// Every other value is a file: an absolute path itself, any other below the base.
pub proof fn law_other_values_name_files(base: Seq<char>, value: Seq<char>)
    requires
        value != "null"@,
        value != "stdout"@,
        value != "stderr"@,
    ensures
        value.len() > 0 && value[0] == '/' ==> destination(value, base) == Destination::File(value),
        (value.len() == 0 || value[0] != '/') && base.len() > 0 && base.last() != '/'
            ==> destination(value, base) == Destination::File(base + seq!['/'] + value),
        destination(value, base) == Destination::File(joined(base, value)),
{
    if value.len() > 0 && value[0] == '/' {
        assert(value =~= seq!['/'] + value.skip(1));
        law_absolute_path_stands_for_itself(base, value.skip(1));
    } else {
        law_relative_path_follows_the_base(base, value);
    }
}

/// A sink stands for the destination of its own kind and path.
pub proof fn law_sinks_stand_for_destinations(path: String)
    ensures
        Sink::File(path)@ == Destination::File(path@),
        Sink::Null@ is Null,
        Sink::Stdout@ is Stdout,
        Sink::Stderr@ is Stderr,
{
}

} // verus!
