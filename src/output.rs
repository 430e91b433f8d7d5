//! Where a rendered schedule goes: a named file or standard output.
use vstd::prelude::*;
use vstd::string::StringExecFns;

verus! {

/// Destination of the rendered schedule.
#[derive(PartialEq, Debug)]
pub enum OutputType {
    /// Write the schedule to the file at this path.
    File(String),
    /// Write the schedule to standard output.
    Stdout,
}

/// The one-line description of a destination, as shown to the user.
pub open spec fn output_label(o: OutputType) -> Seq<char> {
    match o {
        OutputType::File(p) => "File: "@ + p@,
        OutputType::Stdout => "stdout"@,
    }
}

impl OutputType {
    /// Chooses the destination from an optional output path: a path selects a
    /// file, no path selects standard output.
    pub fn from_path(path: Option<String>) -> (r: OutputType)
        ensures
            match path {
                Some(p) => r == OutputType::File(p),
                None => r == OutputType::Stdout,
            },
    {
        match path {
            Some(p) => OutputType::File(p),
            None => OutputType::Stdout,
        }
    }

    /// Describes the destination: `File: <path>` or `stdout`.
    pub fn label(&self) -> (r: String)
        ensures
            r@ == output_label(*self),
    {
        match self {
            OutputType::File(p) => String::from_str("File: ").concat(p.as_str()),
            OutputType::Stdout => String::from_str("stdout"),
        }
    }
}

} // verus!
