//! The choice of the file that a configuration is read from.

use vstd::prelude::*;

verus! {

/// The path of the configuration file: the one given on the command line where that is
/// not empty, else the one from the environment where there is one, else the empty path.
pub open spec fn selected_config_file(argument: Seq<char>, environment: Option<Seq<char>>) -> Seq<
    char,
> {
    if argument.len() != 0 {
        argument
    } else {
        match environment {
            Some(path) => path,
            None => Seq::empty(),
        }
    }
}

/// Chooses the configuration file from the path given on the command line and the value of
/// the environment variable that names one.
pub fn select_config_file(argument: &str, environment: Option<String>) -> (path: String)
    ensures
        path@ == selected_config_file(
            argument@,
            match environment {
                Some(value) => Some(value@),
                None => None,
            },
        ),
{
    if !argument.is_empty() {
        argument.to_owned()
    } else {
        match environment {
            Some(value) => value,
            None => String::new(),
        }
    }
}

} // verus!
