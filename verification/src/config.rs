use vstd::prelude::*;
use vstd::string::StringExecFns;

use crate::mode::mode_of_setting;
use crate::mode::Mode;

verus! {

/// The address that the service binds where none is configured.
pub const DEFAULT_BIND: &'static str = "0.0.0.0:8080";

/// The secret directory where none is configured.
pub const DEFAULT_SECRET_DIR: &'static str = "/secrets";

/// The variable that configures the mode.
pub const MODE_VARIABLE: &'static str = "CRYPTOSERVER_MODE";

/// The variable that configures the secret directory.
pub const SECRET_DIR_VARIABLE: &'static str = "CRYPTOSERVER_SECRETDIR";

/// The variable that configures the address to bind.
pub const BIND_VARIABLE: &'static str = "CRYPTOSERVER_BIND";

/// The value of the last variable of that name in a list of variables, each
/// a pair of name and value.
pub open spec fn last_value(vars: Seq<(Seq<char>, Seq<char>)>, name: Seq<char>) -> Option<
    Seq<char>,
>
    decreases vars.len(),
{
    if vars.len() == 0 {
        None
    } else if vars.last().0 == name {
        Some(vars.last().1)
    } else {
        last_value(vars.drop_last(), name)
    }
}

/// The value of the first variable of that name in a list of variables.
pub open spec fn first_value(vars: Seq<(Seq<char>, Seq<char>)>, name: Seq<char>) -> Option<
    Seq<char>,
>
    decreases vars.len(),
{
    if vars.len() == 0 {
        None
    } else if vars.first().0 == name {
        Some(vars.first().1)
    } else {
        first_value(vars.drop_first(), name)
    }
}

/// The mode that a list of variables configures: that of the last value of
/// `CRYPTOSERVER_MODE`, and `Mode0` where the variable is not set.
pub open spec fn configured_mode(vars: Seq<(Seq<char>, Seq<char>)>) -> Mode {
    match last_value(vars, MODE_VARIABLE@) {
        Some(value) => mode_of_setting(value),
        None => Mode::Mode0,
    }
}

/// The secret directory that a list of variables configures: the last value
/// of `CRYPTOSERVER_SECRETDIR`, and `/secrets` where the variable is not set.
pub open spec fn configured_secret_dir(vars: Seq<(Seq<char>, Seq<char>)>) -> Seq<char> {
    match last_value(vars, SECRET_DIR_VARIABLE@) {
        Some(value) => value,
        None => DEFAULT_SECRET_DIR@,
    }
}

/// The address that a list of variables configures: the first value of
/// `CRYPTOSERVER_BIND`, and `0.0.0.0:8080` where the variable is not set.
pub open spec fn configured_addr(vars: Seq<(Seq<char>, Seq<char>)>) -> Seq<char> {
    match first_value(vars, BIND_VARIABLE@) {
        Some(value) => value,
        None => DEFAULT_BIND@,
    }
}

/// Finds the last variable of a name: its place in the list.
fn find_last(vars: &Vec<(String, String)>, name: &str) -> (found: Option<usize>)
    ensures
        match found {
            Some(at) => at < vars.len() && last_value(vars.deep_view(), name@) == Some(
                vars[at as int].1@,
            ),
            None => last_value(vars.deep_view(), name@) is None,
        },
{
    let wanted = String::from_str(name);
    let mut found: Option<usize> = None;
    let mut i: usize = 0;
    while i < vars.len()
        invariant
            i <= vars.len(),
            wanted@ == name@,
            match found {
                Some(at) => at < i && last_value(vars.deep_view().take(i as int), name@) == Some(
                    vars[at as int].1@,
                ),
                None => last_value(vars.deep_view().take(i as int), name@) is None,
            },
        decreases vars.len() - i,
    {
        let ghost upto = vars.deep_view().take(i + 1);
        assert(upto.drop_last() =~= vars.deep_view().take(i as int));
        if vars[i].0 == wanted {
            found = Some(i);
        }
        i = i + 1;
    }
    assert(vars.deep_view().take(i as int) =~= vars.deep_view());
    found
}

/// Finds the first variable of a name: its place in the list.
fn find_first(vars: &Vec<(String, String)>, name: &str) -> (found: Option<usize>)
    ensures
        match found {
            Some(at) => at < vars.len() && first_value(vars.deep_view(), name@) == Some(
                vars[at as int].1@,
            ),
            None => first_value(vars.deep_view(), name@) is None,
        },
{
    let wanted = String::from_str(name);
    let mut i: usize = 0;
    assert(vars.deep_view().skip(0) =~= vars.deep_view());
    while i < vars.len()
        invariant
            i <= vars.len(),
            wanted@ == name@,
            first_value(vars.deep_view(), name@) == first_value(
                vars.deep_view().skip(i as int),
                name@,
            ),
        decreases vars.len() - i,
    {
        let ghost rest = vars.deep_view().skip(i as int);
        assert(rest.drop_first() =~= vars.deep_view().skip(i + 1));
        if vars[i].0 == wanted {
            return Some(i);
        }
        i = i + 1;
    }
    None
}

/// The mode that the variables of the environment configure.
pub fn get_mode(vars: &Vec<(String, String)>) -> (mode: Mode)
    ensures
        mode == configured_mode(vars.deep_view()),
{
    match find_last(vars, MODE_VARIABLE) {
        Some(at) => Mode::from_setting(vars[at].1.as_str()),
        None => Mode::Mode0,
    }
}

/// The secret directory that the variables of the environment configure.
pub fn get_secret_dir(vars: &Vec<(String, String)>) -> (dir: String)
    ensures
        dir@ == configured_secret_dir(vars.deep_view()),
{
    match find_last(vars, SECRET_DIR_VARIABLE) {
        Some(at) => vars[at].1.clone(),
        None => String::from_str(DEFAULT_SECRET_DIR),
    }
}

/// The address to bind that the variables of the environment configure.
pub fn get_addr(vars: &Vec<(String, String)>) -> (addr: String)
    ensures
        addr@ == configured_addr(vars.deep_view()),
{
    match find_first(vars, BIND_VARIABLE) {
        Some(at) => vars[at].1.clone(),
        None => String::from_str(DEFAULT_BIND),
    }
}

} // verus!
