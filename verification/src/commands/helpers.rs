//! Reading the arguments of a command.

use vstd::prelude::*;

verus! {

/// The user name that an argument gives: the argument without the `@` that
/// may stand before it; nothing for a missing argument and for a lone `@`.
pub open spec fn username_of(username: Option<Seq<char>>) -> Option<Seq<char>> {
    match username {
        None => None,
        Some(name) => if name.len() > 0 && name[0] == '@' {
            if name.len() > 1 {
                Some(name.drop_first())
            } else {
                None
            }
        } else {
            Some(name)
        },
    }
}

/// Reads a user name from an argument of a command.
pub fn parse_username<'a>(username: Option<&'a str>) -> (r: Option<&'a str>)
    ensures
        match username_of(
            match username {
                Some(name) => Some(name@),
                None => None,
            },
        ) {
            Some(name) => r is Some && r->0@ == name,
            None => r is None,
        },
{
    match username {
        Some(name) => {
            let n = name.unicode_len();
            if n > 0 && name.get_char(0) == '@' {
                if n > 1 {
                    let rest = name.substring_char(1, n);
                    assert(name@.drop_first() =~= name@.subrange(1, n as int));
                    Some(rest)
                } else {
                    None
                }
            } else {
                Some(name)
            }
        },
        None => None,
    }
}

} // verus!
