//! Paths: those that stand in a configuration, which are text, and those of the machine, which
//! are bytes and need not be text.
use vstd::prelude::*;
use vstd::string::*;
use vstd::utf8::*;

verus! {

/// The path of a file in a directory: the two with one `/` between them.
pub open spec fn path_in(dir: Seq<char>, file: Seq<char>) -> Seq<char> {
    if dir.len() == 0 || dir.last() == '/' {
        dir + file
    } else {
        dir + "/"@ + file
    }
}

/// Joins a directory and the name of a file in it.
pub fn join_path(dir: &str, file: &str) -> (path: String)
    ensures
        path@ == path_in(dir@, file@),
{
    let n: usize = dir.unicode_len();
    if n == 0 || dir.get_char(n - 1) == '/' {
        dir.to_owned().concat(file)
    } else {
        dir.to_owned().concat("/").concat(file)
    }
}

/// A path with the home directory put for `~`: for `~` alone, and for the `~` of `~/` and a
/// rest. Any other path stays as it is, and so does every path where no home directory is known.
pub open spec fn with_home(path: Seq<char>, home: Option<Seq<char>>) -> Seq<char> {
    match home {
        None => path,
        Some(dir) => if path == seq!['~'] {
            dir
        } else if path.len() >= 2 && path[0] == '~' && path[1] == '/' {
            path_in(dir, path.skip(2))
        } else {
            path
        },
    }
}

/// Puts the home directory for the `~` that a path begins with.
pub fn expanded(path: &str, home: Option<&str>) -> (full: String)
    ensures
        full@ == with_home(
            path@,
            match home {
                Some(dir) => Some(dir@),
                None => None,
            },
        ),
{
    let n: usize = path.unicode_len();
    if let Some(dir) = home {
        if n == 1 && path.get_char(0) == '~' {
            assert(path@ =~= seq!['~']);
            return dir.to_owned();
        }
        if n >= 2 && path.get_char(0) == '~' && path.get_char(1) == '/' {
            assert(path@.subrange(2, n as int) =~= path@.skip(2));
            return join_path(dir, path.substring_char(2, n));
        }
    }
    path.to_owned()
}

/// The byte `/`.
pub const SLASH: u8 = 0x2f;

/// The path of a file in a directory, as the machine writes paths: the two with one `/` between
/// them.
pub open spec fn raw_path_in(dir: Seq<u8>, file: Seq<char>) -> Seq<u8> {
    if dir.len() == 0 || dir.last() == SLASH {
        dir + encode_utf8(file)
    } else {
        dir.push(SLASH) + encode_utf8(file)
    }
}

/// Joins a directory and the name of a file in it.
pub fn join_raw_path(dir: &[u8], file: &str) -> (path: Vec<u8>)
    ensures
        path@ == raw_path_in(dir@, file@),
{
    let mut path: Vec<u8> = copy_bytes(dir);
    if dir.len() > 0 && dir[dir.len() - 1] != SLASH {
        path.push(SLASH);
    }
    path.extend_from_slice(file.as_bytes());
    assert(path@ =~= raw_path_in(dir@, file@));
    path
}

/// A path that is text, as the machine writes it.
pub fn raw_path(path: &str) -> (raw: Vec<u8>)
    ensures
        raw@ == encode_utf8(path@),
{
    copy_bytes(path.as_bytes())
}

/// The bytes that an optional path holds.
pub open spec fn bytes_in(path: Option<Vec<u8>>) -> Option<Seq<u8>> {
    match path {
        Some(p) => Some(p@),
        None => None,
    }
}

/// Copies bytes.
pub fn copy_bytes(bytes: &[u8]) -> (copy: Vec<u8>)
    ensures
        copy@ == bytes@,
{
    let mut copy: Vec<u8> = Vec::new();
    copy.extend_from_slice(bytes);
    assert(copy@ =~= bytes@);
    copy
}

/// A path of a file in a directory ends in the file, and begins with the directory; between the two
/// there is one `/`, whether the directory ends in it or not.
pub proof fn a_path_holds_its_parts(dir: Seq<char>, file: Seq<char>)
    ensures
        path_in(dir, file).len() >= dir.len() + file.len(),
        path_in(dir, file).take(dir.len() as int) == dir,
        path_in(dir, file).skip(path_in(dir, file).len() - file.len()) == file,
        dir.len() > 0 ==> path_in(dir, file)[path_in(dir, file).len() - file.len() - 1] == '/',
        dir.len() > 0 && dir.last() != '/' ==> path_in(dir, file).len() == dir.len() + file.len()
            + 1,
        dir.len() == 0 || dir.last() == '/' ==> path_in(dir, file).len() == dir.len() + file.len(),
{
    reveal_strlit("/");
    let path = path_in(dir, file);
    assert(path.take(dir.len() as int) =~= dir);
    assert(path.skip(path.len() - file.len()) =~= file);
}

/// The same holds of a path as the machine writes it.
pub proof fn a_raw_path_holds_its_parts(dir: Seq<u8>, file: Seq<char>)
    ensures
        ({
            let path = raw_path_in(dir, file);
            let name = encode_utf8(file);
            &&& path.len() >= dir.len() + name.len()
            &&& path.take(dir.len() as int) == dir
            &&& path.skip(path.len() - name.len()) == name
            &&& dir.len() > 0 ==> path[path.len() - name.len() - 1] == 0x2f
            &&& dir.len() > 0 && dir.last() != 0x2f ==> path.len() == dir.len() + name.len() + 1
            &&& dir.len() == 0 || dir.last() == 0x2f ==> path.len() == dir.len() + name.len()
        }),
{
    let path = raw_path_in(dir, file);
    let name = encode_utf8(file);
    assert(path.take(dir.len() as int) =~= dir);
    assert(path.skip(path.len() - name.len()) =~= name);
}

/// Only a `~` that is a path's whole first part is replaced: `~/` and a rest becomes the rest in the
/// home directory, `~` the home directory, and every other path, and every path without a home
/// directory, stays as it is.
pub proof fn only_a_leading_tilde_is_replaced(path: Seq<char>, rest: Seq<char>, home: Seq<char>)
    ensures
        with_home(seq!['~'], Some(home)) == home,
        with_home(seq!['~', '/'] + rest, Some(home)) == path_in(home, rest),
        path.len() == 0 || path[0] != '~' || (path.len() > 1 && path[1] != '/') ==> with_home(
            path,
            Some(home),
        ) == path,
        with_home(path, None) == path,
{
    let tilde = seq!['~', '/'] + rest;
    assert(tilde.skip(2) =~= rest);
    assert(tilde != seq!['~']) by {
        assert(tilde.len() >= 2);
    }
}

/// An optional path holds all of its bytes.
pub proof fn paths_hold_their_bytes(path: Vec<u8>)
    ensures
        bytes_in(Some(path)) == Some(path@),
        bytes_in(None) is None,
{
}

} // verus!
