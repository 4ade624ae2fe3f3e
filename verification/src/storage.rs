//! Where artifacts are kept: one directory per token, holding one file under
//! the name that the uploader gave.

use vstd::prelude::*;
use crate::fault::Fault;
use crate::text::chars_of;
use crate::token::Token;

verus! {

/// The directory under which every artifact is stored.
pub const STORAGE_ROOT: &'static str = "files/";

/// The largest payload, in bytes, that is accepted from a remote source.
pub const MAX_FETCH_BYTES: usize = 20_000_000;

/// How long a fetch from a remote source may take, in nanoseconds.
pub const FETCH_TIMEOUT: u64 = 30_000_000_000;

/// The storage path of the artifact that `token` identifies, uploaded under
/// `name`: the root, the token's text, a slash and the name.
pub open spec fn storage_path(token: Token, name: Seq<char>) -> Seq<char> {
    STORAGE_ROOT@ + token@ + seq!['/'] + name
}

/// Whether `s` holds a slash.
pub open spec fn has_slash(s: Seq<char>) -> bool {
    exists|i: int| 0 <= i < s.len() && s[i] == '/'
}

/// Whether `name` can be the name of a file in a token's directory: it is not
/// empty, is neither `.` nor `..`, and holds no slash.
pub open spec fn is_plain_name(name: Seq<char>) -> bool {
    &&& name.len() > 0
    &&& name != seq!['.']
    &&& name != seq!['.', '.']
    &&& !has_slash(name)
}

/// The part of `path` after its last slash; all of it where it has none.
pub open spec fn final_segment(path: Seq<char>) -> Seq<char>
    decreases path.len(),
{
    if path.len() == 0 || path.last() == '/' {
        Seq::empty()
    } else {
        final_segment(path.drop_last()).push(path.last())
    }
}

/// The part of `path` before its last slash; empty where it has none.
pub open spec fn parent_dir(path: Seq<char>) -> Seq<char> {
    if has_slash(path) {
        path.take(path.len() - final_segment(path).len() - 1)
    } else {
        Seq::empty()
    }
}

/// A storage location set aside for one upload.
#[derive(Clone, Debug, PartialEq, Eq)]
pub struct Reservation {
    pub token: Token,
    pub path: String,
}

/// A path splits at `start` into what lies before its last slash and its
/// final segment, when no slash follows `start` and one stands just before.
pub proof fn lemma_final_segment_from(path: Seq<char>, start: int)
    requires
        0 <= start <= path.len(),
        start == 0 || path[start - 1] == '/',
        forall|j: int| start <= j < path.len() ==> path[j] != '/',
    ensures
        final_segment(path) == path.skip(start),
        has_slash(path) == (start > 0),
        start > 0 ==> parent_dir(path) == path.take(start - 1),
    decreases path.len(),
{
    if path.len() == 0 || path.last() == '/' {
        assert(start == path.len());
        assert(path.skip(start) =~= Seq::<char>::empty());
    } else {
        let shorter = path.drop_last();
        assert(start < path.len());
        lemma_final_segment_from(shorter, start);
        assert(path.skip(start) =~= shorter.skip(start).push(path.last()));
    }
    if start > 0 {
        assert(path[start - 1] == '/');
    } else {
        assert(!has_slash(path));
    }
    assert(final_segment(path).len() == path.len() - start);
}

/// Whether `name` is a plain file name.
pub fn plain_name(name: &str) -> (plain: bool)
    ensures
        plain == is_plain_name(name@),
{
    let chars = chars_of(name);
    let n = chars.len();
    if n == 0 {
        return false;
    }
    if n == 1 && chars[0] == '.' {
        assert(name@ =~= seq!['.']);
        return false;
    }
    if n == 2 && chars[0] == '.' && chars[1] == '.' {
        assert(name@ =~= seq!['.', '.']);
        return false;
    }
    proof {
        if name@ == seq!['.'] {
            assert(name@[0] == '.');
        }
        if name@ == seq!['.', '.'] {
            assert(name@[0] == '.' && name@[1] == '.');
        }
    }
    let mut i: usize = 0;
    while i < n
        invariant
            chars@ == name@,
            n == chars.len(),
            i <= n,
            forall|j: int| 0 <= j < i ==> chars@[j] != '/',
        decreases n - i,
    {
        if chars[i] == '/' {
            return false;
        }
        i = i + 1;
    }
    true
}

/// The storage path of `token`'s artifact under `name`. Refused for a name
/// that is no plain file name: the file would lie outside the token's
/// directory, or be the directory itself.
pub fn reserve_path(token: &Token, name: &str) -> (r: Result<String, Fault>)
    ensures
        match r {
            Ok(path) => is_plain_name(name@) && path@ == storage_path(*token, name@),
            Err(fault) => !is_plain_name(name@) && fault == Fault::InvalidName,
        },
{
    if !plain_name(name) {
        return Err(Fault::InvalidName);
    }
    let mut path = String::from_str(STORAGE_ROOT);
    let text = token.text();
    path.append(text.as_str());
    path.append("/");
    path.append(name);
    proof {
        reveal_strlit("/");
        assert("/"@ =~= seq!['/']);
    }
    Ok(path)
}

/// Why no storage location is set aside for an upload named `name` when the
/// draw of its token gave `drawn`: the name is no plain file name, or else
/// no token came. Nothing where a location is set aside.
pub open spec fn reserve_fault(name: Seq<char>, drawn: Option<Token>) -> Option<Fault> {
    if !is_plain_name(name) {
        Some(Fault::InvalidName)
    } else if drawn.is_none() {
        Some(Fault::Storage)
    } else {
        None
    }
}

/// Sets the drawn token and its storage path aside for an upload named
/// `name`. Refused for a name that is no plain file name, and as a storage
/// fault where the draw gave no token.
pub fn reserve_drawn(name: &str, drawn: Option<Token>) -> (r: Result<Reservation, Fault>)
    ensures
        match r {
            Ok(reservation) => {
                &&& reserve_fault(name@, drawn).is_none()
                &&& Some(reservation.token) == drawn
                &&& reservation.path@ == storage_path(reservation.token, name@)
            },
            Err(fault) => reserve_fault(name@, drawn) == Some(fault),
        },
{
    if !plain_name(name) {
        return Err(Fault::InvalidName);
    }
    match drawn {
        Some(token) => match reserve_path(&token, name) {
            Ok(path) => Ok(Reservation { token, path }),
            Err(fault) => Err(fault),
        },
        None => Err(Fault::Storage),
    }
}

/// Sets a fresh token and its storage path aside for an upload named `name`.
/// Refused for a name that is no plain file name; no token is drawn then.
/// For a plain name either a token comes, and the path is the one that
/// belongs to it, or the machine's random source failed: a storage fault.
pub fn reserve(name: &str) -> (r: Result<Reservation, Fault>)
    ensures
        match r {
            Ok(reservation) => {
                &&& is_plain_name(name@)
                &&& reservation.token.is_random()
                &&& reservation.path@ == storage_path(reservation.token, name@)
            },
            Err(fault) => fault == if is_plain_name(name@) {
                Fault::Storage
            } else {
                Fault::InvalidName
            },
        },
{
    if !plain_name(name) {
        return Err(Fault::InvalidName);
    }
    reserve_drawn(name, Token::generate())
}

/// Where the final segment of `path` starts.
fn final_segment_start(chars: &Vec<char>) -> (start: usize)
    ensures
        start <= chars.len(),
        start == 0 || chars@[start - 1] == '/',
        forall|j: int| start <= j < chars.len() ==> chars@[j] != '/',
{
    let mut start: usize = 0;
    let mut i: usize = 0;
    while i < chars.len()
        invariant
            start <= i <= chars.len(),
            start == 0 || chars@[start - 1] == '/',
            forall|j: int| start <= j < i ==> chars@[j] != '/',
        decreases chars.len() - i,
    {
        if chars[i] == '/' {
            start = i + 1;
        }
        i = i + 1;
    }
    start
}

/// The file name that a storage path ends in.
pub fn file_name(path: &str) -> (name: String)
    ensures
        name@ == final_segment(path@),
{
    let chars = chars_of(path);
    let start = final_segment_start(&chars);
    proof {
        lemma_final_segment_from(path@, start as int);
    }
    String::from_str(path.substring_char(start, chars.len()))
}

/// The directory that a storage path lies in.
pub fn directory(path: &str) -> (dir: String)
    ensures
        dir@ == parent_dir(path@),
{
    let chars = chars_of(path);
    let start = final_segment_start(&chars);
    proof {
        lemma_final_segment_from(path@, start as int);
    }
    if start == 0 {
        String::new()
    } else {
        String::from_str(path.substring_char(0, start - 1))
    }
}

/// Whether a payload of `len` bytes from a remote source may be stored.
pub fn accept_fetched(len: usize) -> (ok: bool)
    ensures
        ok == (len <= MAX_FETCH_BYTES),
{
    len <= MAX_FETCH_BYTES
}

/// An artifact uploaded under a plain name is stored in a file of that name,
/// in the directory of its token and nowhere else.
pub proof fn lemma_stored_under_own_name(token: Token, name: Seq<char>)
    requires
        is_plain_name(name),
    ensures
        final_segment(storage_path(token, name)) == name,
        parent_dir(storage_path(token, name)) == STORAGE_ROOT@ + token@,
{
    let path = storage_path(token, name);
    let start = path.len() - name.len();
    assert forall|j: int| start <= j < path.len() implies path[j] != '/' by {
        assert(path[j] == name[j - start]);
    }
    assert(path[start - 1] == '/');
    lemma_final_segment_from(path, start);
    assert(path.skip(start) =~= name);
    assert(path.take(start - 1) =~= STORAGE_ROOT@ + token@);
}

} // verus!
