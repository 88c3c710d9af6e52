//! How a session gets its name and where its sockets lie.
//!
//! A requested name is reduced to the last component of the path it spells.
//! A name that is taken gets a numbered suffix: `name-0`, `name-1`, and so on.

use vstd::prelude::*;
use vstd::string::*;
use crate::text::{decimal, decimal_string, lemma_decimal_value};

verus! {

/// The index of the last `/` in `s`, or -1 where it holds none.
pub open spec fn last_slash(s: Seq<char>) -> int
    decreases s.len(),
{
    if s.len() == 0 {
        -1
    } else if s.last() == '/' {
        s.len() - 1
    } else {
        last_slash(s.drop_last())
    }
}

/// What follows the last `/` of `s`: all of `s` where it holds none.
pub open spec fn last_segment(s: Seq<char>) -> Seq<char> {
    s.skip(last_slash(s) + 1)
}

/// What comes before the last segment of `s`, the `/` included.
pub open spec fn dir_part(s: Seq<char>) -> Seq<char> {
    s.take(last_slash(s) + 1)
}

/// The final component of the path `s`. Slashes at the end and `.`
/// components at the end do not count. A path that ends in `..`, and one
/// with no component left, has no file name.
pub open spec fn file_name(s: Seq<char>) -> Option<Seq<char>>
    decreases s.len(),
{
    if s.len() == 0 {
        None
    } else if s.last() == '/' {
        file_name(s.drop_last())
    } else if last_segment(s) == seq!['.'] {
        file_name(s.drop_last())
    } else if last_segment(s) == seq!['.', '.'] {
        None
    } else {
        Some(last_segment(s))
    }
}

/// `s` with `_` in place of each `/`.
pub open spec fn replace_slashes(s: Seq<char>) -> Seq<char> {
    Seq::new(s.len(), |i: int| if s[i] == '/' { '_' } else { s[i] })
}

/// The name that a session gets for the requested name `s`, before
/// numbering: the file name of `s`, or, where it has none, `s` with its
/// slashes replaced.
pub open spec fn base_name(s: Seq<char>) -> Seq<char> {
    match file_name(s) {
        Some(name) => name,
        None => replace_slashes(s),
    }
}

/// Whether `s` holds no `/`.
pub open spec fn slash_free(s: Seq<char>) -> bool {
    forall|i: int| 0 <= i < s.len() ==> #[trigger] s[i] != '/'
}

/// The `i`-th numbered form of the name `base`.
pub open spec fn numbered(base: Seq<char>, i: nat) -> Seq<char> {
    base + seq!['-'] + decimal(i)
}

/// Whether `i` is the first number whose numbered form of `base` is not in `taken`.
pub open spec fn is_first_free(base: Seq<char>, taken: Set<Seq<char>>, i: nat) -> bool {
    &&& !taken.contains(numbered(base, i))
    &&& forall|j: nat| j < i ==> taken.contains(#[trigger] numbered(base, j))
}

/// The name that a new session gets where the names in `taken` are in
/// use: `base` itself if it is free, else its first numbered form that is.
pub open spec fn unique_name(base: Seq<char>, taken: Set<Seq<char>>) -> Seq<char> {
    if !taken.contains(base) {
        base
    } else {
        numbered(base, choose|i: nat| is_first_free(base, taken, i))
    }
}

/// The path of the file `file` in the directory `dir`.
pub open spec fn join_path(dir: Seq<char>, file: Seq<char>) -> Seq<char> {
    if dir.len() == 0 || dir.last() == '/' {
        dir + file
    } else {
        dir + seq!['/'] + file
    }
}

/// The socket on which the session `name` relays bytes, in the runtime directory `dir`.
pub open spec fn socket_path(dir: Seq<char>, name: Seq<char>) -> Seq<char> {
    join_path(dir, name + ".sock"@)
}

/// The file name of the socket on which the client of the child `pid` takes requests.
pub open spec fn client_socket_name(pid: i32) -> Seq<char> {
    "client-"@ + signed_decimal(pid as int) + ".sock"@
}

/// The socket of the client of the child `pid`, beside the session socket `session_socket`.
pub open spec fn client_socket_path(session_socket: Seq<char>, pid: i32) -> Seq<char> {
    dir_part(session_socket) + client_socket_name(pid)
}

/// The decimal notation of `n`, with `-` before it where `n` is negative.
pub open spec fn signed_decimal(n: int) -> Seq<char> {
    if n < 0 {
        seq!['-'] + decimal((-n) as nat)
    } else {
        decimal(n as nat)
    }
}

/// The last segment of a text holds no `/`, and the text is its
/// directory part followed by its last segment.
pub proof fn lemma_last_segment(s: Seq<char>)
    ensures
        -1 <= last_slash(s) < s.len(),
        last_slash(s) >= 0 ==> s[last_slash(s)] == '/',
        slash_free(last_segment(s)),
        dir_part(s) + last_segment(s) == s,
    decreases s.len(),
{
    if s.len() > 0 && s.last() != '/' {
        lemma_last_segment(s.drop_last());
        let t = s.drop_last();
        assert forall|i: int| 0 <= i < last_segment(s).len() implies #[trigger] last_segment(s)[i]
            != '/' by {
            if i < last_segment(t).len() {
                assert(last_segment(s)[i] == last_segment(t)[i]);
            }
        }
    }
    assert(dir_part(s) + last_segment(s) =~= s);
}

/// Where the text after position `start` holds no `/`, and a `/` stands
/// just before it, the last segment starts at `start`.
pub proof fn lemma_last_slash_found(s: Seq<char>, start: int)
    requires
        0 <= start <= s.len(),
        start == 0 || s[start - 1] == '/',
        forall|i: int| start <= i < s.len() ==> s[i] != '/',
    ensures
        last_slash(s) == start - 1,
    decreases s.len(),
{
    if s.len() > 0 && s.last() != '/' {
        lemma_last_slash_found(s.drop_last(), start);
    }
}

/// A file name holds no `/`.
pub proof fn lemma_file_name_slash_free(s: Seq<char>)
    ensures
        file_name(s) matches Some(name) ==> slash_free(name) && name.len() > 0,
    decreases s.len(),
{
    if s.len() > 0 {
        lemma_last_segment(s);
        if s.last() == '/' || last_segment(s) == seq!['.'] {
            lemma_file_name_slash_free(s.drop_last());
        }
    }
}

/// A session's base name holds no `/`.
pub proof fn lemma_base_name_slash_free(s: Seq<char>)
    ensures
        slash_free(base_name(s)),
{
    lemma_file_name_slash_free(s);
}

/// A requested name that holds no `/`, and is neither empty nor `.` nor
/// `..`, is its own base name.
pub proof fn lemma_base_name_of_plain(s: Seq<char>)
    requires
        slash_free(s),
        s.len() > 0,
        s != seq!['.'],
        s != seq!['.', '.'],
    ensures
        base_name(s) == s,
{
    lemma_last_slash_found(s, 0);
    assert(last_segment(s) =~= s);
}

/// Distinct numbers give distinct numbered forms of a name.
pub proof fn lemma_numbered_injective(base: Seq<char>, i: nat, j: nat)
    requires
        numbered(base, i) == numbered(base, j),
    ensures
        i == j,
{
    let prefix = base + seq!['-'];
    assert(numbered(base, i).skip(prefix.len() as int) =~= decimal(i));
    assert(numbered(base, j).skip(prefix.len() as int) =~= decimal(j));
    lemma_decimal_value(i);
    lemma_decimal_value(j);
}

/// A numbered form of a name is not the name itself.
pub proof fn lemma_numbered_differs(base: Seq<char>, i: nat)
    ensures
        numbered(base, i) != base,
{
    assert(numbered(base, i).len() > base.len());
}

/// Where the first `n` numbered forms of a name are all taken, at least
/// `n` names are taken.
pub proof fn lemma_numbered_bound(base: Seq<char>, taken: Set<Seq<char>>, n: nat)
    requires
        taken.finite(),
        forall|j: nat| j < n ==> taken.contains(#[trigger] numbered(base, j)),
    ensures
        n <= taken.len(),
    decreases n,
{
    if n > 0 {
        let last = numbered(base, (n - 1) as nat);
        let rest = taken.remove(last);
        assert forall|j: nat| j < n - 1 implies rest.contains(#[trigger] numbered(base, j)) by {
            if numbered(base, j) == last {
                lemma_numbered_injective(base, j, (n - 1) as nat);
            }
        }
        lemma_numbered_bound(base, rest, (n - 1) as nat);
    }
}

/// Where the name and the first `n` numbered forms of it are all taken,
/// more than `n` names are taken.
pub proof fn lemma_numbered_bound_with_base(base: Seq<char>, taken: Set<Seq<char>>, n: nat)
    requires
        taken.finite(),
        taken.contains(base),
        forall|j: nat| j < n ==> taken.contains(#[trigger] numbered(base, j)),
    ensures
        n < taken.len(),
{
    let rest = taken.remove(base);
    assert forall|j: nat| j < n implies rest.contains(#[trigger] numbered(base, j)) by {
        lemma_numbered_differs(base, j);
    }
    lemma_numbered_bound(base, rest, n);
}

/// At most one number is the first free one.
pub proof fn lemma_first_free_unique(base: Seq<char>, taken: Set<Seq<char>>, i: nat, k: nat)
    requires
        is_first_free(base, taken, i),
        is_first_free(base, taken, k),
    ensures
        i == k,
{
    if i < k {
        assert(taken.contains(numbered(base, i)));
    }
    if k < i {
        assert(taken.contains(numbered(base, k)));
    }
}

/// The name given to a new session is not in use.
pub proof fn lemma_unique_name_is_free(base: Seq<char>, taken: Set<Seq<char>>)
    requires
        taken.finite(),
    ensures
        !taken.contains(unique_name(base, taken)),
{
    if taken.contains(base) {
        lemma_first_free_exists(base, taken, 0);
    }
}

/// Some number is the first free one, where the names in use are
/// finitely many. `from` is a number below which all numbered forms are taken.
pub proof fn lemma_first_free_exists(base: Seq<char>, taken: Set<Seq<char>>, from: nat)
    requires
        taken.finite(),
        forall|j: nat| j < from ==> taken.contains(#[trigger] numbered(base, j)),
    ensures
        exists|i: nat| is_first_free(base, taken, i),
    decreases taken.len() - from,
{
    if taken.contains(numbered(base, from)) {
        lemma_numbered_bound(base, taken, from + 1);
        lemma_first_free_exists(base, taken, from + 1);
    } else {
        assert(is_first_free(base, taken, from));
    }
}

/// The name that the `n`-th session gets that asks for `base`, where none
/// of these names was in use before: `base`, then `base-0`, `base-1`, ...
pub open spec fn nth_name(base: Seq<char>, n: nat) -> Seq<char> {
    if n == 0 {
        base
    } else {
        numbered(base, (n - 1) as nat)
    }
}

/// The names in use once `n` sessions that ask for `base` have been
/// named one after the other, where `taken` were in use before.
pub open spec fn names_after(taken: Set<Seq<char>>, base: Seq<char>, n: nat) -> Set<Seq<char>>
    decreases n,
{
    if n == 0 {
        taken
    } else {
        let before = names_after(taken, base, (n - 1) as nat);
        before.insert(unique_name(base, before))
    }
}

/// No two sessions that ask for the same name get the same name.
pub proof fn lemma_nth_name_injective(base: Seq<char>, i: nat, j: nat)
    requires
        nth_name(base, i) == nth_name(base, j),
    ensures
        i == j,
{
    if i == 0 && j > 0 {
        lemma_numbered_differs(base, (j - 1) as nat);
    }
    if j == 0 && i > 0 {
        lemma_numbered_differs(base, (i - 1) as nat);
    }
    if i > 0 && j > 0 {
        lemma_numbered_injective(base, (i - 1) as nat, (j - 1) as nat);
    }
}

/// Sessions that ask for the same name one after the other are called
/// `base`, `base-0`, `base-1`, and so on, where none of these names was
/// in use before.
pub proof fn lemma_repeated_names(taken: Set<Seq<char>>, base: Seq<char>, n: nat)
    requires
        taken.finite(),
        forall|k: nat| !taken.contains(#[trigger] nth_name(base, k)),
    ensures
        unique_name(base, names_after(taken, base, n)) == nth_name(base, n),
        names_after(taken, base, n).finite(),
        forall|k: nat| names_after(taken, base, n).contains(#[trigger] nth_name(base, k)) <==> k < n,
    decreases n,
{
    let now = names_after(taken, base, n);
    if n > 0 {
        lemma_repeated_names(taken, base, (n - 1) as nat);
        let before = names_after(taken, base, (n - 1) as nat);
        assert(now == before.insert(nth_name(base, (n - 1) as nat)));
        assert forall|k: nat| now.contains(#[trigger] nth_name(base, k)) <==> k < n by {
            if nth_name(base, k) == nth_name(base, (n - 1) as nat) {
                lemma_nth_name_injective(base, k, (n - 1) as nat);
            }
        }
        assert(now.contains(nth_name(base, 0)));
        assert forall|j: nat| j < n - 1 implies now.contains(#[trigger] numbered(base, j)) by {
            assert(now.contains(nth_name(base, j + 1)));
        }
        assert(!now.contains(nth_name(base, n)));
        assert(is_first_free(base, now, (n - 1) as nat));
        let k = choose|k: nat| is_first_free(base, now, k);
        lemma_first_free_unique(base, now, (n - 1) as nat, k);
    } else {
        assert(!taken.contains(nth_name(base, 0)));
    }
}

/// The file name of the path `path`, if it has one.
pub fn path_file_name(path: &str) -> (r: Option<String>)
    ensures
        match file_name(path@) {
            Some(name) => r matches Some(s) && s@ == name,
            None => r is None,
        },
{
    let mut end: usize = path.unicode_len();
    assert(path@.take(end as int) =~= path@);
    loop
        invariant
            end <= path@.len(),
            file_name(path@) == file_name(path@.take(end as int)),
        decreases end,
    {
        let ghost t = path@.take(end as int);
        if end == 0 {
            return None;
        }
        if path.get_char(end - 1) == '/' {
            assert(t.drop_last() =~= path@.take(end - 1));
            end = end - 1;
        } else {
            let mut start: usize = end - 1;
            while start > 0 && path.get_char(start - 1) != '/'
                invariant
                    start < end <= path@.len(),
                    forall|i: int| start <= i < end ==> path@[i] != '/',
                decreases start,
            {
                start = start - 1;
            }
            proof {
                lemma_last_slash_found(t, start as int);
                assert(last_segment(t) =~= path@.subrange(start as int, end as int));
            }
            let dot = path.get_char(start) == '.';
            if end - start == 1 && dot {
                assert(last_segment(t) =~= seq!['.']);
                assert(t.drop_last() =~= path@.take(end - 1));
                end = end - 1;
            } else if end - start == 2 && dot && path.get_char(start + 1) == '.' {
                assert(last_segment(t) =~= seq!['.', '.']);
                return None;
            } else {
                proof {
                    if last_segment(t) == seq!['.'] {
                        assert(last_segment(t).len() == 1);
                        assert(last_segment(t)[0] == '.');
                    }
                    if last_segment(t) == seq!['.', '.'] {
                        assert(last_segment(t).len() == 2);
                        assert(last_segment(t)[0] == '.');
                        assert(last_segment(t)[1] == '.');
                    }
                }
                return Some(String::from_str(path.substring_char(start, end)));
            }
        }
    }
}

/// `text` with `_` in place of each `/`.
pub fn replace_slashes_in(text: &str) -> (r: String)
    ensures
        r@ == replace_slashes(text@),
{
    let len = text.unicode_len();
    let mut out = String::new();
    let mut i: usize = 0;
    while i < len
        invariant
            i <= len,
            len == text@.len(),
            out@ == replace_slashes(text@).take(i as int),
        decreases len - i,
    {
        let ghost before = out@;
        proof {
            reveal_strlit("_");
        }
        if text.get_char(i) == '/' {
            out.append("_");
        } else {
            out.append(text.substring_char(i, i + 1));
        }
        assert(out@ =~= replace_slashes(text@).take(i + 1));
        i = i + 1;
    }
    assert(out@ =~= replace_slashes(text@));
    out
}

/// The name that a session gets for the requested name `requested`, before numbering.
pub fn session_base_name(requested: &str) -> (r: String)
    ensures
        r@ == base_name(requested@),
{
    match path_file_name(requested) {
        Some(name) => name,
        None => replace_slashes_in(requested),
    }
}

/// The `i`-th numbered form of the name `base`.
pub fn numbered_name(base: &str, i: usize) -> (r: String)
    ensures
        r@ == numbered(base@, i as nat),
{
    let mut out = String::from_str(base);
    proof {
        reveal_strlit("-");
    }
    out.append("-");
    let digits = decimal_string(i);
    out.append(digits.as_str());
    assert(out@ =~= numbered(base@, i as nat));
    out
}

/// The path of the file `file` in the directory `dir`.
pub fn join(dir: &str, file: &str) -> (r: String)
    ensures
        r@ == join_path(dir@, file@),
{
    let len = dir.unicode_len();
    let mut out = String::from_str(dir);
    if len > 0 && dir.get_char(len - 1) != '/' {
        proof {
            reveal_strlit("/");
        }
        out.append("/");
    }
    out.append(file);
    assert(out@ =~= join_path(dir@, file@));
    out
}

/// The socket on which the session `name` relays bytes, in the runtime directory `dir`.
pub fn session_socket_path(dir: &str, name: &str) -> (r: String)
    ensures
        r@ == socket_path(dir@, name@),
{
    let mut file = String::from_str(name);
    file.append(".sock");
    join(dir, file.as_str())
}

/// Writes `n` in decimal, with `-` before it where it is negative.
pub fn signed_decimal_string(n: i32) -> (r: String)
    ensures
        r@ == signed_decimal(n as int),
{
    if n < 0 {
        proof {
            reveal_strlit("-");
        }
        let mut out = String::from_str("-");
        let magnitude: i64 = -(n as i64);
        let digits = decimal_string(magnitude as usize);
        out.append(digits.as_str());
        assert(out@ =~= signed_decimal(n as int));
        out
    } else {
        decimal_string(n as usize)
    }
}

/// The socket of the client of the child `pid`, beside the session socket `session_socket`.
pub fn client_socket(session_socket: &str, pid: i32) -> (r: String)
    ensures
        r@ == client_socket_path(session_socket@, pid),
{
    let len = session_socket.unicode_len();
    let mut cut: usize = len;
    while cut > 0 && session_socket.get_char(cut - 1) != '/'
        invariant
            cut <= len,
            len == session_socket@.len(),
            forall|i: int| cut <= i < len ==> session_socket@[i] != '/',
        decreases cut,
    {
        cut = cut - 1;
    }
    proof {
        lemma_last_slash_found(session_socket@, cut as int);
        assert(dir_part(session_socket@) =~= session_socket@.subrange(0, cut as int));
    }
    let mut out = String::from_str(session_socket.substring_char(0, cut));
    out.append("client-");
    let digits = signed_decimal_string(pid);
    out.append(digits.as_str());
    out.append(".sock");
    assert(out@ =~= client_socket_path(session_socket@, pid));
    out
}

/// The client's socket lies in the directory in which the session's socket was made.
pub proof fn lemma_client_socket_beside(dir: Seq<char>, name: Seq<char>, pid: i32)
    requires
        slash_free(name),
    ensures
        client_socket_path(socket_path(dir, name), pid) == join_path(dir, client_socket_name(pid)),
{
    reveal_strlit(".sock");
    let file = name + ".sock"@;
    let path = socket_path(dir, name);
    let head = if dir.len() == 0 || dir.last() == '/' {
        dir
    } else {
        dir + seq!['/']
    };
    assert(path =~= head + file);
    assert forall|i: int| head.len() <= i < path.len() implies path[i] != '/' by {
        let k = i - head.len();
        if k < name.len() {
            assert(path[i] == name[k]);
        } else {
            assert(path[i] == ".sock"@[k - name.len()]);
        }
    }
    if head.len() > 0 {
        assert(path[head.len() - 1] == '/');
    }
    lemma_last_slash_found(path, head.len() as int);
    assert(dir_part(path) =~= head);
    assert(client_socket_path(path, pid) =~= join_path(dir, client_socket_name(pid)));
}

} // verus!
