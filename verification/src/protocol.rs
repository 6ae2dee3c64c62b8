//! The registrar's wire protocol: one request line out, one reply line in.
//!
//! The request grammar is `CONNECT <ring-name> <role-token> <pid>\n`, where
//! the role token is `producer` for a producer and `consumer.<slot>` for a
//! consumer at a given slot. The reply is a single line: `OK`, up to
//! surrounding whitespace, means success; any other content is a rejection
//! and the whole line is kept as the failure detail.
//!
//! The ring is identified by the base name of its storage file, so this
//! module also derives that name from a full path.

use vstd::prelude::*;

use crate::errors::Error;

verus! {

/// The role a client claims on a ring: the producer, or a consumer at the
/// slot assigned when it attached to the ring.
#[derive(Debug, Clone, Copy, PartialEq, Eq, Structural)]
pub enum Role {
    Producer,
    Consumer(u32),
}

/// The character for a single decimal digit.
pub open spec fn decimal_digit(d: nat) -> char {
    if d == 0 {
        '0'
    } else if d == 1 {
        '1'
    } else if d == 2 {
        '2'
    } else if d == 3 {
        '3'
    } else if d == 4 {
        '4'
    } else if d == 5 {
        '5'
    } else if d == 6 {
        '6'
    } else if d == 7 {
        '7'
    } else if d == 8 {
        '8'
    } else {
        '9'
    }
}

/// The usual decimal rendering of `n`: no sign, no leading zeroes (except
/// for `n == 0` itself, rendered `0`).
pub open spec fn decimal_chars(n: nat) -> Seq<char>
    decreases n,
{
    if n < 10 {
        seq![decimal_digit(n)]
    } else {
        decimal_chars(n / 10).push(decimal_digit(n % 10))
    }
}

/// The role token of the request line: `producer`, or `consumer.<slot>`.
pub open spec fn role_token(role: Role) -> Seq<char> {
    match role {
        Role::Producer => "producer"@,
        Role::Consumer(slot) => "consumer."@ + decimal_chars(slot as nat),
    }
}

/// The full registration request for `ring`, `role` and process id `pid`:
/// `CONNECT <ring> <role-token> <pid>\n`.
pub open spec fn connect_request_chars(ring: Seq<char>, role: Role, pid: u32) -> Seq<char> {
    "CONNECT "@ + ring + " "@ + role_token(role) + " "@ + decimal_chars(pid as nat) + "\n"@
}

/// A one-character string slice holding the decimal digit `d`.
fn digit_str(d: u32) -> (s: &'static str)
    requires
        d < 10,
    ensures
        s@ == seq![decimal_digit(d as nat)],
{
    proof {
        reveal_strlit("0");
        reveal_strlit("1");
        reveal_strlit("2");
        reveal_strlit("3");
        reveal_strlit("4");
        reveal_strlit("5");
        reveal_strlit("6");
        reveal_strlit("7");
        reveal_strlit("8");
        reveal_strlit("9");
    }
    let s: &'static str = if d == 0 {
        "0"
    } else if d == 1 {
        "1"
    } else if d == 2 {
        "2"
    } else if d == 3 {
        "3"
    } else if d == 4 {
        "4"
    } else if d == 5 {
        "5"
    } else if d == 6 {
        "6"
    } else if d == 7 {
        "7"
    } else if d == 8 {
        "8"
    } else {
        "9"
    };
    proof {
        assert(s@ =~= seq![decimal_digit(d as nat)]);
    }
    s
}

/// Append the decimal rendering of `n` to `out`.
fn push_decimal(out: &mut String, n: u32)
    ensures
        final(out)@ == old(out)@ + decimal_chars(n as nat),
    decreases n,
{
    if n >= 10 {
        push_decimal(out, n / 10);
    }
    out.append(digit_str(n % 10));
    proof {
        assert(final(out)@ =~= old(out)@ + decimal_chars(n as nat));
    }
}

/// Form the registration request line for `ring`, `role` and `pid`:
/// `CONNECT <ring> producer <pid>\n` for a producer, and
/// `CONNECT <ring> consumer.<slot> <pid>\n` for a consumer at `slot`.
pub fn connect_request(ring: &str, role: Role, pid: u32) -> (r: String)
    ensures
        r@ == connect_request_chars(ring@, role, pid),
{
    let mut out = String::new();
    out.append("CONNECT ");
    out.append(ring);
    out.append(" ");
    match role {
        Role::Producer => {
            out.append("producer");
        },
        Role::Consumer(slot) => {
            out.append("consumer.");
            push_decimal(&mut out, slot);
        },
    }
    out.append(" ");
    push_decimal(&mut out, pid);
    out.append("\n");
    proof {
        assert(out@ =~= connect_request_chars(ring@, role, pid));
    }
    out
}

/// Whitespace that is insignificant around a reply line: blanks, tabs, and
/// line terminators.
pub open spec fn is_reply_ws(c: char) -> bool {
    c == ' ' || c == '\t' || c == '\r' || c == '\n'
}

/// `s` with its leading whitespace removed.
pub open spec fn trim_front(s: Seq<char>) -> Seq<char>
    decreases s.len(),
{
    if s.len() > 0 && is_reply_ws(s[0]) {
        trim_front(s.drop_first())
    } else {
        s
    }
}

/// `s` with its trailing whitespace removed.
pub open spec fn trim_back(s: Seq<char>) -> Seq<char>
    decreases s.len(),
{
    if s.len() > 0 && is_reply_ws(s.last()) {
        trim_back(s.drop_last())
    } else {
        s
    }
}

/// `s` with whitespace removed at both ends.
pub open spec fn trimmed(s: Seq<char>) -> Seq<char> {
    trim_back(trim_front(s))
}

/// A reply line means success exactly when it is the token `OK` once the
/// surrounding whitespace is discarded.
pub open spec fn is_success_reply(s: Seq<char>) -> bool {
    trimmed(s) == seq!['O', 'K']
}

proof fn lemma_trim_front_range(s: Seq<char>, i: int)
    requires
        0 <= i <= s.len(),
        forall|k: int| 0 <= k < i ==> is_reply_ws(s[k]),
        i < s.len() ==> !is_reply_ws(s[i]),
    ensures
        trim_front(s) == s.subrange(i, s.len() as int),
    decreases i,
{
    if i == 0 {
        assert(trim_front(s) =~= s.subrange(0, s.len() as int));
    } else {
        let t = s.drop_first();
        assert(forall|k: int| 0 <= k < i - 1 ==> is_reply_ws(t[k]));
        lemma_trim_front_range(t, i - 1);
        assert(t.subrange(i - 1, t.len() as int) =~= s.subrange(i, s.len() as int));
    }
}

proof fn lemma_trim_back_range(s: Seq<char>, j: int)
    requires
        0 <= j <= s.len(),
        forall|k: int| j <= k < s.len() ==> is_reply_ws(s[k]),
        j > 0 ==> !is_reply_ws(s[j - 1]),
    ensures
        trim_back(s) == s.subrange(0, j),
    decreases s.len() - j,
{
    if j == s.len() {
        assert(trim_back(s) =~= s.subrange(0, j));
    } else {
        let t = s.drop_last();
        assert(forall|k: int| j <= k < t.len() ==> is_reply_ws(t[k]));
        lemma_trim_back_range(t, j);
        assert(t.subrange(0, j) =~= s.subrange(0, j));
    }
}

/// Whether `c` is insignificant whitespace around a reply line.
fn reply_ws(c: char) -> (r: bool)
    ensures
        r == is_reply_ws(c),
{
    c == ' ' || c == '\t' || c == '\r' || c == '\n'
}

/// Classify the registrar's single reply line: `Ok(())` exactly when the
/// line, trimmed of surrounding whitespace, is the token `OK`; any other
/// line is a rejection carrying the entire line as its detail.
pub fn classify_reply(line: String) -> (r: Result<(), Error>)
    ensures
        r is Ok <==> is_success_reply(line@),
        !is_success_reply(line@) ==> r == Result::<(), Error>::Err(
            Error::RegistrationRejected(line),
        ),
{
    let s: &str = line.as_str();
    let n: usize = s.unicode_len();
    let mut i: usize = 0;
    while i < n && reply_ws(s.get_char(i))
        invariant
            0 <= i <= n,
            n == s@.len(),
            s@ == line@,
            forall|k: int| 0 <= k < i ==> is_reply_ws(s@[k]),
        decreases n - i,
    {
        i = i + 1;
    }
    let mut j: usize = n;
    while j > i && reply_ws(s.get_char(j - 1))
        invariant
            i <= j <= n,
            n == s@.len(),
            s@ == line@,
            forall|k: int| j <= k < n ==> is_reply_ws(s@[k]),
        decreases j,
    {
        j = j - 1;
    }
    proof {
        lemma_trim_front_range(s@, i as int);
        let t = s@.subrange(i as int, n as int);
        lemma_trim_back_range(t, j - i);
        assert(t.subrange(0, j - i) =~= s@.subrange(i as int, j as int));
        assert(trimmed(line@) == s@.subrange(i as int, j as int));
    }
    let ok = j - i == 2 && s.get_char(i) == 'O' && s.get_char(i + 1) == 'K';
    proof {
        if ok {
            assert(s@.subrange(i as int, j as int) =~= seq!['O', 'K']);
        } else {
            assert(trimmed(line@) != seq!['O', 'K']) by {
                if s@.subrange(i as int, j as int) == seq!['O', 'K'] {
                    assert(j - i == 2);
                    assert(s@.subrange(i as int, j as int)[0] == 'O');
                    assert(s@.subrange(i as int, j as int)[1] == 'K');
                }
            }
        }
    }
    if ok {
        Ok(())
    } else {
        Err(Error::RegistrationRejected(line))
    }
}

/// The base name of a path: everything after the last `/`, or the whole
/// path when it holds no `/`.
pub open spec fn base_name(s: Seq<char>) -> Seq<char>
    decreases s.len(),
{
    if s.len() == 0 {
        s
    } else if s.last() == '/' {
        Seq::empty()
    } else {
        base_name(s.drop_last()).push(s.last())
    }
}

proof fn lemma_base_name_range(s: Seq<char>, start: int)
    requires
        0 <= start <= s.len(),
        start > 0 ==> s[start - 1] == '/',
        forall|k: int| start <= k < s.len() ==> s[k] != '/',
    ensures
        base_name(s) == s.subrange(start, s.len() as int),
    decreases s.len() - start,
{
    if start == s.len() {
        if s.len() == 0 {
            assert(base_name(s) =~= s.subrange(start, s.len() as int));
        } else {
            assert(s.last() == '/');
            assert(base_name(s) =~= s.subrange(start, s.len() as int));
        }
    } else {
        let t = s.drop_last();
        lemma_base_name_range(t, start);
        assert(s.last() != '/');
        assert(base_name(s) == base_name(t).push(s.last()));
        assert(t.subrange(start, t.len() as int).push(s.last()) =~= s.subrange(
            start,
            s.len() as int,
        ));
    }
}

/// Strip the directory part of a ring buffer file path: the registrar
/// identifies a ring by the file's base name, everything after the last
/// `/`. A path with no `/` is returned whole; a path ending in `/` yields
/// the empty name.
pub fn ring_name(filename: &str) -> (r: String)
    ensures
        r@ == base_name(filename@),
{
    let n: usize = filename.unicode_len();
    let mut start: usize = 0;
    let mut i: usize = 0;
    while i < n
        invariant
            0 <= start <= i <= n,
            n == filename@.len(),
            start > 0 ==> filename@[start - 1] == '/',
            forall|k: int| start <= k < i ==> filename@[k] != '/',
        decreases n - i,
    {
        if filename.get_char(i) == '/' {
            start = i + 1;
        }
        i = i + 1;
    }
    proof {
        lemma_base_name_range(filename@, start as int);
    }
    let tail: &str = filename.substring_char(start, n);
    tail.to_owned()
}

} // verus!
