//! The path translator: bidirectional rewriting of single tokens between
//! Windows drive-letter paths (`C:\Users\x`) and mount-style POSIX paths
//! (`/mnt/c/Users/x`).
//!
//! Translation is per-token and purely textual. The one filesystem fact the
//! Windows-to-POSIX direction consults (does a relative path exist on disk?)
//! is injected as a boolean so the logic itself stays pure.

use vstd::prelude::*;

use crate::text::chars_to_string;
use crate::text::lower_char;
use crate::text::str_to_chars;
use crate::text::to_lower;
use crate::text::to_upper;
use crate::text::upper_char;

verus! {

/// The pattern `:\` starts at position `i` of `s`.
pub open spec fn colon_backslash_at(s: Seq<char>, i: int) -> bool {
    &&& 0 <= i
    &&& i + 1 < s.len()
    &&& s[i] == ':'
    &&& s[i + 1] == '\\'
}

/// `s` contains the pattern `:\` somewhere.
pub open spec fn has_colon_backslash(s: Seq<char>) -> bool {
    exists|i: int| colon_backslash_at(s, i)
}

/// `s` is an absolute Windows path: a drive letter, then `:\`. The `:\` at
/// position 1 is necessarily the first occurrence, since position 1 holds a
/// colon, not a backslash.
pub open spec fn is_drive_path(s: Seq<char>) -> bool {
    &&& s.len() >= 3
    &&& s[1] == ':'
    &&& s[2] == '\\'
}

/// `s` contains no `:\` pattern but holds a backslash whose first occurrence
/// is past position 1, so it may be a relative Windows path. A backslash at
/// position 0 or 1 leaves no room for a name before the separator, so such
/// tokens are not mistaken for paths.
pub open spec fn is_relative_candidate(s: Seq<char>) -> bool {
    &&& s.len() >= 3
    &&& s[0] != '\\'
    &&& s[1] != '\\'
    &&& exists|i: int| 2 <= i < s.len() && s[i] == '\\'
}

/// Turn one Windows separator into a POSIX one.
pub open spec fn win_sep_to_posix(c: char) -> char {
    if c == '\\' {
        '/'
    } else {
        c
    }
}

/// Turn one POSIX separator into a Windows one.
pub open spec fn posix_sep_to_win(c: char) -> char {
    if c == '/' {
        '\\'
    } else {
        c
    }
}

/// Every backslash of `s` replaced by a forward slash.
pub open spec fn backslashes_to_slashes(s: Seq<char>) -> Seq<char> {
    s.map_values(|c: char| win_sep_to_posix(c))
}

/// Every forward slash of `s` replaced by a backslash.
pub open spec fn slashes_to_backslashes(s: Seq<char>) -> Seq<char> {
    s.map_values(|c: char| posix_sep_to_win(c))
}

/// The mount prefix under which Windows drives appear on the POSIX side.
pub open spec fn mount_prefix() -> Seq<char> {
    seq!['/', 'm', 'n', 't', '/']
}

/// What translating one token from the Windows to the POSIX convention
/// returns.
///
/// - A drive path `<letter>:\<rest>` becomes `/mnt/<lower letter>/<rest>`
///   with every backslash turned into a forward slash.
/// - A token whose `:\` sits anywhere else is not a drive path (a URL, a
///   port number) and passes through unchanged.
/// - A token without `:\` but with a backslash first appearing past
///   position 1 is a relative-path candidate: it is rewritten only when a
///   filesystem entry of that literal name exists (`exists_on_disk`).
/// - Everything else passes through unchanged.
pub open spec fn to_unix_spec(s: Seq<char>, exists_on_disk: bool) -> Seq<char> {
    if is_drive_path(s) {
        mount_prefix() + seq![lower_char(s[0])] + backslashes_to_slashes(s.skip(2))
    } else if has_colon_backslash(s) {
        s
    } else if is_relative_candidate(s) && exists_on_disk {
        backslashes_to_slashes(s)
    } else {
        s
    }
}

/// `s` starts with `/mnt/<drive>/`: the mount prefix, one drive character,
/// then a separator.
pub open spec fn is_mount_path(s: Seq<char>) -> bool {
    &&& s.len() >= 7
    &&& s[0] == '/'
    &&& s[1] == 'm'
    &&& s[2] == 'n'
    &&& s[3] == 't'
    &&& s[4] == '/'
    &&& s[6] == '/'
}

/// What translating one line from the POSIX back to the Windows convention
/// returns: a leading `/mnt/<drive>/<rest>` becomes `<DRIVE>:\<rest>` with
/// the drive letter upper-cased and every forward slash of the rest turned
/// into a backslash; anything else — `/mnt/` absent, embedded mid-line, or
/// not followed by `<drive>/` — passes through unchanged.
pub open spec fn to_win_spec(s: Seq<char>) -> Seq<char> {
    if is_mount_path(s) {
        seq![upper_char(s[5]), ':', '\\'] + slashes_to_backslashes(s.skip(7))
    } else {
        s
    }
}

/// A token holding no backslash at all (and hence no `:\` either) passes
/// through the Windows-to-POSIX translation unchanged, whatever the
/// filesystem probe answered.
pub proof fn lemma_no_backslash_unchanged(s: Seq<char>, exists_on_disk: bool)
    requires
        forall|i: int| 0 <= i < s.len() ==> s[i] != '\\',
    ensures
        to_unix_spec(s, exists_on_disk) == s,
{
    if has_colon_backslash(s) {
        let i = choose|i: int| colon_backslash_at(s, i);
        assert(s[i + 1] == '\\');
    }
    if is_relative_candidate(s) {
        let i = choose|i: int| 2 <= i < s.len() && s[i] == '\\';
        assert(s[i] == '\\');
    }
}

/// A token whose `:\` pattern sits anywhere but position 1 is not a drive
/// path and passes through the Windows-to-POSIX translation unchanged.
pub proof fn lemma_colon_backslash_elsewhere_unchanged(s: Seq<char>, exists_on_disk: bool)
    requires
        has_colon_backslash(s),
        !is_drive_path(s),
    ensures
        to_unix_spec(s, exists_on_disk) == s,
{
}

/// Translating a drive path yields `/mnt/` followed by the drive letter,
/// and the drive letter comes out lower-case whatever its input case.
pub proof fn lemma_drive_letter_lower_cased(s: Seq<char>, exists_on_disk: bool)
    requires
        is_drive_path(s),
        ('A' <= s[0] && s[0] <= 'Z') || ('a' <= s[0] && s[0] <= 'z'),
    ensures
        to_unix_spec(s, exists_on_disk).len() == s.len() + 4,
        to_unix_spec(s, exists_on_disk).take(5) == mount_prefix(),
        to_unix_spec(s, exists_on_disk)[5] == lower_char(s[0]),
        'a' <= lower_char(s[0]) && lower_char(s[0]) <= 'z',
{
    assert(to_unix_spec(s, exists_on_disk).take(5) =~= mount_prefix());
}

/// The relative-path heuristic: a token without `:\` is rewritten (all
/// backslashes becoming forward slashes) exactly when it is a relative-path
/// candidate and a filesystem entry of that literal name exists; with no
/// such entry, or no candidate shape, it passes through unchanged.
pub proof fn lemma_relative_heuristic(s: Seq<char>)
    requires
        !has_colon_backslash(s),
    ensures
        to_unix_spec(s, false) == s,
        is_relative_candidate(s) ==> to_unix_spec(s, true) == backslashes_to_slashes(s),
        !is_relative_candidate(s) ==> to_unix_spec(s, true) == s,
{
    if is_drive_path(s) {
        assert(colon_backslash_at(s, 1));
    }
}

/// Round trip: a well-formed absolute Windows path — an upper-case drive
/// letter, then `:\`, with no forward slash anywhere — comes back intact
/// from translating to the POSIX convention and back. (A lower-case drive
/// letter does not round-trip: the reverse direction re-cases it upward.)
pub proof fn lemma_absolute_round_trip(s: Seq<char>, exists_on_disk: bool)
    requires
        s.len() >= 3,
        'A' <= s[0] && s[0] <= 'Z',
        s[1] == ':',
        s[2] == '\\',
        forall|i: int| 0 <= i < s.len() ==> s[i] != '/',
    ensures
        to_win_spec(to_unix_spec(s, exists_on_disk)) == s,
{
    let u = to_unix_spec(s, exists_on_disk);
    assert(is_drive_path(s));
    assert(u == mount_prefix() + seq![lower_char(s[0])] + backslashes_to_slashes(s.skip(2)));
    assert(u.len() == s.len() + 4);
    assert(u[5] == lower_char(s[0]));
    assert(u[6] == win_sep_to_posix(s.skip(2)[0]));
    assert(is_mount_path(u));
    let w = to_win_spec(u);
    assert('a' <= lower_char(s[0]) && lower_char(s[0]) <= 'z');
    assert(upper_char(lower_char(s[0])) == s[0]);
    assert forall|i: int| 3 <= i < s.len() implies w[i] == s[i] by {
        assert(u[i + 4] == win_sep_to_posix(s.skip(2)[i - 2]));
        assert(w[i] == posix_sep_to_win(u.skip(7)[i - 3]));
        assert(s[i] != '/');
    }
    assert(w =~= s);
}

/// Whether `v` contains the pattern `:\`.
fn find_colon_backslash(v: &Vec<char>) -> (r: bool)
    ensures
        r == has_colon_backslash(v@),
{
    if v.len() < 2 {
        proof {
            assert(forall|i: int| !colon_backslash_at(v@, i));
        }
        return false;
    }
    let mut i: usize = 0;
    while i + 1 < v.len()
        invariant
            i + 1 <= v.len(),
            forall|j: int| 0 <= j < i ==> !colon_backslash_at(v@, j),
        decreases v.len() - i,
    {
        if v[i] == ':' && v[i + 1] == '\\' {
            proof {
                assert(colon_backslash_at(v@, i as int));
            }
            return true;
        }
        i = i + 1;
    }
    proof {
        assert(forall|j: int| 0 <= j < v@.len() ==> !colon_backslash_at(v@, j));
    }
    false
}

/// The position of the first backslash of `v`, if any.
fn first_backslash(v: &Vec<char>) -> (r: Option<usize>)
    ensures
        match r {
            Some(i) => i < v@.len() && v@[i as int] == '\\' && forall|j: int|
                0 <= j < i ==> v@[j] != '\\',
            None => forall|j: int| 0 <= j < v@.len() ==> v@[j] != '\\',
        },
{
    let mut i: usize = 0;
    while i < v.len()
        invariant
            i <= v.len(),
            forall|j: int| 0 <= j < i ==> v@[j] != '\\',
        decreases v.len() - i,
    {
        if v[i] == '\\' {
            return Some(i);
        }
        i = i + 1;
    }
    None
}

/// Copy `v` from position `from` onward into `out`, replacing each
/// backslash by a forward slash.
fn push_as_posix(out: &mut Vec<char>, v: &Vec<char>, from: usize)
    requires
        from <= v@.len(),
    ensures
        final(out)@ == old(out)@ + backslashes_to_slashes(v@.skip(from as int)),
{
    let mut i: usize = from;
    while i < v.len()
        invariant
            from <= i <= v.len(),
            out@ == old(out)@ + backslashes_to_slashes(v@.subrange(from as int, i as int)),
        decreases v.len() - i,
    {
        let c = v[i];
        if c == '\\' {
            out.push('/');
        } else {
            out.push(c);
        }
        i = i + 1;
        proof {
            assert(out@ =~= old(out)@ + backslashes_to_slashes(
                v@.subrange(from as int, i as int),
            ));
        }
    }
    proof {
        assert(v@.subrange(from as int, v@.len() as int) =~= v@.skip(from as int));
    }
}

/// Translate one token from the Windows to the POSIX path convention, per
/// `to_unix_spec`. `exists_on_disk` answers whether a filesystem entry named
/// by the token itself exists; it is consulted only for relative-path
/// candidates (see `needs_existence_probe`).
pub fn translate_path_to_unix(arg: String, exists_on_disk: bool) -> (r: String)
    ensures
        r@ == to_unix_spec(arg@, exists_on_disk),
{
    let v = str_to_chars(arg.as_str());
    if v.len() >= 3 && v[1] == ':' && v[2] == '\\' {
        let mut out: Vec<char> = Vec::new();
        out.push('/');
        out.push('m');
        out.push('n');
        out.push('t');
        out.push('/');
        out.push(to_lower(v[0]));
        proof {
            assert(out@ =~= mount_prefix() + seq![lower_char(v@[0])]);
        }
        push_as_posix(&mut out, &v, 2);
        return chars_to_string(&out);
    }
    if find_colon_backslash(&v) {
        return arg;
    }
    let translate_relative = match first_backslash(&v) {
        Some(i) => i > 1 && exists_on_disk,
        None => false,
    };
    if translate_relative {
        let mut out: Vec<char> = Vec::new();
        push_as_posix(&mut out, &v, 0);
        proof {
            assert(v@.skip(0) =~= v@);
        }
        return chars_to_string(&out);
    }
    arg
}

/// Whether the translator would consult the filesystem for this token: it
/// holds no `:\` pattern and is a relative-path candidate. A caller probes
/// the filesystem only when this returns true, and passes the answer to
/// `translate_path_to_unix`.
pub fn needs_existence_probe(arg: &str) -> (r: bool)
    ensures
        r == (!has_colon_backslash(arg@) && is_relative_candidate(arg@)),
{
    let v = str_to_chars(arg);
    if find_colon_backslash(&v) {
        return false;
    }
    match first_backslash(&v) {
        Some(i) => i > 1,
        None => false,
    }
}

/// Translate one line from the POSIX back to the Windows path convention,
/// per `to_win_spec`.
pub fn translate_path_to_win(line: &str) -> (r: String)
    ensures
        r@ == to_win_spec(line@),
{
    let v = str_to_chars(line);
    if v.len() >= 7 && v[0] == '/' && v[1] == 'm' && v[2] == 'n' && v[3] == 't' && v[4] == '/'
        && v[6] == '/' {
        let mut out: Vec<char> = Vec::new();
        out.push(to_upper(v[5]));
        out.push(':');
        out.push('\\');
        let mut i: usize = 7;
        while i < v.len()
            invariant
                7 <= i <= v.len(),
                out@ == seq![upper_char(v@[5]), ':', '\\'] + slashes_to_backslashes(
                    v@.subrange(7, i as int),
                ),
            decreases v.len() - i,
        {
            let c = v[i];
            if c == '/' {
                out.push('\\');
            } else {
                out.push(c);
            }
            i = i + 1;
            proof {
                assert(out@ =~= seq![upper_char(v@[5]), ':', '\\'] + slashes_to_backslashes(
                    v@.subrange(7, i as int),
                ));
            }
        }
        proof {
            assert(v@.subrange(7, v@.len() as int) =~= v@.skip(7));
        }
        chars_to_string(&out)
    } else {
        line.to_owned()
    }
}

} // verus!
