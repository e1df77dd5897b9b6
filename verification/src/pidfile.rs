//! The daemon's pid file: what the daemon writes into it, and how its
//! contents are read back to find the daemon and tell whether it runs.

use crate::text::{
    all_digits, chars_of, decimal, decimal_string, is_digit, lemma_decimal, parse_i32,
    parse_i32_chars, trim, trim_bounds, trim_end, trim_start,
};
use vstd::prelude::*;

verus! {

/// Why no process id could be read from the pid file.
#[derive(Debug, Clone, Copy, PartialEq, Eq, Structural)]
pub enum PidError {
    /// The file could not be read (it does not exist, or is not UTF-8).
    Unreadable,
    /// The file does not hold a decimal `i32` once trimmed.
    Malformed,
}

/// The characters of a file's contents, where it could be read.
pub open spec fn contents_view(contents: Option<&str>) -> Option<Seq<char>> {
    match contents {
        Some(c) => Some(c@),
        None => None,
    }
}

/// The process id that a pid file with these contents names: its contents,
/// trimmed of white space, parsed as an `i32`.
pub open spec fn pid_of(contents: Option<Seq<char>>) -> Result<i32, PidError> {
    match contents {
        None => Err(PidError::Unreadable),
        Some(c) => match parse_i32(trim(c)) {
            Some(pid) => Ok(pid),
            None => Err(PidError::Malformed),
        },
    }
}

/// Reads the process id out of the pid file's contents; `None` stands for a
/// file that could not be read.
pub fn read_pid(contents: Option<&str>) -> (r: Result<i32, PidError>)
    ensures
        r == pid_of(contents_view(contents)),
{
    match contents {
        None => Err(PidError::Unreadable),
        Some(c) => {
            let chars = chars_of(c);
            let (start, end) = trim_bounds(&chars);
            match parse_i32_chars(&chars, start, end) {
                Some(pid) => Ok(pid),
                None => Err(PidError::Malformed),
            }
        },
    }
}

/// The daemon counts as running exactly when a process id can be read from
/// its pid file.
pub fn is_running(contents: Option<&str>) -> (r: bool)
    ensures
        r == pid_of(contents_view(contents)) is Ok,
{
    read_pid(contents).is_ok()
}

/// What the daemon writes into its pid file: its process id in decimal.
pub fn pid_file_contents(pid: u32) -> (r: String)
    ensures
        r@ == decimal(pid as nat),
{
    decimal_string(pid)
}

/// A run of digits has no white space to trim and no sign, so it parses to
/// its own value where that fits in an `i32`.
proof fn lemma_digits_parse(s: Seq<char>, v: int)
    requires
        s.len() > 0,
        all_digits(s),
        crate::text::digits_value(s) == v,
        0 <= v <= i32::MAX,
    ensures
        trim(s) == s,
        parse_i32(s) == Some(v as i32),
{
    assert(is_digit(s[0]));
    assert(is_digit(s.last()));
}

/// Reading back a pid file that the daemon wrote gives the daemon's process
/// id, whenever that id fits in an `i32`; a trailing newline, as an editor or
/// `echo` would add, changes nothing.
pub proof fn lemma_pid_file_round_trip(pid: u32)
    requires
        pid <= i32::MAX,
    ensures
        pid_of(Some(decimal(pid as nat))) == Ok::<i32, PidError>(pid as i32),
        pid_of(Some(decimal(pid as nat).push('\n'))) == Ok::<i32, PidError>(pid as i32),
{
    let d = decimal(pid as nat);
    lemma_decimal(pid as nat);
    lemma_digits_parse(d, pid as int);
    let dn = d.push('\n');
    assert(is_digit(d[0]));
    assert(dn[0] == d[0]);
    assert(trim_start(dn) == dn);
    assert(dn.drop_last() =~= d);
    assert(trim_end(dn) == trim_end(d));
    assert(trim_end(d) == d) by {
        assert(is_digit(d.last()));
    }
}

/// A pid file holding a number in decimal, with a sign or not, and with
/// white space around it, names that number wherever it fits in an `i32`.
pub proof fn lemma_signed_pid_read(n: nat)
    requires
        n <= 0x8000_0000,
    ensures
        n < 0x8000_0000 ==> pid_of(Some(seq![' '] + seq!['+'] + decimal(n) + seq!['\t', '\n']))
            == Ok::<i32, PidError>(n as i32),
        pid_of(Some(seq!['\n'] + seq!['-'] + decimal(n) + seq!['\r', '\n'])) == Ok::<i32, PidError>(
            (-n) as i32,
        ),
{
    lemma_decimal(n);
    let d = decimal(n);
    assert(is_digit(d[0]));
    assert(is_digit(d.last()));
    let pos = seq!['+'] + d;
    let s1 = seq![' '] + pos + seq!['\t', '\n'];
    assert(s1 =~= seq![' '] + seq!['+'] + d + seq!['\t', '\n']);
    assert(s1.drop_first() =~= pos + seq!['\t', '\n']);
    assert(trim_start(s1) == trim_start(pos + seq!['\t', '\n']));
    assert((pos + seq!['\t', '\n'])[0] == '+');
    assert((pos + seq!['\t', '\n']).drop_last() =~= pos + seq!['\t']);
    assert((pos + seq!['\t']).drop_last() =~= pos);
    assert(pos.last() == d.last());
    assert(trim_start(pos + seq!['\t', '\n']) == pos + seq!['\t', '\n']);
    assert(trim_end(pos + seq!['\t', '\n']) == trim_end(pos + seq!['\t']));
    assert(trim_end(pos + seq!['\t']) == trim_end(pos));
    assert(trim_end(pos) == pos);
    assert(trim(s1) == pos);
    assert(pos.drop_first() =~= d);
    let neg = seq!['-'] + d;
    let s2 = seq!['\n'] + neg + seq!['\r', '\n'];
    assert(s2 =~= seq!['\n'] + seq!['-'] + d + seq!['\r', '\n']);
    assert(s2.drop_first() =~= neg + seq!['\r', '\n']);
    assert((neg + seq!['\r', '\n'])[0] == '-');
    assert((neg + seq!['\r', '\n']).drop_last() =~= neg + seq!['\r']);
    assert((neg + seq!['\r']).drop_last() =~= neg);
    assert(neg.last() == d.last());
    assert(trim_start(neg + seq!['\r', '\n']) == neg + seq!['\r', '\n']);
    assert(trim_end(neg + seq!['\r', '\n']) == trim_end(neg + seq!['\r']));
    assert(trim_end(neg + seq!['\r']) == trim_end(neg));
    assert(trim_end(neg) == neg);
    assert(trim(s2) == neg);
    assert(neg.drop_first() =~= d);
}

/// A daemon that wrote its pid file is seen as running.
pub proof fn lemma_written_pid_means_running(pid: u32)
    requires
        pid <= i32::MAX,
    ensures
        pid_of(Some(decimal(pid as nat))) is Ok,
{
    lemma_pid_file_round_trip(pid);
}

} // verus!
