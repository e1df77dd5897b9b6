//! The activity events the monitor reports, and their JSON framing.
//!
//! Strings and numbers are written by `serde_json`; the objects around them
//! are framed here, keys in the sorted order in which `serde_json` writes the
//! maps that `json!` builds.

use crate::text::{decimal, digit_char, ends_with, lemma_middle, starts_with};
use vstd::prelude::*;

verus! {

/// What the monitor learns of the window that has the focus.
pub struct WindowSnapshot {
    /// The window's id.
    pub id: u32,
    /// The name of the operating system.
    pub os: String,
    /// The window's title.
    pub title: String,
    /// The page's address, where the window is a browser's.
    pub url: String,
    /// The path of the window's program.
    pub process_path: String,
    /// The name of the window's program.
    pub process_name: String,
    /// The file name of the window's program.
    pub exec_name: String,
}

/// One report of what is being done, as it is posted to the server.
pub struct ActivityEvent {
    /// Where the report comes from.
    pub platform: String,
    /// What is reported as the title: the program's name.
    pub title: String,
    /// What is reported as the address: the program's path.
    pub url: String,
}

/// The lower-case hexadecimal digit for `d`.
pub open spec fn hex_digit(d: nat) -> char {
    if d < 10 {
        digit_char(d)
    } else if d == 10 {
        'a'
    } else if d == 11 {
        'b'
    } else if d == 12 {
        'c'
    } else if d == 13 {
        'd'
    } else if d == 14 {
        'e'
    } else {
        'f'
    }
}

/// How one character stands inside a JSON string.
pub open spec fn json_escape_char(c: char) -> Seq<char> {
    let u: u32 = c as u32;
    if c == '"' {
        seq!['\\', '"']
    } else if c == '\\' {
        seq!['\\', '\\']
    } else if u == 0x08 {
        seq!['\\', 'b']
    } else if u == 0x09 {
        seq!['\\', 't']
    } else if u == 0x0A {
        seq!['\\', 'n']
    } else if u == 0x0C {
        seq!['\\', 'f']
    } else if u == 0x0D {
        seq!['\\', 'r']
    } else if u < 0x20 {
        seq!['\\', 'u', '0', '0', hex_digit((u / 16) as nat), hex_digit((u % 16) as nat)]
    } else {
        seq![c]
    }
}

/// The characters of `s`, each as it stands inside a JSON string.
pub open spec fn json_escape(s: Seq<char>) -> Seq<char>
    decreases s.len(),
{
    if s.len() == 0 {
        Seq::empty()
    } else {
        json_escape(s.drop_last()) + json_escape_char(s.last())
    }
}

/// `s` written as a JSON string.
pub open spec fn json_string(s: Seq<char>) -> Seq<char> {
    seq!['"'] + json_escape(s) + seq!['"']
}

/// `serde_json::to_string` on a `str`: the string between double quotes,
/// with `"` and `\` escaped by a backslash, the control characters below
/// U+0020 escaped (backspace, tab, line feed, form feed and carriage return
/// as `\b \t \n \f \r`, the others as `\u00` and two lower-case hex digits),
/// and every other character as it stands. Its source writes into a `Vec`,
/// which cannot fail, so the call always succeeds.
#[verifier::external_body]
fn json_string_of(s: &str) -> (r: String)
    ensures
        r@ == json_string(s@),
{
    match serde_json::to_string(s) {
        Ok(v) => v,
        Err(_) => String::new(),
    }
}

/// `serde_json::to_string` on a `u32`: the number's shortest decimal writing.
/// Its source writes into a `Vec`, which cannot fail, so the call always
/// succeeds.
#[verifier::external_body]
fn json_number_of(n: u32) -> (r: String)
    ensures
        r@ == decimal(n as nat),
{
    match serde_json::to_string(&n) {
        Ok(v) => v,
        Err(_) => String::new(),
    }
}

/// The bytes that JSON lets stand around a value: space, tab, line feed and
/// carriage return.
pub open spec fn is_json_space(b: u8) -> bool {
    b == 0x20 || b == 0x09 || b == 0x0A || b == 0x0D
}

/// `s` without its leading JSON white space.
pub open spec fn trim_json_start(s: Seq<u8>) -> Seq<u8>
    decreases s.len(),
{
    if s.len() > 0 && is_json_space(s[0]) {
        trim_json_start(s.drop_first())
    } else {
        s
    }
}

/// `s` without its trailing JSON white space.
pub open spec fn trim_json_end(s: Seq<u8>) -> Seq<u8>
    decreases s.len(),
{
    if s.len() > 0 && is_json_space(s.last()) {
        trim_json_end(s.drop_last())
    } else {
        s
    }
}

/// Whether `s` is the JSON `null`, with nothing around it but JSON white
/// space.
pub open spec fn is_json_null(s: Seq<u8>) -> bool {
    trim_json_end(trim_json_start(s)) == seq![0x6Eu8, 0x75u8, 0x6Cu8, 0x6Cu8]
}

/// Whether every byte of `s` is JSON white space.
pub open spec fn all_json_space(s: Seq<u8>) -> bool {
    forall|i: int| 0 <= i < s.len() ==> is_json_space(#[trigger] s[i])
}

/// The bytes of `null`.
pub open spec fn null_bytes() -> Seq<u8> {
    seq![0x6Eu8, 0x75u8, 0x6Cu8, 0x6Cu8]
}

proof fn lemma_trim_json_start_spaces(a: Seq<u8>, x: Seq<u8>)
    requires
        all_json_space(a),
        x.len() == 0 || !is_json_space(x[0]),
    ensures
        trim_json_start(a + x) == x,
    decreases a.len(),
{
    if a.len() == 0 {
        assert(a + x =~= x);
    } else {
        assert((a + x)[0] == a[0]);
        assert((a + x).drop_first() =~= a.drop_first() + x);
        assert(all_json_space(a.drop_first())) by {
            assert forall|i: int| 0 <= i < a.drop_first().len() implies is_json_space(
                #[trigger] a.drop_first()[i],
            ) by {
                assert(a.drop_first()[i] == a[i + 1]);
            }
        }
        lemma_trim_json_start_spaces(a.drop_first(), x);
    }
}

proof fn lemma_trim_json_end_spaces(x: Seq<u8>, b: Seq<u8>)
    requires
        all_json_space(b),
        x.len() == 0 || !is_json_space(x.last()),
    ensures
        trim_json_end(x + b) == x,
    decreases b.len(),
{
    if b.len() == 0 {
        assert(x + b =~= x);
    } else {
        assert((x + b).last() == b.last());
        assert((x + b).drop_last() =~= x + b.drop_last());
        assert(all_json_space(b.drop_last())) by {
            assert forall|i: int| 0 <= i < b.drop_last().len() implies is_json_space(
                #[trigger] b.drop_last()[i],
            ) by {
                assert(b.drop_last()[i] == b[i]);
            }
        }
        lemma_trim_json_end_spaces(x, b.drop_last());
    }
}

proof fn lemma_trim_json_start_split(s: Seq<u8>) -> (a: Seq<u8>)
    ensures
        all_json_space(a),
        s == a + trim_json_start(s),
    decreases s.len(),
{
    if s.len() > 0 && is_json_space(s[0]) {
        let a0 = lemma_trim_json_start_split(s.drop_first());
        let a = seq![s[0]] + a0;
        let t = trim_json_start(s.drop_first());
        assert(trim_json_start(s) == t);
        assert(s =~= seq![s[0]] + s.drop_first());
        assert(s.drop_first() == a0 + t);
        assert(s =~= a + t);
        assert(all_json_space(a)) by {
            assert forall|i: int| 0 <= i < a.len() implies is_json_space(#[trigger] a[i]) by {
                if i > 0 {
                    assert(a[i] == a0[i - 1]);
                }
            }
        }
        a
    } else {
        assert(s =~= Seq::<u8>::empty() + s);
        Seq::empty()
    }
}

proof fn lemma_trim_json_end_split(s: Seq<u8>) -> (b: Seq<u8>)
    ensures
        all_json_space(b),
        s == trim_json_end(s) + b,
    decreases s.len(),
{
    if s.len() > 0 && is_json_space(s.last()) {
        let b0 = lemma_trim_json_end_split(s.drop_last());
        let b = b0.push(s.last());
        let t = trim_json_end(s.drop_last());
        assert(trim_json_end(s) == t);
        assert(s =~= s.drop_last().push(s.last()));
        assert(s.drop_last() == t + b0);
        assert(s =~= t + b);
        assert(all_json_space(b)) by {
            assert forall|i: int| 0 <= i < b.len() implies is_json_space(#[trigger] b[i]) by {
                if i < b0.len() {
                    assert(b[i] == b0[i]);
                }
            }
        }
        b
    } else {
        assert(s =~= s + Seq::<u8>::empty());
        Seq::empty()
    }
}

/// The server's answer is the JSON `null` exactly when it is the bytes
/// `null` with nothing but JSON white space (space, tab, line feed, carriage
/// return) before and after.
pub proof fn lemma_json_null_shape(s: Seq<u8>)
    ensures
        is_json_null(s) <==> exists|a: Seq<u8>, b: Seq<u8>|
            all_json_space(a) && all_json_space(b) && s == a + null_bytes() + b,
{
    if is_json_null(s) {
        let a = lemma_trim_json_start_split(s);
        let b = lemma_trim_json_end_split(trim_json_start(s));
        assert(s =~= a + null_bytes() + b);
    }
    if exists|a: Seq<u8>, b: Seq<u8>|
        all_json_space(a) && all_json_space(b) && s == a + null_bytes() + b {
        let (a, b) = choose|a: Seq<u8>, b: Seq<u8>|
            all_json_space(a) && all_json_space(b) && s == a + null_bytes() + b;
        assert(s =~= a + (null_bytes() + b));
        lemma_trim_json_start_spaces(a, null_bytes() + b);
        lemma_trim_json_end_spaces(null_bytes(), b);
    }
}

/// `serde_json::from_slice::<()>`, told apart by success: its source skips
/// JSON white space (space, tab, line feed, carriage return), expects the
/// bytes `null`, then skips white space again and fails on anything left.
#[verifier::external_body]
pub(crate) fn parses_as_unit(bytes: &[u8]) -> (r: bool)
    ensures
        r == is_json_null(bytes@),
{
    serde_json::from_slice::<()>(bytes).is_ok()
}

/// The JSON body of an activity report.
pub open spec fn event_json(platform: Seq<char>, title: Seq<char>, url: Seq<char>) -> Seq<char> {
    "{\"platform\":"@ + json_string(platform) + ",\"title\":"@ + json_string(title)
        + ",\"url\":"@ + json_string(url) + "}"@
}

/// The platform every report names.
pub open spec fn platform_name() -> Seq<char> {
    "desktop"@
}

/// The report made of a window: the program's name as the title and the
/// program's path as the address.
pub fn activity_event(window: &WindowSnapshot) -> (e: ActivityEvent)
    ensures
        e.platform@ == platform_name(),
        e.title@ == window.process_name@,
        e.url@ == window.process_path@,
{
    ActivityEvent {
        platform: String::from_str("desktop"),
        title: window.process_name.clone(),
        url: window.process_path.clone(),
    }
}

/// The JSON body posted for a report.
pub fn event_body(event: &ActivityEvent) -> (r: String)
    ensures
        r@ == event_json(event.platform@, event.title@, event.url@),
{
    let mut body = String::from_str("{\"platform\":");
    body.append(json_string_of(event.platform.as_str()).as_str());
    body.append(",\"title\":");
    body.append(json_string_of(event.title.as_str()).as_str());
    body.append(",\"url\":");
    body.append(json_string_of(event.url.as_str()).as_str());
    body.append("}");
    body
}

/// The JSON that describes a window, as the desktop app hands it over.
pub open spec fn window_json(
    id: nat,
    os: Seq<char>,
    title: Seq<char>,
    url: Seq<char>,
    path: Seq<char>,
    name: Seq<char>,
    exec_name: Seq<char>,
) -> Seq<char> {
    "{\"id\":"@ + decimal(id) + ",\"info\":{\"exec_name\":"@ + json_string(exec_name)
        + ",\"name\":"@ + json_string(name) + ",\"path\":"@ + json_string(path) + "},\"os\":"@
        + json_string(os) + ",\"title\":"@ + json_string(title) + ",\"url\":"@ + json_string(url)
        + "}"@
}

/// The JSON the desktop app hands over when no window could be read.
pub open spec fn window_error_json() -> Seq<char> {
    "{\"error\":\"Error occurred while getting the active window\"}"@
}

/// The JSON the desktop app answers with: the window's description, or an
/// error object where no window could be read.
pub fn active_window_json(window: Option<&WindowSnapshot>) -> (r: String)
    ensures
        r@ == match window {
            Some(w) => window_json(
                w.id as nat,
                w.os@,
                w.title@,
                w.url@,
                w.process_path@,
                w.process_name@,
                w.exec_name@,
            ),
            None => window_error_json(),
        },
{
    match window {
        None => String::from_str("{\"error\":\"Error occurred while getting the active window\"}"),
        Some(w) => {
            let mut out = String::from_str("{\"id\":");
            out.append(json_number_of(w.id).as_str());
            out.append(",\"info\":{\"exec_name\":");
            out.append(json_string_of(w.exec_name.as_str()).as_str());
            out.append(",\"name\":");
            out.append(json_string_of(w.process_name.as_str()).as_str());
            out.append(",\"path\":");
            out.append(json_string_of(w.process_path.as_str()).as_str());
            out.append("},\"os\":");
            out.append(json_string_of(w.os.as_str()).as_str());
            out.append(",\"title\":");
            out.append(json_string_of(w.title.as_str()).as_str());
            out.append(",\"url\":");
            out.append(json_string_of(w.url.as_str()).as_str());
            out.append("}");
            out
        },
    }
}

/// A report's JSON opens with the platform and closes with the title and
/// the address, each written as a JSON string, in that order.
pub proof fn lemma_event_json_fields(platform: Seq<char>, title: Seq<char>, url: Seq<char>)
    ensures
        starts_with(event_json(platform, title, url), "{\"platform\":"@ + json_string(platform)),
        ends_with(
            event_json(platform, title, url),
            ",\"title\":"@ + json_string(title) + ",\"url\":"@ + json_string(url) + "}"@,
        ),
        event_json(platform, title, url).len() == ("{\"platform\":"@ + json_string(platform)).len()
            + (",\"title\":"@ + json_string(title) + ",\"url\":"@ + json_string(url) + "}"@).len(),
{
    let head = "{\"platform\":"@ + json_string(platform);
    let tail = ",\"title\":"@ + json_string(title) + ",\"url\":"@ + json_string(url) + "}"@;
    let r = event_json(platform, title, url);
    assert(r =~= head + Seq::<char>::empty() + tail);
    lemma_middle(head, Seq::<char>::empty(), tail);
}

/// A window's JSON opens with its id in decimal and its program's file
/// name, holds the program's name and path and the system's name next, and
/// closes with the window's title and address, each string written as a
/// JSON string.
pub proof fn lemma_window_json_fields(
    id: nat,
    os: Seq<char>,
    title: Seq<char>,
    url: Seq<char>,
    path: Seq<char>,
    name: Seq<char>,
    exec_name: Seq<char>,
)
    ensures
        ({
            let r = window_json(id, os, title, url, path, name, exec_name);
            let head = "{\"id\":"@ + decimal(id) + ",\"info\":{\"exec_name\":"@ + json_string(
                exec_name,
            );
            let mid = ",\"name\":"@ + json_string(name) + ",\"path\":"@ + json_string(path)
                + "},\"os\":"@ + json_string(os);
            let tail = ",\"title\":"@ + json_string(title) + ",\"url\":"@ + json_string(url)
                + "}"@;
            &&& starts_with(r, head)
            &&& ends_with(r, tail)
            &&& r.len() == head.len() + mid.len() + tail.len()
            &&& r.subrange(head.len() as int, (head.len() + mid.len()) as int) == mid
        }),
{
    let r = window_json(id, os, title, url, path, name, exec_name);
    let head = "{\"id\":"@ + decimal(id) + ",\"info\":{\"exec_name\":"@ + json_string(exec_name);
    let mid = ",\"name\":"@ + json_string(name) + ",\"path\":"@ + json_string(path)
        + "},\"os\":"@ + json_string(os);
    let tail = ",\"title\":"@ + json_string(title) + ",\"url\":"@ + json_string(url) + "}"@;
    assert(r =~= head + mid + tail);
    lemma_middle(head, mid, tail);
}

} // verus!
