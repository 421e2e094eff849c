//! Standard Base64 (RFC 4648, with `=` padding) and the OSC 52 escape
//! sequence that asks a terminal to put text on its clipboard.
use vstd::prelude::*;
use vstd::string::*;
use vstd::utf8::*;
use crate::text::{push_char, join3};

verus! {

/// The Base64 digit for a six-bit value.
pub open spec fn digit(v: int) -> char {
    if v < 26 {
        (65 + v) as char
    } else if v < 52 {
        (97 + v - 26) as char
    } else if v < 62 {
        (48 + v - 52) as char
    } else if v == 62 {
        '+'
    } else {
        '/'
    }
}

/// The four characters that encode a group of one to three bytes; missing
/// bytes count as zero and their digits are replaced by `=`.
pub open spec fn encode_group(g: Seq<u8>) -> Seq<char> {
    let b0 = g[0] as int;
    let b1 = if g.len() > 1 { g[1] as int } else { 0 };
    let b2 = if g.len() > 2 { g[2] as int } else { 0 };
    seq![
        digit(b0 / 4),
        digit((b0 % 4) * 16 + b1 / 16),
        if g.len() > 1 { digit((b1 % 16) * 4 + b2 / 64) } else { '=' },
        if g.len() > 2 { digit(b2 % 64) } else { '=' },
    ]
}

/// The Base64 encoding of `data`, three bytes at a time.
pub open spec fn base64(data: Seq<u8>) -> Seq<char>
    decreases data.len(),
{
    if data.len() == 0 {
        Seq::empty()
    } else if data.len() <= 3 {
        encode_group(data)
    } else {
        encode_group(data.take(3)) + base64(data.skip(3))
    }
}

/// The Base64 digit for a six-bit value.
fn digit_char(v: u32) -> (c: char)
    requires
        v < 64,
    ensures
        c == digit(v as int),
{
    if v < 26 {
        ((65 + v) as u8) as char
    } else if v < 52 {
        ((97 + v - 26) as u8) as char
    } else if v < 62 {
        ((48 + v - 52) as u8) as char
    } else if v == 62 {
        '+'
    } else {
        '/'
    }
}

/// The Base64 encoding of `data`.
pub fn base64_encode(data: &[u8]) -> (r: String)
    ensures
        r@ == base64(data@),
{
    let len = data.len();
    let mut out = String::new();
    let mut i: usize = 0;
    assert(data@.skip(0) =~= data@);
    while i < len
        invariant
            len == data@.len(),
            i <= len,
            base64(data@) == out@ + base64(data@.skip(i as int)),
        decreases len - i,
    {
        let rest = len - i;
        let b0 = data[i] as u32;
        let b1 = if rest > 1 { data[i + 1] as u32 } else { 0 };
        let b2 = if rest > 2 { data[i + 2] as u32 } else { 0 };
        let n = (b0 << 16) | (b1 << 8) | b2;
        let ghost g = if rest <= 3 { data@.skip(i as int) } else { data@.skip(i as int).take(3) };
        assert(g[0] == data@[i as int]);
        assert(rest > 1 ==> g[1] == data@[i + 1]);
        assert(rest > 2 ==> g[2] == data@[i + 2]);
        assert(((n >> 18) & 0x3f) == b0 / 4 && ((n >> 12) & 0x3f) == (b0 % 4) * 16 + b1 / 16
            && ((n >> 6) & 0x3f) == (b1 % 16) * 4 + b2 / 64 && (n & 0x3f) == b2 % 64) by (bit_vector)
            requires
                b0 < 256,
                b1 < 256,
                b2 < 256,
                n == (b0 << 16) | (b1 << 8) | b2,
        ;
        let ghost before = out@;
        push_char(&mut out, digit_char((n >> 18) & 0x3f));
        push_char(&mut out, digit_char((n >> 12) & 0x3f));
        if rest > 1 {
            push_char(&mut out, digit_char((n >> 6) & 0x3f));
        } else {
            push_char(&mut out, '=');
        }
        if rest > 2 {
            push_char(&mut out, digit_char(n & 0x3f));
        } else {
            push_char(&mut out, '=');
        }
        assert(out@ =~= before + encode_group(g));
        if rest <= 3 {
            assert(base64(data@.skip(i as int)) == encode_group(g));
            assert(out@ =~= out@ + base64(data@.skip(len as int)));
            i = len;
        } else {
            assert(data@.skip(i as int).skip(3) =~= data@.skip(i + 3));
            i = i + 3;
        }
    }
    out
}

/// The OSC 52 sequence that sets the terminal clipboard to `text`:
/// `ESC ] 52 ; c ; <base64 of the UTF-8 bytes> BEL`.
pub fn osc52_sequence(text: &str) -> (r: String)
    ensures
        r@ == "\u{1b}]52;c;"@ + base64(encode_utf8(text@)) + "\u{7}"@,
{
    let encoded = base64_encode(text.as_bytes());
    join3("\u{1b}]52;c;", encoded.as_str(), "\u{7}")
}

/// Whether the viewer runs over SSH: any of `SSH_CONNECTION`, `SSH_CLIENT`
/// or `SSH_TTY` is set.
pub fn is_ssh_session_with_env(ssh_connection: Option<String>, ssh_client: Option<String>, ssh_tty: Option<String>) -> (r: bool)
    ensures
        r == (ssh_connection is Some || ssh_client is Some || ssh_tty is Some),
{
    ssh_connection.is_some() || ssh_client.is_some() || ssh_tty.is_some()
}

/// A way to put text on the clipboard.
pub enum ClipboardMethod {
    /// Pipe the text into this program, run with these arguments; when
    /// the last flag is set, the tool's own failure is the answer, else a
    /// failure passes the turn to the next way.
    Tool(String, Vec<String>, bool),
    /// Write the OSC 52 sequence to the terminal.
    Osc52,
}

/// The mathematical content of a [`ClipboardMethod`].
pub enum ClipboardMethodModel {
    Tool(Seq<char>, Seq<Seq<char>>, bool),
    Osc52,
}

impl View for ClipboardMethod {
    type V = ClipboardMethodModel;

    open spec fn view(&self) -> ClipboardMethodModel {
        match self {
            ClipboardMethod::Tool(p, a, last) => ClipboardMethodModel::Tool(p@, crate::text::views(a@), *last),
            ClipboardMethod::Osc52 => ClipboardMethodModel::Osc52,
        }
    }
}

/// The ways to try, in order: `pbcopy` alone on macOS, whose failure is
/// the answer; elsewhere `wl-copy` under Wayland, then `xclip` and `xsel`,
/// each passing the turn on when it fails, then OSC 52 over SSH.
pub open spec fn clipboard_methods(macos: bool, wayland: bool, ssh: bool) -> Seq<ClipboardMethodModel> {
    if macos {
        seq![ClipboardMethodModel::Tool("pbcopy"@, Seq::empty(), true)]
    } else {
        (if wayland { seq![ClipboardMethodModel::Tool("wl-copy"@, Seq::empty(), false)] } else { Seq::empty() })
            + seq![
                ClipboardMethodModel::Tool("xclip"@, seq!["-selection"@, "clipboard"@], false),
                ClipboardMethodModel::Tool("xsel"@, seq!["--clipboard"@, "--input"@], false),
            ]
            + (if ssh { seq![ClipboardMethodModel::Osc52] } else { Seq::empty() })
    }
}

fn tool(program: &str, args: Vec<String>, last: bool) -> (r: ClipboardMethod)
    ensures
        r@ == ClipboardMethodModel::Tool(program@, crate::text::views(args@), last),
{
    ClipboardMethod::Tool(crate::text::owned(program), args, last)
}

/// The ways to put text on the clipboard, in the order they are tried
/// (see [`clipboard_methods`]). When every way fails the clipboard is
/// unavailable.
pub fn clipboard_plan(macos: bool, wayland: bool, ssh: bool) -> (r: Vec<ClipboardMethod>)
    ensures
        r@.map_values(|m: ClipboardMethod| m@) == clipboard_methods(macos, wayland, ssh),
{
    let mut r: Vec<ClipboardMethod> = Vec::new();
    if macos {
        let none: Vec<String> = Vec::new();
        assert(crate::text::views(none@) =~= Seq::<Seq<char>>::empty());
        r.push(tool("pbcopy", none, true));
        assert(r@.map_values(|m: ClipboardMethod| m@) =~= clipboard_methods(macos, wayland, ssh));
        return r;
    }
    if wayland {
        let none: Vec<String> = Vec::new();
        assert(crate::text::views(none@) =~= Seq::<Seq<char>>::empty());
        r.push(tool("wl-copy", none, false));
    }
    let xclip_args = vec![crate::text::owned("-selection"), crate::text::owned("clipboard")];
    assert(crate::text::views(xclip_args@) =~= seq!["-selection"@, "clipboard"@]);
    r.push(tool("xclip", xclip_args, false));
    let xsel_args = vec![crate::text::owned("--clipboard"), crate::text::owned("--input")];
    assert(crate::text::views(xsel_args@) =~= seq!["--clipboard"@, "--input"@]);
    r.push(tool("xsel", xsel_args, false));
    if ssh {
        r.push(ClipboardMethod::Osc52);
    }
    assert(r@.map_values(|m: ClipboardMethod| m@) =~= clipboard_methods(macos, wayland, ssh));
    r
}

/// What follows a try of a clipboard tool.
pub enum ClipboardStep {
    /// The copy ends with this result.
    Finish(Result<(), String>),
    /// The next way in the plan is tried.
    TryNext,
}

/// After a clipboard tool ran with `result`: its result is the answer
/// when the tool has the last word or succeeded; otherwise the next way is
/// tried.
pub fn after_tool(last_word: bool, result: Result<(), String>) -> (r: ClipboardStep)
    ensures
        last_word || result is Ok ==> r == ClipboardStep::Finish(result),
        !(last_word || result is Ok) ==> r is TryNext,
{
    if last_word || result.is_ok() {
        ClipboardStep::Finish(result)
    } else {
        ClipboardStep::TryNext
    }
}

} // verus!
