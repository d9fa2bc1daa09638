//! Completion sentinels: the marker that ends the output of one execution
//! inside the continuous output of an interpreter.
//!
//! A sentinel is made of the number of the execution within its session and a
//! nonce that the host draws at random for each call. Its token is the text
//! `__MSB_END_`, the number as 16 hexadecimal digits, `-`, the nonce as 16
//! hexadecimal digits, and `__`. Two sentinels with the same token are the
//! same sentinel, so the marker of one execution never ends another.
//!
//! The code of a call is written to the interpreter followed by a statement
//! that prints the token. The first line of standard output that ends with
//! the token ends the execution.

use crate::portal::language::Language;
use crate::portal::output::{OutputLine, OutputLineView, Stream};
use crate::text::{join, text_eq};
use vstd::prelude::*;
use vstd::string::*;

verus! {

/// The hexadecimal digit of a value below 16.
pub open spec fn hex_char(d: nat) -> char {
    if d == 0 {
        '0'
    } else if d == 1 {
        '1'
    } else if d == 2 {
        '2'
    } else if d == 3 {
        '3'
    } else if d == 4 {
        '4'
    } else if d == 5 {
        '5'
    } else if d == 6 {
        '6'
    } else if d == 7 {
        '7'
    } else if d == 8 {
        '8'
    } else if d == 9 {
        '9'
    } else if d == 10 {
        'a'
    } else if d == 11 {
        'b'
    } else if d == 12 {
        'c'
    } else if d == 13 {
        'd'
    } else if d == 14 {
        'e'
    } else {
        'f'
    }
}

/// The last `width` hexadecimal digits of `x`, most significant first.
pub open spec fn hex_text(x: nat, width: nat) -> Seq<char>
    decreases width,
{
    if width == 0 {
        Seq::empty()
    } else {
        hex_text(x / 16, (width - 1) as nat).push(hex_char(x % 16))
    }
}

/// What is left of `x` above its last `width` hexadecimal digits.
pub open spec fn high_part(x: nat, width: nat) -> nat
    decreases width,
{
    if width == 0 {
        x
    } else {
        high_part(x / 16, (width - 1) as nat)
    }
}

/// A rendering of `width` digits has `width` characters.
pub proof fn lemma_hex_text_len(x: nat, width: nat)
    ensures
        hex_text(x, width).len() == width,
    decreases width,
{
    if width > 0 {
        lemma_hex_text_len(x / 16, (width - 1) as nat);
    }
}

/// Two numbers with the same last `width` digits and the same part above
/// them are the same number.
pub proof fn lemma_hex_text_injective(x: nat, y: nat, width: nat)
    requires
        hex_text(x, width) == hex_text(y, width),
        high_part(x, width) == high_part(y, width),
    ensures
        x == y,
    decreases width,
{
    if width > 0 {
        let w = (width - 1) as nat;
        let a = hex_text(x / 16, w);
        let b = hex_text(y / 16, w);
        lemma_hex_text_len(x / 16, w);
        lemma_hex_text_len(y / 16, w);
        assert(a.push(hex_char(x % 16)).drop_last() =~= a);
        assert(b.push(hex_char(y % 16)).drop_last() =~= b);
        assert(a.push(hex_char(x % 16)).last() == hex_char(x % 16));
        assert(b.push(hex_char(y % 16)).last() == hex_char(y % 16));
        assert(a == b);
        assert(hex_char(x % 16) == hex_char(y % 16));
        lemma_hex_text_injective(x / 16, y / 16, w);
        assert(x % 16 == y % 16);
    }
}

/// Nothing of a 64-bit number is left above 16 hexadecimal digits.
pub proof fn lemma_high_part_of_u64(x: u64)
    ensures
        high_part(x as nat, 16) == 0,
{
    reveal_with_fuel(high_part, 17);
}

/// The text of one hexadecimal digit.
fn digit_str(d: u8) -> (s: &'static str)
    requires
        d < 16,
    ensures
        s@ == seq![hex_char(d as nat)],
{
    proof {
        reveal_strlit("0");
        reveal_strlit("1");
        reveal_strlit("2");
        reveal_strlit("3");
        reveal_strlit("4");
        reveal_strlit("5");
        reveal_strlit("6");
        reveal_strlit("7");
        reveal_strlit("8");
        reveal_strlit("9");
        reveal_strlit("a");
        reveal_strlit("b");
        reveal_strlit("c");
        reveal_strlit("d");
        reveal_strlit("e");
        reveal_strlit("f");
    }
    let s = if d == 0 {
        "0"
    } else if d == 1 {
        "1"
    } else if d == 2 {
        "2"
    } else if d == 3 {
        "3"
    } else if d == 4 {
        "4"
    } else if d == 5 {
        "5"
    } else if d == 6 {
        "6"
    } else if d == 7 {
        "7"
    } else if d == 8 {
        "8"
    } else if d == 9 {
        "9"
    } else if d == 10 {
        "a"
    } else if d == 11 {
        "b"
    } else if d == 12 {
        "c"
    } else if d == 13 {
        "d"
    } else if d == 14 {
        "e"
    } else {
        "f"
    };
    assert(s@ =~= seq![hex_char(d as nat)]);
    s
}

/// Returns the last `width` hexadecimal digits of `x`, most significant first.
pub fn hex(x: u64, width: u8) -> (s: String)
    ensures
        s@ == hex_text(x as nat, width as nat),
    decreases width,
{
    if width == 0 {
        String::new()
    } else {
        let head = hex(x / 16, width - 1);
        let digit = digit_str((x % 16) as u8);
        let s = head.concat(digit);
        assert(s@ =~= hex_text(x as nat, width as nat));
        s
    }
}

/// What every token begins with.
pub const TOKEN_PREFIX: &'static str = "__MSB_END_";

/// What stands between the two numbers of a token.
pub const TOKEN_SEPARATOR: &'static str = "-";

/// What every token ends with.
pub const TOKEN_SUFFIX: &'static str = "__";

/// The token of the sentinel of execution `execution` with nonce `nonce`.
pub open spec fn token_text(execution: u64, nonce: u64) -> Seq<char> {
    TOKEN_PREFIX@ + hex_text(execution as nat, 16) + TOKEN_SEPARATOR@ + hex_text(nonce as nat, 16)
        + TOKEN_SUFFIX@
}

/// The marker of one execution.
#[derive(Debug, Clone, Copy, PartialEq, Eq, Structural)]
pub struct Sentinel {
    /// The number of the execution within its session.
    pub execution: u64,
    /// The nonce drawn for the call.
    pub nonce: u64,
}

impl Sentinel {
    /// The token of the sentinel.
    pub open spec fn text(self) -> Seq<char> {
        token_text(self.execution, self.nonce)
    }

    /// Makes the sentinel of execution `execution` with the nonce `nonce`.
    pub fn new(execution: u64, nonce: u64) -> (s: Sentinel)
        ensures
            s == (Sentinel { execution, nonce }),
    {
        Sentinel { execution, nonce }
    }

    /// Returns the token of the sentinel.
    pub fn token(&self) -> (t: String)
        ensures
            t@ == self.text(),
    {
        let number = hex(self.execution, 16);
        let nonce = hex(self.nonce, 16);
        join(TOKEN_PREFIX, number.as_str()).concat(TOKEN_SEPARATOR).concat(nonce.as_str()).concat(
            TOKEN_SUFFIX,
        )
    }

    /// Two sentinels with the same token are the same sentinel.
    pub proof fn lemma_token_injective(a: Sentinel, b: Sentinel)
        requires
            a.text() == b.text(),
        ensures
            a == b,
    {
        let p = TOKEN_PREFIX@;
        let m = TOKEN_SEPARATOR@;
        let ae = hex_text(a.execution as nat, 16);
        let be = hex_text(b.execution as nat, 16);
        let an = hex_text(a.nonce as nat, 16);
        let bn = hex_text(b.nonce as nat, 16);
        lemma_hex_text_len(a.execution as nat, 16);
        lemma_hex_text_len(b.execution as nat, 16);
        lemma_hex_text_len(a.nonce as nat, 16);
        lemma_hex_text_len(b.nonce as nat, 16);
        let ta = a.text();
        let tb = b.text();
        let i0 = p.len() as int;
        let i1 = i0 + 16;
        let i2 = i1 + m.len();
        let i3 = i2 + 16;
        assert(ta.subrange(i0, i1) =~= ae);
        assert(tb.subrange(i0, i1) =~= be);
        assert(ta.subrange(i2, i3) =~= an);
        assert(tb.subrange(i2, i3) =~= bn);
        lemma_high_part_of_u64(a.execution);
        lemma_high_part_of_u64(b.execution);
        lemma_high_part_of_u64(a.nonce);
        lemma_high_part_of_u64(b.nonce);
        lemma_hex_text_injective(a.execution as nat, b.execution as nat, 16);
        lemma_hex_text_injective(a.nonce as nat, b.nonce as nat, 16);
    }
}

/// The marker of one execution never ends another: sentinels of different
/// executions have different tokens, whatever their nonces.
pub proof fn lemma_stale_marker_never_matches(
    execution: u64,
    nonce: u64,
    later: u64,
    later_nonce: u64,
)
    requires
        execution != later,
    ensures
        token_text(execution, nonce) != token_text(later, later_nonce),
{
    if token_text(execution, nonce) == token_text(later, later_nonce) {
        Sentinel::lemma_token_injective(
            Sentinel { execution, nonce },
            Sentinel { execution: later, nonce: later_nonce },
        );
    }
}

/// Whether a line ends the execution that waits for `token`: it is a line of
/// standard output that ends with the token. Code that writes text without a
/// line break leaves that text before the token, on the same line.
pub open spec fn is_marker(line: OutputLineView, token: Seq<char>) -> bool {
    line.stream == Stream::Stdout && token.is_suffix_of(line.text)
}

/// What stands before the token on a line that ends with it.
pub open spec fn before_marker(line: OutputLineView, token: Seq<char>) -> Seq<char> {
    line.text.subrange(0, line.text.len() - token.len())
}

/// Looks for the marker `token` at the end of a line. Returns what stands
/// before the token if the line is a line of standard output that ends with
/// it, and nothing if the line is no marker.
pub fn cut_marker(line: &OutputLine, token: &str) -> (r: Option<String>)
    ensures
        match r {
            Some(before) => is_marker(line@, token@) && before@ == before_marker(line@, token@),
            None => !is_marker(line@, token@),
        },
{
    match line.stream {
        Stream::Stderr => None,
        Stream::Stdout => {
            let text = line.text.as_str();
            let n = text.unicode_len();
            let t = token.unicode_len();
            if t > n {
                return None;
            }
            if text_eq(text.substring_char(n - t, n), token) {
                Some(text.substring_char(0, n - t).to_owned())
            } else {
                None
            }
        },
    }
}

/// The statement that makes an interpreter print `token` on a line of its
/// own on standard output.
pub open spec fn epilogue_text(language: Language, token: Seq<char>) -> Seq<char> {
    match language {
        Language::Python => "print(\""@ + token + "\", flush=True)"@,
        Language::Node => "console.log(\""@ + token + "\")"@,
    }
}

/// What is written to the interpreter for one execution: the code, an empty
/// line that closes any open block, the statement that prints the token, and
/// a line break.
pub open spec fn payload_text(code: Seq<char>, language: Language, token: Seq<char>) -> Seq<char> {
    code + "\n\n"@ + epilogue_text(language, token) + "\n"@
}

/// Returns the statement that makes an interpreter print `token`.
pub fn epilogue(language: Language, token: &str) -> (s: String)
    ensures
        s@ == epilogue_text(language, token@),
{
    match language {
        Language::Python => join("print(\"", token).concat("\", flush=True)"),
        Language::Node => join("console.log(\"", token).concat("\")"),
    }
}

/// Returns what is written to the interpreter for one execution of `code`.
pub fn payload(code: &str, language: Language, token: &str) -> (s: String)
    ensures
        s@ == payload_text(code@, language, token@),
{
    let tail = epilogue(language, token);
    join(code, "\n\n").concat(tail.as_str()).concat("\n")
}

/// What is written to a fresh interpreter to learn that it is ready: the
/// statement that prints the token, and nothing before it.
pub fn probe(language: Language, token: &str) -> (s: String)
    ensures
        s@ == epilogue_text(language, token@) + "\n"@,
{
    epilogue(language, token).concat("\n")
}

} // verus!
