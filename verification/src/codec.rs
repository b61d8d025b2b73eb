use vstd::prelude::*;
use vstd::string::StringExecFns;

verus! {

/// The text that standard base64 (with padding) encodes `bytes` to.
pub uninterp spec fn b64_encode_of(bytes: Seq<u8>) -> Seq<char>;

/// What standard base64 (with padding) decoding returns for `text`: the
/// decoded bytes, or nothing when `text` is not valid base64.
pub uninterp spec fn b64_decode_of(text: Seq<char>) -> Option<Seq<u8>>;

/// Relies on base64's STANDARD engine `encode`: the result is a function of
/// the input bytes alone.
#[verifier::external_body]
pub(crate) fn b64_encode(bytes: &Vec<u8>) -> (r: String)
    ensures
        r@ == b64_encode_of(bytes@),
{
    base64::Engine::encode(&base64::engine::general_purpose::STANDARD, bytes)
}

/// Relies on base64's STANDARD engine `decode`: the result is a function of
/// the input text alone, and invalid base64 is reported, never panicked on.
#[verifier::external_body]
pub(crate) fn b64_decode(text: &str) -> (r: Option<Vec<u8>>)
    ensures
        match r {
            Some(bytes) => b64_decode_of(text@) == Some(bytes@),
            None => b64_decode_of(text@) is None,
        },
{
    base64::Engine::decode(&base64::engine::general_purpose::STANDARD, text).ok()
}

/// How one character of plain text is written as HTML text: the three markup
/// characters become entities, every other character stands as itself.
pub open spec fn escaped_char(c: char) -> Seq<char> {
    if c == '&' {
        seq!['&', 'a', 'm', 'p', ';']
    } else if c == '<' {
        seq!['&', 'l', 't', ';']
    } else if c == '>' {
        seq!['&', 'g', 't', ';']
    } else {
        seq![c]
    }
}

/// Plain text written as HTML text: each character escaped, in order.
pub open spec fn escaped_text(s: Seq<char>) -> Seq<char>
    decreases s.len(),
{
    if s.len() == 0 {
        Seq::<char>::empty()
    } else {
        escaped_char(s[0]) + escaped_text(s.skip(1))
    }
}

/// Relies on html_escape::encode_text, which escapes exactly '&', '<' and
/// '>' (to "&amp;", "&lt;", "&gt;") and keeps every other character.
#[verifier::external_body]
pub(crate) fn escape_html_text(s: &str) -> (r: String)
    ensures
        r@ == escaped_text(s@),
{
    html_escape::encode_text(s).into_owned()
}

/// The digit character for `d` (meaningful for `d < 10`).
pub open spec fn digit_char(d: nat) -> char {
    if d == 0 {
        '0'
    } else if d == 1 {
        '1'
    } else if d == 2 {
        '2'
    } else if d == 3 {
        '3'
    } else if d == 4 {
        '4'
    } else if d == 5 {
        '5'
    } else if d == 6 {
        '6'
    } else if d == 7 {
        '7'
    } else if d == 8 {
        '8'
    } else {
        '9'
    }
}

/// `n` written in decimal, most significant digit first, no sign, no
/// leading zeros (a single zero for 0).
pub open spec fn decimal_of(n: nat) -> Seq<char>
    decreases n,
{
    if n < 10 {
        seq![digit_char(n)]
    } else {
        decimal_of(n / 10) + seq![digit_char(n % 10)]
    }
}

fn digit_str(d: u32) -> (s: &'static str)
    requires
        d < 10,
    ensures
        s@ == seq![digit_char(d as nat)],
{
    let s: &'static str = match d {
        0 => "0",
        1 => "1",
        2 => "2",
        3 => "3",
        4 => "4",
        5 => "5",
        6 => "6",
        7 => "7",
        8 => "8",
        _ => "9",
    };
    proof {
        reveal_strlit("0");
        reveal_strlit("1");
        reveal_strlit("2");
        reveal_strlit("3");
        reveal_strlit("4");
        reveal_strlit("5");
        reveal_strlit("6");
        reveal_strlit("7");
        reveal_strlit("8");
        reveal_strlit("9");
        assert(s@ =~= seq![digit_char(d as nat)]);
    }
    s
}

/// `n` in decimal, as text.
pub fn decimal_string(n: u32) -> (s: String)
    ensures
        s@ == decimal_of(n as nat),
    decreases n,
{
    if n < 10 {
        digit_str(n).to_owned()
    } else {
        proof {
            assert(n / 10 < n) by (nonlinear_arith)
                requires
                    n >= 10,
            ;
        }
        let mut s = decimal_string(n / 10);
        s.append(digit_str(n % 10));
        s
    }
}

/// `parts` joined with commas, from `i` on.
pub open spec fn comma_joined_from(parts: Seq<Seq<char>>, i: int) -> Seq<char>
    decreases parts.len() - i,
{
    if i < 0 || i >= parts.len() {
        Seq::<char>::empty()
    } else if i == parts.len() - 1 {
        parts[i]
    } else {
        parts[i] + ","@ + comma_joined_from(parts, i + 1)
    }
}

/// `parts` joined with commas.
pub open spec fn comma_joined(parts: Seq<Seq<char>>) -> Seq<char> {
    comma_joined_from(parts, 0)
}

fn join_from(parts: &Vec<String>, i: usize) -> (s: String)
    requires
        i <= parts@.len(),
    ensures
        s@ == comma_joined_from(parts.deep_view(), i as int),
    decreases parts@.len() - i,
{
    if i >= parts.len() {
        String::new()
    } else {
        let mut s = parts[i].clone();
        if i + 1 < parts.len() {
            s.append(",");
            let rest = join_from(parts, i + 1);
            s.append(rest.as_str());
        }
        s
    }
}

/// `parts` joined with commas, as one string.
pub fn join_with_commas(parts: &Vec<String>) -> (s: String)
    ensures
        s@ == comma_joined(parts.deep_view()),
{
    join_from(parts, 0)
}

} // verus!
