//! Turns text into a JavaScript string literal, so that it can be put into
//! code that the web view evaluates.
use vstd::prelude::*;

verus! {

/// How one character stands inside the literal: the backslash, the double
/// quote and the line terminators are escaped, every other character stands
/// as it is.
pub open spec fn escaped_char(c: char) -> Seq<char> {
    if c == '\\' {
        seq!['\\', '\\']
    } else if c == '"' {
        seq!['\\', '"']
    } else if c == '\n' {
        seq!['\\', 'n']
    } else if c == '\r' {
        seq!['\\', 'r']
    } else if c == '\u{2028}' {
        seq!['\\', 'u', '2', '0', '2', '8']
    } else if c == '\u{2029}' {
        seq!['\\', 'u', '2', '0', '2', '9']
    } else {
        seq![c]
    }
}

/// The characters of a text, each escaped, in order.
pub open spec fn escaped(s: Seq<char>) -> Seq<char>
    decreases s.len(),
{
    if s.len() == 0 {
        Seq::empty()
    } else {
        escaped(s.drop_last()) + escaped_char(s.last())
    }
}

/// The double-quoted JavaScript string literal that denotes a text.
pub open spec fn js_string_literal(s: Seq<char>) -> Seq<char> {
    seq!['"'] + escaped(s) + seq!['"']
}

/// The value of a hexadecimal digit.
pub open spec fn hex_digit_value(c: char) -> Option<int> {
    if '0' <= c && c <= '9' {
        Some(c as int - '0' as int)
    } else if 'a' <= c && c <= 'f' {
        Some(c as int - 'a' as int + 10)
    } else if 'A' <= c && c <= 'F' {
        Some(c as int - 'A' as int + 10)
    } else {
        None
    }
}

/// The code unit that four hexadecimal digits denote.
pub open spec fn hex4_value(d: Seq<char>) -> Option<int> {
    if d.len() == 4 && hex_digit_value(d[0]) is Some && hex_digit_value(d[1]) is Some
        && hex_digit_value(d[2]) is Some && hex_digit_value(d[3]) is Some {
        Some(
            ((hex_digit_value(d[0])->0 * 16 + hex_digit_value(d[1])->0) * 16 + hex_digit_value(
                d[2],
            )->0) * 16 + hex_digit_value(d[3])->0,
        )
    } else {
        None
    }
}

/// Whether a character may stand unescaped inside a double-quoted literal.
pub open spec fn stands_raw(c: char) -> bool {
    c != '\\' && c != '"' && c != '\n' && c != '\r' && c != '\u{2028}' && c != '\u{2029}'
}

/// Puts a character in front of a decoded text, if there is one.
pub open spec fn prepend(c: char, rest: Option<Seq<char>>) -> Option<Seq<char>> {
    match rest {
        Some(r) => Some(seq![c] + r),
        None => None,
    }
}

/// Reads the inside of a double-quoted JavaScript string literal: the escapes
/// `\\`, `\"`, `\n`, `\r` and `\uXXXX` (for a code unit that is a character of
/// its own) stand for one character each, every character that may stand raw
/// stands for itself, and anything else makes the text no such literal.
pub open spec fn unescape(t: Seq<char>) -> Option<Seq<char>>
    decreases t.len(),
{
    if t.len() == 0 {
        Some(Seq::empty())
    } else if t[0] == '\\' {
        if t.len() < 2 {
            None
        } else if t[1] == '\\' {
            prepend('\\', unescape(t.skip(2)))
        } else if t[1] == '"' {
            prepend('"', unescape(t.skip(2)))
        } else if t[1] == 'n' {
            prepend('\n', unescape(t.skip(2)))
        } else if t[1] == 'r' {
            prepend('\r', unescape(t.skip(2)))
        } else if t[1] == 'u' && t.len() >= 6 && hex4_value(t.subrange(2, 6)) is Some {
            let v = hex4_value(t.subrange(2, 6))->0;
            if (0 <= v < 0xD800) || (0xE000 <= v < 0x10000) {
                prepend(v as char, unescape(t.skip(6)))
            } else {
                None
            }
        } else {
            None
        }
    } else if stands_raw(t[0]) {
        prepend(t[0], unescape(t.drop_first()))
    } else {
        None
    }
}

/// The text that a double-quoted JavaScript string literal denotes, if the
/// characters form one.
pub open spec fn js_string_value(lit: Seq<char>) -> Option<Seq<char>> {
    if lit.len() >= 2 && lit[0] == '"' && lit.last() == '"' {
        unescape(lit.subrange(1, lit.len() - 1))
    } else {
        None
    }
}

/// Escaping a text is escaping its first character, then the rest.
proof fn lemma_escaped_front(s: Seq<char>)
    requires
        s.len() > 0,
    ensures
        escaped(s) == escaped_char(s[0]) + escaped(s.drop_first()),
    decreases s.len(),
{
    if s.len() == 1 {
        assert(s.drop_last() =~= Seq::<char>::empty());
        assert(s.drop_first() =~= Seq::<char>::empty());
        assert(escaped(s.drop_first()) =~= Seq::<char>::empty());
        assert(escaped(s) =~= escaped_char(s[0]));
    } else {
        lemma_escaped_front(s.drop_last());
        assert(s.drop_last().drop_first() =~= s.drop_first().drop_last());
        assert(s.drop_first().last() == s.last());
        assert(escaped(s) =~= escaped_char(s[0]) + escaped(s.drop_first()));
    }
}

/// Reading back one escaped character in front of a text gives that character
/// in front of what the text reads as.
proof fn lemma_unescape_char(c: char, rest: Seq<char>)
    ensures
        unescape(escaped_char(c) + rest) == prepend(c, unescape(rest)),
{
    let t = escaped_char(c) + rest;
    if c == '\u{2028}' {
        assert(t.subrange(2, 6) =~= seq!['2', '0', '2', '8']);
        assert(hex4_value(t.subrange(2, 6)) == Some(0x2028int));
        assert((0x2028int as char) == '\u{2028}');
        assert(t.skip(6) =~= rest);
    } else if c == '\u{2029}' {
        assert(t.subrange(2, 6) =~= seq!['2', '0', '2', '9']);
        assert(hex4_value(t.subrange(2, 6)) == Some(0x2029int));
        assert((0x2029int as char) == '\u{2029}');
        assert(t.skip(6) =~= rest);
    } else if !stands_raw(c) {
        assert(t.skip(2) =~= rest);
    } else {
        assert(t.drop_first() =~= rest);
    }
}

/// Reading back escaped text gives the text.
pub proof fn lemma_unescape_escaped(s: Seq<char>)
    ensures
        unescape(escaped(s)) == Some(s),
    decreases s.len(),
{
    if s.len() == 0 {
        assert(escaped(s) =~= Seq::<char>::empty());
    } else {
        lemma_escaped_front(s);
        lemma_unescape_escaped(s.drop_first());
        lemma_unescape_char(s[0], escaped(s.drop_first()));
        assert(seq![s[0]] + s.drop_first() =~= s);
    }
}

/// The literal that `escape` makes denotes the very text it was given: a
/// script that evaluates it gets the text back, whatever quotes, backslashes
/// or line breaks the text holds.
pub proof fn law_escape_round_trip(s: Seq<char>)
    ensures
        js_string_value(js_string_literal(s)) == Some(s),
{
    let lit = js_string_literal(s);
    assert(lit.subrange(1, lit.len() - 1) =~= escaped(s));
    lemma_unescape_escaped(s);
}

/// Whether a character ends a line in JavaScript source.
pub open spec fn is_line_terminator(c: char) -> bool {
    c == '\n' || c == '\r' || c == '\u{2028}' || c == '\u{2029}'
}

/// The escaped text holds no line terminator, so the literal stays on one line
/// of the script that it is put into.
pub proof fn law_escaped_has_no_line_terminator(s: Seq<char>)
    ensures
        forall|i: int| 0 <= i < escaped(s).len() ==> !is_line_terminator(#[trigger] escaped(s)[i]),
    decreases s.len(),
{
    if s.len() > 0 {
        law_escaped_has_no_line_terminator(s.drop_last());
        let head = escaped(s.drop_last());
        let tail = escaped_char(s.last());
        assert forall|i: int| 0 <= i < escaped(s).len() implies !is_line_terminator(
            #[trigger] escaped(s)[i],
        ) by {
            if i >= head.len() {
                assert(escaped(s)[i] == tail[i - head.len()]);
            } else {
                assert(escaped(s)[i] == head[i]);
            }
        }
    }
}

/// Appends a character to a string.
#[verifier::external_body]
fn push_char(s: &mut String, c: char)
    ensures
        final(s)@ == old(s)@.push(c),
{
    s.push(c);
}

/// Appends the escaped form of one character.
fn push_escaped(out: &mut String, c: char)
    ensures
        final(out)@ == old(out)@ + escaped_char(c),
{
    let ghost start = out@;
    if c == '\\' {
        push_char(out, '\\');
        push_char(out, '\\');
    } else if c == '"' {
        push_char(out, '\\');
        push_char(out, '"');
    } else if c == '\n' {
        push_char(out, '\\');
        push_char(out, 'n');
    } else if c == '\r' {
        push_char(out, '\\');
        push_char(out, 'r');
    } else if c == '\u{2028}' || c == '\u{2029}' {
        push_char(out, '\\');
        push_char(out, 'u');
        push_char(out, '2');
        push_char(out, '0');
        push_char(out, '2');
        if c == '\u{2028}' {
            push_char(out, '8');
        } else {
            push_char(out, '9');
        }
    } else {
        push_char(out, c);
    }
    assert(out@ =~= start + escaped_char(c));
}

/// Escapes a string so that it can be embedded in JavaScript code: the result
/// is a double-quoted string literal whose value is `text`.
pub fn escape(text: &str) -> (literal: String)
    ensures
        literal@ == js_string_literal(text@),
{
    broadcast use vstd::string::axiom_spec_iter;

    let mut out = String::new();
    push_char(&mut out, '"');
    let ghost mut done: Seq<char> = Seq::empty();
    for c in it: text.chars()
        invariant
            done == it.history(),
            out@ == seq!['"'] + escaped(done),
    {
        push_escaped(&mut out, c);
        proof {
            assert(done.push(c).drop_last() =~= done);
            done = done.push(c);
        }
    }
    assert(done =~= text@);
    push_char(&mut out, '"');
    out
}

} // verus!
