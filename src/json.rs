use vstd::prelude::*;

verus! {

/// The lower-case hexadecimal digit for a value below sixteen.
pub open spec fn hex_text(d: int) -> Seq<char> {
    if d == 0 { "0"@ } else if d == 1 { "1"@ } else if d == 2 { "2"@ } else if d == 3 { "3"@ }
    else if d == 4 { "4"@ } else if d == 5 { "5"@ } else if d == 6 { "6"@ } else if d == 7 { "7"@ }
    else if d == 8 { "8"@ } else if d == 9 { "9"@ } else if d == 10 { "a"@ } else if d == 11 { "b"@ }
    else if d == 12 { "c"@ } else if d == 13 { "d"@ } else if d == 14 { "e"@ } else { "f"@ }
}

/// How one character stands inside a JSON string literal.
pub open spec fn escaped_char(c: char) -> Seq<char> {
    if c == '"' {
        "\\\""@
    } else if c == '\\' {
        "\\\\"@
    } else if (c as u32) < 16 {
        "\\u000"@ + hex_text(c as int)
    } else if (c as u32) < 32 {
        "\\u001"@ + hex_text((c as int) - 16)
    } else {
        seq![c]
    }
}

/// The characters of a text, each escaped for a JSON string literal.
pub open spec fn escaped(s: Seq<char>) -> Seq<char>
    decreases s.len(),
{
    if s.len() == 0 {
        Seq::empty()
    } else {
        escaped(s.drop_last()) + escaped_char(s.last())
    }
}

/// A text as a JSON string literal, quotes included.
pub open spec fn json_string(s: Seq<char>) -> Seq<char> {
    "\""@ + escaped(s) + "\""@
}

/// The decimal digit for a value below ten.
pub open spec fn digit_text(d: nat) -> Seq<char> {
    hex_text(d as int)
}

/// A number in decimal, without leading zeros.
pub open spec fn decimal(n: nat) -> Seq<char>
    decreases n,
{
    if n < 10 {
        digit_text(n)
    } else {
        decimal(n / 10) + digit_text(n % 10)
    }
}

/// An optional number as JSON: its decimal form, or `null`.
pub open spec fn json_number_or_null(n: Option<u64>) -> Seq<char> {
    match n {
        Some(v) => decimal(v as nat),
        None => "null"@,
    }
}

fn hex_str(d: u32) -> (r: &'static str)
    requires
        d < 16,
    ensures
        r@ == hex_text(d as int),
{
    if d == 0 { "0" } else if d == 1 { "1" } else if d == 2 { "2" } else if d == 3 { "3" }
    else if d == 4 { "4" } else if d == 5 { "5" } else if d == 6 { "6" } else if d == 7 { "7" }
    else if d == 8 { "8" } else if d == 9 { "9" } else if d == 10 { "a" } else if d == 11 { "b" }
    else if d == 12 { "c" } else if d == 13 { "d" } else if d == 14 { "e" } else { "f" }
}

/// Appends `s` to `out` as a JSON string literal.
pub fn push_json_string(out: &mut String, s: &str)
    ensures
        final(out)@ == old(out)@ + json_string(s@),
{
    out.append("\"");
    let n = s.unicode_len();
    let mut i: usize = 0;
    while i < n
        invariant
            n == s@.len(),
            i <= n,
            out@ == old(out)@ + "\""@ + escaped(s@.subrange(0, i as int)),
        decreases n - i,
    {
        let c = s.get_char(i);
        let ghost before = out@;
        if c == '"' {
            out.append("\\\"");
        } else if c == '\\' {
            out.append("\\\\");
        } else if (c as u32) < 16 {
            out.append("\\u000");
            out.append(hex_str(c as u32));
        } else if (c as u32) < 32 {
            out.append("\\u001");
            out.append(hex_str((c as u32) - 16));
        } else {
            out.append(s.substring_char(i, i + 1));
        }
        proof {
            let p = s@.subrange(0, i + 1);
            assert(p.drop_last() =~= s@.subrange(0, i as int));
            assert(p.last() == c);
            assert(s@.subrange(i as int, i + 1) =~= seq![c]);
            assert(out@ =~= before + escaped_char(c));
        }
        i = i + 1;
    }
    assert(s@.subrange(0, n as int) =~= s@);
    out.append("\"");
}

fn digit_str(d: u64) -> (r: &'static str)
    requires
        d < 10,
    ensures
        r@ == digit_text(d as nat),
{
    hex_str(d as u32)
}

/// Appends `n` to `out` in decimal.
pub fn push_decimal(out: &mut String, n: u64)
    ensures
        final(out)@ == old(out)@ + decimal(n as nat),
    decreases n,
{
    if n < 10 {
        out.append(digit_str(n));
    } else {
        push_decimal(out, n / 10);
        out.append(digit_str(n % 10));
        assert(final(out)@ =~= old(out)@ + decimal(n as nat)) by {
            assert(decimal(n as nat) == decimal((n / 10) as nat) + digit_text((n % 10) as nat));
        }
    }
}

/// Appends an optional number to `out` as JSON: its decimal form, or `null`.
pub fn push_number_or_null(out: &mut String, n: Option<u64>)
    ensures
        final(out)@ == old(out)@ + json_number_or_null(n),
{
    match n {
        Some(v) => push_decimal(out, v),
        None => out.append("null"),
    }
}

/// The value of a lower-case hexadecimal digit, or -1 for any other character.
pub open spec fn hex_value(c: char) -> int {
    if c == '0' { 0 } else if c == '1' { 1 } else if c == '2' { 2 } else if c == '3' { 3 }
    else if c == '4' { 4 } else if c == '5' { 5 } else if c == '6' { 6 } else if c == '7' { 7 }
    else if c == '8' { 8 } else if c == '9' { 9 } else if c == 'a' { 10 } else if c == 'b' { 11 }
    else if c == 'c' { 12 } else if c == 'd' { 13 } else if c == 'e' { 14 } else if c == 'f' { 15 }
    else { -1 }
}

/// Puts `s` in front of the text that a read produced.
pub open spec fn prefixed(s: Seq<char>, r: Option<(Seq<char>, Seq<char>)>) -> Option<(Seq<char>, Seq<char>)> {
    match r {
        Some((a, b)) => Some((s + a, b)),
        None => None,
    }
}

/// Reads the body of a JSON string literal, from just after its opening quote:
/// the text it stands for and what follows its closing quote. It reads the
/// escapes `\"`, `\\` and `\u00XX` below 32; anything else fails.
pub open spec fn read_string_body(t: Seq<char>) -> Option<(Seq<char>, Seq<char>)>
    decreases t.len(),
{
    if t.len() == 0 {
        None
    } else if t[0] == '"' {
        Some((Seq::empty(), t.drop_first()))
    } else if t[0] == '\\' {
        if t.len() >= 2 && (t[1] == '"' || t[1] == '\\') {
            prefixed(seq![t[1]], read_string_body(t.subrange(2, t.len() as int)))
        } else if t.len() >= 6 && t[1] == 'u' && t[2] == '0' && t[3] == '0' && 0 <= hex_value(t[4]) <= 1
            && 0 <= hex_value(t[5]) {
            let code = (16 * hex_value(t[4]) + hex_value(t[5])) as u32;
            prefixed(seq![code as char], read_string_body(t.subrange(6, t.len() as int)))
        } else {
            None
        }
    } else {
        prefixed(seq![t[0]], read_string_body(t.drop_first()))
    }
}

/// Reads a JSON string literal off the front of a text: the text it stands for
/// and what follows it.
pub open spec fn read_string(t: Seq<char>) -> Option<(Seq<char>, Seq<char>)> {
    if t.len() > 0 && t[0] == '"' {
        read_string_body(t.drop_first())
    } else {
        None
    }
}

proof fn lemma_hex_text(d: int)
    requires
        0 <= d < 16,
    ensures
        hex_text(d).len() == 1,
        hex_value(hex_text(d)[0]) == d,
{
    reveal_strlit("0"); reveal_strlit("1"); reveal_strlit("2"); reveal_strlit("3");
    reveal_strlit("4"); reveal_strlit("5"); reveal_strlit("6"); reveal_strlit("7");
    reveal_strlit("8"); reveal_strlit("9"); reveal_strlit("a"); reveal_strlit("b");
    reveal_strlit("c"); reveal_strlit("d"); reveal_strlit("e"); reveal_strlit("f");
}

proof fn lemma_read_escaped_char(c: char, tail: Seq<char>)
    ensures
        read_string_body(escaped_char(c) + tail) == prefixed(seq![c], read_string_body(tail)),
{
    let t = escaped_char(c) + tail;
    if c == '"' {
        reveal_strlit("\\\"");
        assert(t.subrange(2, t.len() as int) =~= tail);
    } else if c == '\\' {
        reveal_strlit("\\\\");
        assert(t.subrange(2, t.len() as int) =~= tail);
    } else if (c as u32) < 16 {
        reveal_strlit("\\u000");
        lemma_hex_text(c as int);
        assert(t[4] == '0');
        assert(t[5] == hex_text(c as int)[0]);
        assert(t.subrange(6, t.len() as int) =~= tail);
        assert(((c as u32) as char) == c);
    } else if (c as u32) < 32 {
        reveal_strlit("\\u001");
        lemma_hex_text((c as int) - 16);
        assert(t[4] == '1');
        assert(t[5] == hex_text((c as int) - 16)[0]);
        assert(t.subrange(6, t.len() as int) =~= tail);
        assert(((c as u32) as char) == c);
    } else {
        assert(t.drop_first() =~= tail);
    }
}

/// Reading what `escaped` wrote gives back the text it escaped.
pub proof fn lemma_read_escaped(s: Seq<char>, tail: Seq<char>)
    ensures
        read_string_body(escaped(s) + tail) == prefixed(s, read_string_body(tail)),
    decreases s.len(),
{
    if s.len() == 0 {
        assert(escaped(s) + tail =~= tail);
        match read_string_body(tail) {
            Some((a, b)) => assert(s + a =~= a),
            None => {},
        }
    } else {
        let front = s.drop_last();
        let c = s.last();
        assert(escaped(s) + tail =~= escaped(front) + (escaped_char(c) + tail));
        lemma_read_escaped(front, escaped_char(c) + tail);
        lemma_read_escaped_char(c, tail);
        match read_string_body(tail) {
            Some((a, b)) => assert(front + (seq![c] + a) =~= s + a),
            None => {},
        }
    }
}

/// A JSON string literal that this library writes reads back as the text it
/// was written from, whatever follows it.
pub proof fn lemma_json_string_round_trip(s: Seq<char>, rest: Seq<char>)
    ensures
        read_string(json_string(s) + rest) == Some((s, rest)),
{
    reveal_strlit("\"");
    let t = json_string(s) + rest;
    assert(t.drop_first() =~= escaped(s) + ("\""@ + rest));
    lemma_read_escaped(s, "\""@ + rest);
    assert(("\""@ + rest).drop_first() =~= rest);
    assert(s + Seq::<char>::empty() =~= s);
}

} // verus!
