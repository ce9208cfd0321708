use vstd::prelude::*;
use vstd::string::*;

use crate::text::opt_view;

verus! {

// ---------------------------------------------------------------------------
// Serializing JSON strings
// ---------------------------------------------------------------------------

/// One hexadecimal digit as a character.
pub open spec fn hex_digit(d: nat) -> char
    recommends
        d < 16,
{
    "0123456789abcdef"@[d as int]
}

/// Whether a character appears unchanged inside a JSON string literal.
pub open spec fn is_plain_json_char(c: char) -> bool {
    c != '"' && c != '\\' && (c as u32) >= 0x20
}

/// How one character appears inside a JSON string literal: the two-character
/// escapes for the quote, the backslash and the common control characters, a
/// `\u00..` escape for the other control characters, and the character
/// itself otherwise.
pub open spec fn json_escaped_char(c: char) -> Seq<char> {
    if c == '"' {
        seq!['\\', '"']
    } else if c == '\\' {
        seq!['\\', '\\']
    } else if c == '\u{8}' {
        seq!['\\', 'b']
    } else if c == '\u{c}' {
        seq!['\\', 'f']
    } else if c == '\n' {
        seq!['\\', 'n']
    } else if c == '\r' {
        seq!['\\', 'r']
    } else if c == '\t' {
        seq!['\\', 't']
    } else if (c as u32) < 0x20 {
        seq!['\\', 'u', '0', '0', hex_digit(((c as u32) / 16) as nat), hex_digit(
            ((c as u32) % 16) as nat,
        )]
    } else {
        seq![c]
    }
}

/// The body of a JSON string literal holding the given characters.
pub open spec fn json_escaped(s: Seq<char>) -> Seq<char>
    decreases s.len(),
{
    if s.len() == 0 {
        Seq::empty()
    } else {
        json_escaped_char(s[0]) + json_escaped(s.drop_first())
    }
}

/// Escaping a concatenation escapes each part.
pub proof fn lemma_json_escaped_concat(a: Seq<char>, b: Seq<char>)
    ensures
        json_escaped(a + b) == json_escaped(a) + json_escaped(b),
    decreases a.len(),
{
    if a.len() == 0 {
        assert(a + b =~= b);
        assert(Seq::<char>::empty() + json_escaped(b) =~= json_escaped(b));
    } else {
        lemma_json_escaped_concat(a.drop_first(), b);
        assert((a + b).drop_first() =~= a.drop_first() + b);
        assert(json_escaped_char(a[0]) + (json_escaped(a.drop_first()) + json_escaped(b)) =~= (
        json_escaped_char(a[0]) + json_escaped(a.drop_first())) + json_escaped(b));
    }
}

/// A single character escapes to its escape sequence.
pub proof fn lemma_json_escaped_singleton(c: char)
    ensures
        json_escaped(seq![c]) == json_escaped_char(c),
{
    assert(seq![c].len() == 1);
    assert(seq![c][0] == c);
    assert(seq![c].drop_first() =~= Seq::<char>::empty());
    assert(json_escaped(seq![c]) == json_escaped_char(c) + json_escaped(Seq::<char>::empty()));
    assert(json_escaped_char(c) + Seq::<char>::empty() =~= json_escaped_char(c));
}

/// A run of plain characters escapes to itself.
pub proof fn lemma_json_escaped_plain(s: Seq<char>)
    requires
        forall|k: int| 0 <= k < s.len() ==> is_plain_json_char(s[k]),
    ensures
        json_escaped(s) == s,
    decreases s.len(),
{
    if s.len() == 0 {
    } else {
        lemma_json_escaped_plain(s.drop_first());
        assert(json_escaped_char(s[0]) =~= seq![s[0]]);
        assert(seq![s[0]] + s.drop_first() =~= s);
    }
}

fn is_plain_char(c: char) -> (r: bool)
    ensures
        r == is_plain_json_char(c),
{
    c != '"' && c != '\\' && (c as u32) >= 0x20
}

/// Append the escape sequence of a character that does not appear
/// unchanged.
fn append_escape_of(c: char, out: &mut String)
    requires
        !is_plain_json_char(c),
    ensures
        final(out)@ == old(out)@ + json_escaped_char(c),
{
    if c == '"' {
        out.append("\\\"");
        proof {
            reveal_strlit("\\\"");
            assert(old(out)@ + "\\\""@ =~= old(out)@ + json_escaped_char(c));
        }
    } else if c == '\\' {
        out.append("\\\\");
        proof {
            reveal_strlit("\\\\");
            assert(old(out)@ + "\\\\"@ =~= old(out)@ + json_escaped_char(c));
        }
    } else if c == '\u{8}' {
        out.append("\\b");
        proof {
            reveal_strlit("\\b");
            assert(old(out)@ + "\\b"@ =~= old(out)@ + json_escaped_char(c));
        }
    } else if c == '\u{c}' {
        out.append("\\f");
        proof {
            reveal_strlit("\\f");
            assert(old(out)@ + "\\f"@ =~= old(out)@ + json_escaped_char(c));
        }
    } else if c == '\n' {
        out.append("\\n");
        proof {
            reveal_strlit("\\n");
            assert(old(out)@ + "\\n"@ =~= old(out)@ + json_escaped_char(c));
        }
    } else if c == '\r' {
        out.append("\\r");
        proof {
            reveal_strlit("\\r");
            assert(old(out)@ + "\\r"@ =~= old(out)@ + json_escaped_char(c));
        }
    } else if c == '\t' {
        out.append("\\t");
        proof {
            reveal_strlit("\\t");
            assert(old(out)@ + "\\t"@ =~= old(out)@ + json_escaped_char(c));
        }
    } else {
        proof {
            reveal_strlit("\\u00");
            reveal_strlit("0123456789abcdef");
        }
        let ghost mid = old(out)@;
        out.append("\\u00");
        let d = c as u32;
        let digits = "0123456789abcdef";
        let hi = (d / 16) as usize;
        let lo = (d % 16) as usize;
        let hs = digits.substring_char(hi, hi + 1);
        out.append(hs);
        let ls = digits.substring_char(lo, lo + 1);
        out.append(ls);
        proof {
            assert(digits@.subrange(hi as int, hi as int + 1) =~= seq![hex_digit(hi as nat)]);
            assert(digits@.subrange(lo as int, lo as int + 1) =~= seq![hex_digit(lo as nat)]);
            assert(mid + "\\u00"@ + seq![hex_digit(hi as nat)] + seq![hex_digit(lo as nat)] =~= mid
                + json_escaped_char(c));
        }
    }
}

/// Escape characters for inclusion in a JSON string literal.
pub fn json_escape(s: &str) -> (r: String)
    ensures
        r@ == json_escaped(s@),
{
    let len = s.unicode_len();
    let mut out = String::new();
    let mut start: usize = 0;
    let mut i: usize = 0;
    while i < len
        invariant
            start <= i <= len,
            len == s@.len(),
            out@ == json_escaped(s@.subrange(0, start as int)),
            forall|k: int| start <= k < i ==> is_plain_json_char(s@[k]),
        decreases len - i,
    {
        let c = s.get_char(i);
        if is_plain_char(c) {
            i += 1;
        } else {
            let run = s.substring_char(start, i);
            out.append(run);
            append_escape_of(c, &mut out);
            proof {
                lemma_json_escaped_plain(s@.subrange(start as int, i as int));
                lemma_json_escaped_concat(
                    s@.subrange(0, start as int),
                    s@.subrange(start as int, i as int),
                );
                assert(s@.subrange(0, start as int) + s@.subrange(start as int, i as int) =~= s@
                    .subrange(0, i as int));
                lemma_json_escaped_singleton(c);
                lemma_json_escaped_concat(s@.subrange(0, i as int), seq![c]);
                assert(s@.subrange(0, i as int) + seq![c] =~= s@.subrange(0, i as int + 1));
            }
            i += 1;
            start = i;
        }
    }
    let tail = s.substring_char(start, len);
    out.append(tail);
    proof {
        lemma_json_escaped_plain(s@.subrange(start as int, len as int));
        lemma_json_escaped_concat(
            s@.subrange(0, start as int),
            s@.subrange(start as int, len as int),
        );
        assert(s@.subrange(0, start as int) + s@.subrange(start as int, len as int) =~= s@.subrange(
            0,
            len as int,
        ));
        assert(s@.subrange(0, len as int) =~= s@);
    }
    out
}

/// A JSON string literal holding the given characters.
pub open spec fn json_quoted(s: Seq<char>) -> Seq<char> {
    seq!['"'] + json_escaped(s) + seq!['"']
}

/// A JSON string literal holding the given characters.
pub fn json_quote(s: &str) -> (r: String)
    ensures
        r@ == json_quoted(s@),
{
    proof {
        reveal_strlit("\"");
    }
    let mut out = String::from_str("\"");
    let escaped = json_escape(s);
    out.append(escaped.as_str());
    out.append("\"");
    proof {
        assert("\""@ + json_escaped(s@) + "\""@ =~= json_quoted(s@));
    }
    out
}

/// A JSON string literal for a present value, `null` for an absent one.
pub open spec fn json_opt_string(o: Option<Seq<char>>) -> Seq<char> {
    match o {
        Some(s) => json_quoted(s),
        None => "null"@,
    }
}

/// A JSON string literal for a present value, `null` for an absent one.
pub fn json_opt_quote(o: &Option<String>) -> (r: String)
    ensures
        r@ == json_opt_string(opt_view(o)),
{
    match o {
        Some(s) => json_quote(s.as_str()),
        None => String::from_str("null"),
    }
}

// ---------------------------------------------------------------------------
// Reading JSON responses
// ---------------------------------------------------------------------------

/// Whether given text parses as a JSON document.
pub uninterp spec fn json_wf(s: Seq<char>) -> bool;

/// The value of the named top-level field of a JSON document, where the
/// document is an object and the field holds a string; nothing otherwise.
pub uninterp spec fn json_str_field_of(s: Seq<char>, key: Seq<char>) -> Option<Seq<char>>;

/// Relies on serde_json: `from_str` parses text into a JSON document and
/// errs exactly on text that is not JSON; `Value::get` fetches the named
/// top-level object field; `Value::as_str` yields the field's text when it
/// is a string. The outcome depends on the text and the key alone.
#[verifier::external_body]
pub(crate) fn json_top_level_str_field(text: &str, key: &str) -> (r: Result<Option<String>, ()>)
    ensures
        (r is Ok) == json_wf(text@),
        r matches Ok(f) ==> ((f is Some) == (json_str_field_of(text@, key@) is Some)),
        r matches Ok(f) ==> (f matches Some(v) ==> json_str_field_of(text@, key@) == Some(v@)),
{
    match serde_json::from_str::<serde_json::Value>(text) {
        Ok(doc) => Ok(doc.get(key).and_then(|f| f.as_str()).map(|s| s.to_string())),
        Err(_) => Err(()),
    }
}

} // verus!
