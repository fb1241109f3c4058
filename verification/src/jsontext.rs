//! Verified rendering of the JSON bodies the service builds itself: the
//! `{"name":...,"content":...}` object of a get-by-name reply and the array
//! of names of a listing reply, with full JSON string escaping.

use vstd::prelude::*;
use vstd::string::StrSliceExecFns;
use vstd::string::StringExecFns;

verus! {

/// The hexadecimal digit for `n < 16`.
pub open spec fn hex_char(n: u8) -> char {
    if n == 0 {
        '0'
    } else if n == 1 {
        '1'
    } else if n == 2 {
        '2'
    } else if n == 3 {
        '3'
    } else if n == 4 {
        '4'
    } else if n == 5 {
        '5'
    } else if n == 6 {
        '6'
    } else if n == 7 {
        '7'
    } else if n == 8 {
        '8'
    } else if n == 9 {
        '9'
    } else if n == 10 {
        'a'
    } else if n == 11 {
        'b'
    } else if n == 12 {
        'c'
    } else if n == 13 {
        'd'
    } else if n == 14 {
        'e'
    } else {
        'f'
    }
}

/// How one character is written inside a JSON string literal: quote and
/// backslash and the common control characters get their short escapes,
/// the remaining control characters a `\u00..` escape, and every other
/// character stands as itself.
pub open spec fn escaped_char(c: char) -> Seq<char> {
    if c == '"' {
        seq!['\\', '"']
    } else if c == '\\' {
        seq!['\\', '\\']
    } else if c == '\n' {
        seq!['\\', 'n']
    } else if c == '\r' {
        seq!['\\', 'r']
    } else if c == '\t' {
        seq!['\\', 't']
    } else if (c as u32) < 32 {
        seq!['\\', 'u', '0', '0', hex_char((c as u32 / 16) as u8), hex_char((c as u32 % 16) as u8)]
    } else {
        seq![c]
    }
}

/// The escaped form of a whole string.
pub open spec fn escaped(s: Seq<char>) -> Seq<char>
    decreases s.len(),
{
    if s.len() == 0 {
        Seq::<char>::empty()
    } else {
        escaped(s.drop_last()) + escaped_char(s.last())
    }
}

/// The JSON string literal denoting `s`, quotes included.
pub open spec fn json_string(s: Seq<char>) -> Seq<char> {
    seq!['"'] + escaped(s) + seq!['"']
}

/// The string holding the single hexadecimal digit for `n`.
fn hex_str(n: u8) -> (r: &'static str)
    requires
        n < 16,
    ensures
        r@ == seq![hex_char(n)],
{
    if n == 0 {
        proof {
            reveal_strlit("0");
            assert(("0")@ =~= seq![hex_char(0)]);
        }
        "0"
    } else if n == 1 {
        proof {
            reveal_strlit("1");
            assert(("1")@ =~= seq![hex_char(1)]);
        }
        "1"
    } else if n == 2 {
        proof {
            reveal_strlit("2");
            assert(("2")@ =~= seq![hex_char(2)]);
        }
        "2"
    } else if n == 3 {
        proof {
            reveal_strlit("3");
            assert(("3")@ =~= seq![hex_char(3)]);
        }
        "3"
    } else if n == 4 {
        proof {
            reveal_strlit("4");
            assert(("4")@ =~= seq![hex_char(4)]);
        }
        "4"
    } else if n == 5 {
        proof {
            reveal_strlit("5");
            assert(("5")@ =~= seq![hex_char(5)]);
        }
        "5"
    } else if n == 6 {
        proof {
            reveal_strlit("6");
            assert(("6")@ =~= seq![hex_char(6)]);
        }
        "6"
    } else if n == 7 {
        proof {
            reveal_strlit("7");
            assert(("7")@ =~= seq![hex_char(7)]);
        }
        "7"
    } else if n == 8 {
        proof {
            reveal_strlit("8");
            assert(("8")@ =~= seq![hex_char(8)]);
        }
        "8"
    } else if n == 9 {
        proof {
            reveal_strlit("9");
            assert(("9")@ =~= seq![hex_char(9)]);
        }
        "9"
    } else if n == 10 {
        proof {
            reveal_strlit("a");
            assert(("a")@ =~= seq![hex_char(10)]);
        }
        "a"
    } else if n == 11 {
        proof {
            reveal_strlit("b");
            assert(("b")@ =~= seq![hex_char(11)]);
        }
        "b"
    } else if n == 12 {
        proof {
            reveal_strlit("c");
            assert(("c")@ =~= seq![hex_char(12)]);
        }
        "c"
    } else if n == 13 {
        proof {
            reveal_strlit("d");
            assert(("d")@ =~= seq![hex_char(13)]);
        }
        "d"
    } else if n == 14 {
        proof {
            reveal_strlit("e");
            assert(("e")@ =~= seq![hex_char(14)]);
        }
        "e"
    } else {
        proof {
            reveal_strlit("f");
            assert(("f")@ =~= seq![hex_char(15)]);
        }
        "f"
    }
}

/// Appends the escaped form of `s` to `out`.
fn push_escaped(out: &mut String, s: &str)
    ensures
        final(out)@ == old(out)@ + escaped(s@),
{
    let len = s.unicode_len();
    let mut i: usize = 0;
    while i < len
        invariant
            len == s@.len(),
            0 <= i <= len,
            out@ == old(out)@ + escaped(s@.subrange(0, i as int)),
        decreases len - i,
    {
        let c = s.get_char(i);
        proof {
            assert(s@.subrange(0, i as int + 1).drop_last() =~= s@.subrange(0, i as int));
            assert(s@.subrange(0, i as int + 1).last() == s@[i as int]);
        }
        if c == '"' {
            proof {
                reveal_strlit("\\\"");
                assert(("\\\"")@ =~= seq!['\\', '"']);
            }
            out.append("\\\"");
        } else if c == '\\' {
            proof {
                reveal_strlit("\\\\");
                assert(("\\\\")@ =~= seq!['\\', '\\']);
            }
            out.append("\\\\");
        } else if c == '\n' {
            proof {
                reveal_strlit("\\n");
                assert(("\\n")@ =~= seq!['\\', 'n']);
            }
            out.append("\\n");
        } else if c == '\r' {
            proof {
                reveal_strlit("\\r");
                assert(("\\r")@ =~= seq!['\\', 'r']);
            }
            out.append("\\r");
        } else if c == '\t' {
            proof {
                reveal_strlit("\\t");
                assert(("\\t")@ =~= seq!['\\', 't']);
            }
            out.append("\\t");
        } else if (c as u32) < 32 {
            proof {
                reveal_strlit("\\u00");
                assert(("\\u00")@ =~= seq!['\\', 'u', '0', '0']);
            }
            out.append("\\u00");
            let hi: u8 = ((c as u32) / 16) as u8;
            let lo: u8 = ((c as u32) % 16) as u8;
            out.append(hex_str(hi));
            out.append(hex_str(lo));
        } else {
            let piece = s.substring_char(i, i + 1);
            proof {
                assert(piece@ =~= seq![c]);
            }
            out.append(piece);
        }
        proof {
            assert(out@ =~= old(out)@ + escaped(s@.subrange(0, i as int + 1)));
        }
        i = i + 1;
    }
    proof {
        assert(s@.subrange(0, len as int) =~= s@);
    }
}

/// Appends the JSON string literal denoting `s` to `out`.
fn push_json_string(out: &mut String, s: &str)
    ensures
        final(out)@ == old(out)@ + json_string(s@),
{
    proof {
        reveal_strlit("\"");
        assert(("\"")@ =~= seq!['"']);
    }
    out.append("\"");
    push_escaped(out, s);
    out.append("\"");
    proof {
        assert(out@ =~= old(out)@ + json_string(s@));
    }
}

/// The body of a get-by-name reply: an object holding the name and the
/// stored content, both as JSON string literals.
pub open spec fn file_object_json(n: Seq<char>, c: Seq<char>) -> Seq<char> {
    seq!['{', '"', 'n', 'a', 'm', 'e', '"', ':'] + json_string(n) + seq![
        ',',
        '"',
        'c',
        'o',
        'n',
        't',
        'e',
        'n',
        't',
        '"',
        ':',
    ] + json_string(c) + seq!['}']
}

/// Renders the get-by-name reply body for `name` and `content`.
pub fn render_file_object(name: &str, content: &str) -> (r: String)
    ensures
        r@ == file_object_json(name@, content@),
{
    let mut out = String::new();
    proof {
        reveal_strlit("{\"name\":");
        assert(("{\"name\":")@ =~= seq!['{', '"', 'n', 'a', 'm', 'e', '"', ':']);
        reveal_strlit(",\"content\":");
        assert((",\"content\":")@ =~= seq![',', '"', 'c', 'o', 'n', 't', 'e', 'n', 't', '"', ':']);
        reveal_strlit("}");
        assert(("}")@ =~= seq!['}']);
    }
    out.append("{\"name\":");
    push_json_string(&mut out, name);
    out.append(",\"content\":");
    push_json_string(&mut out, content);
    out.append("}");
    proof {
        assert(out@ =~= file_object_json(name@, content@));
    }
    out
}

/// The comma-joined JSON string literals of `items`.
pub open spec fn joined_strings(items: Seq<Seq<char>>) -> Seq<char>
    decreases items.len(),
{
    if items.len() == 0 {
        Seq::<char>::empty()
    } else if items.len() == 1 {
        json_string(items[0])
    } else {
        joined_strings(items.drop_last()) + seq![','] + json_string(items.last())
    }
}

/// The body of a listing reply: a JSON array of string literals.
pub open spec fn string_array_json(items: Seq<Seq<char>>) -> Seq<char> {
    seq!['['] + joined_strings(items) + seq![']']
}

/// Renders the listing reply body for `items`.
pub fn render_string_array(items: &Vec<String>) -> (r: String)
    ensures
        r@ == string_array_json(items@.map_values(|s: String| s@)),
{
    let ghost m = items@.map_values(|s: String| s@);
    let mut out = String::new();
    proof {
        reveal_strlit("[");
        assert(("[")@ =~= seq!['[']);
        reveal_strlit("]");
        assert(("]")@ =~= seq![']']);
        reveal_strlit(",");
        assert((",")@ =~= seq![',']);
    }
    out.append("[");
    let mut i: usize = 0;
    while i < items.len()
        invariant
            m == items@.map_values(|s: String| s@),
            0 <= i <= items@.len(),
            out@ == seq!['['] + joined_strings(m.subrange(0, i as int)),
        decreases items@.len() - i,
    {
        proof {
            reveal_strlit(",");
            assert((",")@ =~= seq![',']);
        }
        if i > 0 {
            out.append(",");
        }
        push_json_string(&mut out, items[i].as_str());
        proof {
            let pre = m.subrange(0, i as int);
            let cur = m.subrange(0, i as int + 1);
            assert(cur.drop_last() =~= pre);
            assert(cur.last() == m[i as int]);
            assert(m[i as int] == items@[i as int]@);
            if i == 0 {
                assert(cur.len() == 1);
                assert(cur[0] == m[0]);
                assert(joined_strings(cur) == json_string(m[0]));
            } else {
                assert(joined_strings(cur) == joined_strings(pre) + seq![','] + json_string(
                    m[i as int],
                ));
            }
            assert(out@ =~= seq!['['] + joined_strings(cur));
        }
        i = i + 1;
    }
    out.append("]");
    proof {
        assert(m.subrange(0, items@.len() as int) =~= m);
        assert(out@ =~= string_array_json(m));
    }
    out
}

} // verus!
