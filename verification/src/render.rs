//! Verified rendering of the JSON request bodies the library sends.
//!
//! Only the pieces the wire contract needs are rendered here: quoted and
//! escaped strings, booleans, unsigned decimal numbers, and flat objects and
//! arrays built from them. Each executable function returns exactly the text
//! its spec function describes.

use vstd::prelude::*;
use vstd::string::StrSliceExecFns;
use vstd::string::StringExecFns;

verus! {

/// Hexadecimal digit for a value below 16, lower case.
pub open spec fn spec_hex_digit(n: int) -> char {
    if n == 0 {
        '0'
    } else if n == 1 {
        '1'
    } else if n == 2 {
        '2'
    } else if n == 3 {
        '3'
    } else if n == 4 {
        '4'
    } else if n == 5 {
        '5'
    } else if n == 6 {
        '6'
    } else if n == 7 {
        '7'
    } else if n == 8 {
        '8'
    } else if n == 9 {
        '9'
    } else if n == 10 {
        'a'
    } else if n == 11 {
        'b'
    } else if n == 12 {
        'c'
    } else if n == 13 {
        'd'
    } else if n == 14 {
        'e'
    } else {
        'f'
    }
}

/// How one character appears inside a JSON string literal: quotes and
/// backslashes are escaped, control characters become `\u00XX`, everything
/// else stands for itself.
pub open spec fn spec_escape_char(c: char) -> Seq<char> {
    if c == '"' {
        seq!['\\', '"']
    } else if c == '\\' {
        seq!['\\', '\\']
    } else if (c as int) < 0x20 {
        seq!['\\', 'u', '0', '0', spec_hex_digit(c as int / 16), spec_hex_digit(c as int % 16)]
    } else {
        seq![c]
    }
}

/// A whole string escaped for use inside a JSON string literal.
pub open spec fn spec_escape(s: Seq<char>) -> Seq<char>
    decreases s.len(),
{
    if s.len() == 0 {
        Seq::empty()
    } else {
        spec_escape_char(s[0]) + spec_escape(s.drop_first())
    }
}

/// A JSON string literal: the escaped text between double quotes.
pub open spec fn spec_quote(s: Seq<char>) -> Seq<char> {
    seq!['"'] + spec_escape(s) + seq!['"']
}

/// Decimal text of a non-negative integer, no sign and no leading zeros.
pub open spec fn spec_dec(n: int) -> Seq<char>
    decreases n,
{
    if n < 10 {
        seq![spec_hex_digit(if n < 0 { 0 } else { n })]
    } else {
        spec_dec(n / 10) + seq![spec_hex_digit(n % 10)]
    }
}

/// JSON text of a boolean.
pub open spec fn spec_bool_text(b: bool) -> Seq<char> {
    if b {
        "true"@
    } else {
        "false"@
    }
}

/// Relies on `String::push` of std: appends exactly the given character.
#[verifier::external_body]
fn push_char(s: &mut String, c: char)
    ensures
        final(s)@ == old(s)@ + seq![c],
{
    s.push(c);
}

fn hex_digit(n: u8) -> (c: char)
    requires
        n < 16,
    ensures
        c == spec_hex_digit(n as int),
{
    match n {
        0 => '0',
        1 => '1',
        2 => '2',
        3 => '3',
        4 => '4',
        5 => '5',
        6 => '6',
        7 => '7',
        8 => '8',
        9 => '9',
        10 => 'a',
        11 => 'b',
        12 => 'c',
        13 => 'd',
        14 => 'e',
        _ => 'f',
    }
}

/// Appends one character in its escaped JSON form.
fn push_escaped_char(out: &mut String, c: char)
    ensures
        final(out)@ == old(out)@ + spec_escape_char(c),
{
    if c == '"' {
        push_char(out, '\\');
        push_char(out, '"');
    } else if c == '\\' {
        push_char(out, '\\');
        push_char(out, '\\');
    } else if (c as u32) < 0x20 {
        let code = c as u32;
        push_char(out, '\\');
        push_char(out, 'u');
        push_char(out, '0');
        push_char(out, '0');
        push_char(out, hex_digit((code / 16) as u8));
        push_char(out, hex_digit((code % 16) as u8));
        assert(out@ =~= old(out)@ + spec_escape_char(c));
    } else {
        push_char(out, c);
    }
}

/// Appends the escaped form of a whole string.
pub fn push_escaped(out: &mut String, s: &str)
    ensures
        final(out)@ == old(out)@ + spec_escape(s@),
{
    let n = s.unicode_len();
    let mut i: usize = 0;
    assert(s@.take(0) =~= Seq::<char>::empty());
    assert(out@ =~= out@ + spec_escape(s@.take(0)));
    while i < n
        invariant
            i <= n,
            n == s@.len(),
            out@ == old(out)@ + spec_escape(s@.take(i as int)),
        decreases n - i,
    {
        let c = s.get_char(i);
        push_escaped_char(out, c);
        proof {
            lemma_escape_push(s@, i as int);
        }
        i += 1;
    }
    assert(s@.take(n as int) =~= s@);
}

/// Escaping distributes over appending one character.
proof fn lemma_escape_push(s: Seq<char>, i: int)
    requires
        0 <= i < s.len(),
    ensures
        spec_escape(s.take(i + 1)) == spec_escape(s.take(i)) + spec_escape_char(s[i]),
    decreases i,
{
    let t = s.take(i + 1);
    if i == 0 {
        assert(t.drop_first() =~= Seq::<char>::empty());
        assert(spec_escape(s.take(0)) =~= Seq::<char>::empty());
        assert(t[0] == s[0]);
        assert(spec_escape(t) == spec_escape_char(s[0]) + spec_escape(Seq::<char>::empty()));
        assert(spec_escape(t) =~= spec_escape_char(s[0]));
    } else {
        assert(t.drop_first() =~= s.drop_first().take(i));
        assert(s.take(i).drop_first() =~= s.drop_first().take(i - 1));
        lemma_escape_push(s.drop_first(), i - 1);
        assert(s.drop_first()[i - 1] == s[i]);
        assert(spec_escape(t) == spec_escape_char(s[0]) + spec_escape(s.drop_first().take(i)));
        assert(spec_escape(s.take(i + 1)) =~= spec_escape(s.take(i)) + spec_escape_char(s[i]));
    }
}

/// Appends a quoted, escaped JSON string literal.
pub fn push_quoted(out: &mut String, s: &str)
    ensures
        final(out)@ == old(out)@ + spec_quote(s@),
{
    push_char(out, '"');
    push_escaped(out, s);
    push_char(out, '"');
    assert(out@ =~= old(out)@ + spec_quote(s@));
}

/// Appends the decimal text of `n`.
pub fn push_dec(out: &mut String, n: u64)
    ensures
        final(out)@ == old(out)@ + spec_dec(n as int),
    decreases n,
{
    if n < 10 {
        push_char(out, hex_digit(n as u8));
    } else {
        push_dec(out, n / 10);
        push_char(out, hex_digit((n % 10) as u8));
        assert(out@ =~= old(out)@ + spec_dec(n as int));
    }
}

/// Appends `true` or `false`.
pub fn push_bool(out: &mut String, b: bool)
    ensures
        final(out)@ == old(out)@ + spec_bool_text(b),
{
    if b {
        out.append("true");
    } else {
        out.append("false");
    }
}

/// `true` or `false` as an owned string.
pub fn bool_string(b: bool) -> (r: String)
    ensures
        r@ == spec_bool_text(b),
{
    if b {
        "true".to_owned()
    } else {
        "false".to_owned()
    }
}

/// The decimal text of `n` as an owned string.
pub fn dec_string(n: u64) -> (r: String)
    ensures
        r@ == spec_dec(n as int),
{
    let mut out = String::new();
    push_dec(&mut out, n);
    out
}

/// A quoted, escaped JSON string literal as an owned string.
pub fn quoted(s: &str) -> (r: String)
    ensures
        r@ == spec_quote(s@),
{
    let mut out = String::new();
    push_quoted(&mut out, s);
    out
}

/// One object member: the quoted key, a colon, and the already-rendered
/// value.
pub open spec fn spec_member(key: Seq<char>, value_text: Seq<char>) -> Seq<char> {
    spec_quote(key) + seq![':'] + value_text
}

/// The given rendered pieces joined by commas.
pub open spec fn spec_join_comma(items: Seq<Seq<char>>) -> Seq<char>
    decreases items.len(),
{
    if items.len() == 0 {
        Seq::empty()
    } else if items.len() == 1 {
        items[0]
    } else {
        items[0] + seq![','] + spec_join_comma(items.drop_first())
    }
}

/// A JSON object from already-rendered members.
pub open spec fn spec_json_obj(members: Seq<Seq<char>>) -> Seq<char> {
    seq!['{'] + spec_join_comma(members) + seq!['}']
}

/// A JSON array from already-rendered items.
pub open spec fn spec_json_arr(items: Seq<Seq<char>>) -> Seq<char> {
    seq!['['] + spec_join_comma(items) + seq![']']
}

/// Joining grows one comma-separated piece at a time.
proof fn lemma_join_push(items: Seq<Seq<char>>, x: Seq<char>)
    ensures
        spec_join_comma(items.push(x)) == if items.len() == 0 {
            x
        } else {
            spec_join_comma(items) + seq![','] + x
        },
    decreases items.len(),
{
    let grown = items.push(x);
    if items.len() == 0 {
        assert(grown.len() == 1);
        assert(grown[0] == x);
    } else if items.len() == 1 {
        assert(grown.len() == 2);
        assert(grown.drop_first() =~= seq![x]);
        assert(grown[0] == items[0]);
        assert(spec_join_comma(seq![x]) == x);
        assert(spec_join_comma(grown) == items[0] + seq![','] + x);
    } else {
        assert(grown.drop_first() =~= items.drop_first().push(x));
        lemma_join_push(items.drop_first(), x);
        assert(spec_join_comma(grown) == grown[0] + seq![','] + spec_join_comma(
            items.drop_first().push(x),
        ));
        assert(spec_join_comma(items.push(x)) == spec_join_comma(items) + seq![','] + x);
    }
}

/// Appends the given pieces joined by commas.
pub fn push_joined(out: &mut String, items: &Vec<String>)
    ensures
        final(out)@ == old(out)@ + spec_join_comma(items.deep_view()),
{
    let ghost all = items.deep_view();
    let mut i: usize = 0;
    assert(all.take(0) =~= Seq::<Seq<char>>::empty());
    while i < items.len()
        invariant
            i <= items.len(),
            all == items.deep_view(),
            all.len() == items.len(),
            out@ == old(out)@ + spec_join_comma(all.take(i as int)),
        decreases items.len() - i,
    {
        if i > 0 {
            push_char(out, ',');
        }
        out.append(items[i].as_str());
        proof {
            assert(all.take(i + 1) =~= all.take(i as int).push(all[i as int]));
            lemma_join_push(all.take(i as int), all[i as int]);
            assert(all[i as int] == items@[i as int]@);
        }
        i += 1;
    }
    assert(all.take(items.len() as int) =~= all);
}

/// A JSON object from already-rendered members, as an owned string.
pub fn json_obj(members: &Vec<String>) -> (r: String)
    ensures
        r@ == spec_json_obj(members.deep_view()),
{
    let mut out = String::new();
    push_char(&mut out, '{');
    push_joined(&mut out, members);
    push_char(&mut out, '}');
    assert(out@ =~= spec_json_obj(members.deep_view()));
    out
}

/// A JSON array from already-rendered items, as an owned string.
pub fn json_arr(items: &Vec<String>) -> (r: String)
    ensures
        r@ == spec_json_arr(items.deep_view()),
{
    let mut out = String::new();
    push_char(&mut out, '[');
    push_joined(&mut out, items);
    push_char(&mut out, ']');
    assert(out@ =~= spec_json_arr(items.deep_view()));
    out
}

/// An object member whose value is a string, as an owned string.
pub fn string_member(key: &str, val: &str) -> (r: String)
    ensures
        r@ == spec_member(key@, spec_quote(val@)),
{
    let mut out = String::new();
    push_quoted(&mut out, key);
    push_char(&mut out, ':');
    push_quoted(&mut out, val);
    assert(out@ =~= spec_member(key@, spec_quote(val@)));
    out
}

/// An object member whose value is a boolean, as an owned string.
pub fn bool_member(key: &str, b: bool) -> (r: String)
    ensures
        r@ == spec_member(key@, spec_bool_text(b)),
{
    let mut out = String::new();
    push_quoted(&mut out, key);
    push_char(&mut out, ':');
    push_bool(&mut out, b);
    assert(out@ =~= spec_member(key@, spec_bool_text(b)));
    out
}

} // verus!
