//! Emission of XML text: elements, attributes, escaped text and numbers.
use vstd::prelude::*;
use vstd::string::*;
use vstd::utf8::encode_utf8;

verus! {

/// The text of one attribute inside an opening tag: ` key="value"`.
pub open spec fn attr_text(key: Seq<char>, val: Seq<char>) -> Seq<char> {
    " "@ + key + "=\""@ + val + "\""@
}

/// The text of a list of attributes, in list order.
pub open spec fn attrs_text(attrs: Seq<(Seq<char>, Seq<char>)>) -> Seq<char>
    decreases attrs.len(),
{
    if attrs.len() == 0 {
        Seq::empty()
    } else {
        attrs_text(attrs.drop_last()) + attr_text(attrs.last().0, attrs.last().1)
    }
}

/// An element with the given attribute text and content: self-closing when
/// there is no content, else enclosed by a matching end tag.
pub open spec fn element(name: Seq<char>, attrs: Seq<char>, content: Seq<char>) -> Seq<char> {
    if content.len() == 0 {
        "<"@ + name + attrs + " />"@
    } else {
        "<"@ + name + attrs + ">"@ + content + "</"@ + name + ">"@
    }
}

/// What one character of text content becomes.
pub open spec fn escape_char(c: char) -> Seq<char> {
    if c == '<' {
        "&lt;"@
    } else if c == '&' {
        "&amp;"@
    } else if c == '"' {
        "&quot;"@
    } else {
        seq![c]
    }
}

/// Text content with the XML-significant characters escaped.
pub open spec fn escape(t: Seq<char>) -> Seq<char>
    decreases t.len(),
{
    if t.len() == 0 {
        Seq::empty()
    } else {
        escape(t.drop_last()) + escape_char(t.last())
    }
}

/// The decimal digit for a value below ten.
pub open spec fn digit(d: nat) -> char {
    if d == 0 {
        '0'
    } else if d == 1 {
        '1'
    } else if d == 2 {
        '2'
    } else if d == 3 {
        '3'
    } else if d == 4 {
        '4'
    } else if d == 5 {
        '5'
    } else if d == 6 {
        '6'
    } else if d == 7 {
        '7'
    } else if d == 8 {
        '8'
    } else {
        '9'
    }
}

/// The decimal notation of a number, without leading zeros.
pub open spec fn decimal(n: nat) -> Seq<char>
    decreases n,
{
    if n < 10 {
        seq![digit(n)]
    } else {
        decimal(n / 10).push(digit(n % 10))
    }
}

/// Appends ` key="value"`.
pub fn push_attr(out: &mut String, key: &str, val: &str)
    ensures
        final(out)@ == old(out)@ + attr_text(key@, val@),
{
    let ghost start = out@;
    out.append(" ");
    out.append(key);
    out.append("=\"");
    out.append(val);
    out.append("\"");
    assert(out@ =~= start + attr_text(key@, val@));
}

/// The model of an attribute list: each pair as two character sequences.
pub open spec fn attrs_view(attrs: Seq<(String, String)>) -> Seq<(Seq<char>, Seq<char>)> {
    attrs.map_values(|a: (String, String)| (a.0@, a.1@))
}

/// Appends every attribute of the list, in list order.
pub fn push_attrs(out: &mut String, attrs: &Vec<(String, String)>)
    ensures
        final(out)@ == old(out)@ + attrs_text(attrs_view(attrs@)),
{
    let ghost start = out@;
    let mut i: usize = 0;
    while i < attrs.len()
        invariant
            i <= attrs@.len(),
            out@ == start + attrs_text(attrs_view(attrs@.subrange(0, i as int))),
        decreases attrs@.len() - i,
    {
        push_attr(out, attrs[i].0.as_str(), attrs[i].1.as_str());
        proof {
            let pre = attrs_view(attrs@.subrange(0, i as int));
            let post = attrs_view(attrs@.subrange(0, i + 1));
            assert(post.drop_last() =~= pre);
        }
        i += 1;
    }
    assert(attrs@.subrange(0, attrs@.len() as int) =~= attrs@);
}

/// The XML declaration that opens each part.
pub open spec fn declaration() -> Seq<char> {
    "<?xml version=\"1.0\" encoding=\"UTF-8\" standalone=\"yes\"?>"@
}

/// Appends the XML declaration.
pub fn push_declaration(out: &mut String)
    ensures
        final(out)@ == old(out)@ + declaration(),
{
    out.append("<?xml version=\"1.0\" encoding=\"UTF-8\" standalone=\"yes\"?>");
}

/// The empty string.
pub fn empty_str() -> (r: &'static str)
    ensures
        r@ == Seq::<char>::empty(),
{
    proof {
        reveal_strlit("");
    }
    assert(""@ =~= Seq::<char>::empty());
    ""
}

/// Appends an element whose attribute text and content are already rendered.
pub fn push_element(out: &mut String, name: &str, attrs: &str, content: &str)
    ensures
        final(out)@ == old(out)@ + element(name@, attrs@, content@),
{
    let ghost start = out@;
    out.append("<");
    out.append(name);
    out.append(attrs);
    if content.is_empty() {
        out.append(" />");
    } else {
        out.append(">");
        out.append(content);
        out.append("</");
        out.append(name);
        out.append(">");
    }
    assert(out@ =~= start + element(name@, attrs@, content@));
}

fn digit_str(d: usize) -> (r: &'static str)
    requires
        d < 10,
    ensures
        r@ == seq![digit(d as nat)],
{
    if d == 0 {
        proof { reveal_strlit("0"); }
        assert("0"@ =~= seq!['0']);
        "0"
    } else if d == 1 {
        proof { reveal_strlit("1"); }
        assert("1"@ =~= seq!['1']);
        "1"
    } else if d == 2 {
        proof { reveal_strlit("2"); }
        assert("2"@ =~= seq!['2']);
        "2"
    } else if d == 3 {
        proof { reveal_strlit("3"); }
        assert("3"@ =~= seq!['3']);
        "3"
    } else if d == 4 {
        proof { reveal_strlit("4"); }
        assert("4"@ =~= seq!['4']);
        "4"
    } else if d == 5 {
        proof { reveal_strlit("5"); }
        assert("5"@ =~= seq!['5']);
        "5"
    } else if d == 6 {
        proof { reveal_strlit("6"); }
        assert("6"@ =~= seq!['6']);
        "6"
    } else if d == 7 {
        proof { reveal_strlit("7"); }
        assert("7"@ =~= seq!['7']);
        "7"
    } else if d == 8 {
        proof { reveal_strlit("8"); }
        assert("8"@ =~= seq!['8']);
        "8"
    } else {
        proof { reveal_strlit("9"); }
        assert("9"@ =~= seq!['9']);
        "9"
    }
}

/// Appends the decimal notation of `n`.
pub fn push_decimal(out: &mut String, n: usize)
    ensures
        final(out)@ == old(out)@ + decimal(n as nat),
    decreases n,
{
    let ghost start = out@;
    if n >= 10 {
        push_decimal(out, n / 10);
    }
    out.append(digit_str(n % 10));
    assert(out@ =~= start + decimal(n as nat));
}

/// Appends text content, escaping `<`, `&` and `"`.
pub fn push_escaped(out: &mut String, t: &str)
    ensures
        final(out)@ == old(out)@ + escape(t@),
{
    let ghost start = out@;
    let n = t.unicode_len();
    let mut i: usize = 0;
    while i < n
        invariant
            n == t@.len(),
            i <= n,
            out@ == start + escape(t@.subrange(0, i as int)),
        decreases n - i,
    {
        let c = t.get_char(i);
        if c == '<' {
            out.append("&lt;");
        } else if c == '&' {
            out.append("&amp;");
        } else if c == '"' {
            out.append("&quot;");
        } else {
            out.append(t.substring_char(i, i + 1));
            assert(t@.subrange(i as int, i + 1) =~= seq![c]);
        }
        proof {
            assert(t@.subrange(0, i + 1).drop_last() =~= t@.subrange(0, i as int));
            assert(out@ =~= start + escape(t@.subrange(0, i + 1)));
        }
        i += 1;
    }
    assert(t@.subrange(0, n as int) =~= t@);
}

/// The UTF-8 bytes of rendered text.
pub fn to_bytes(s: &String) -> (r: Vec<u8>)
    ensures
        r@ == encode_utf8(s@),
{
    s.as_str().as_bytes_vec()
}

} // verus!
