use vstd::prelude::*;

verus! {

/// The views of a sequence of strings.
pub open spec fn views(s: Seq<String>) -> Seq<Seq<char>> {
    s.map_values(|x: String| x@)
}

/// Lines joined by a single newline, with no newline after the last one.
pub open spec fn join_lines(lines: Seq<Seq<char>>) -> Seq<char>
    decreases lines.len(),
{
    if lines.len() == 0 {
        Seq::empty()
    } else if lines.len() == 1 {
        lines[0]
    } else {
        join_lines(lines.drop_last()) + "\n"@ + lines.last()
    }
}

/// The escape syntax of the language a literal is written in.
#[derive(Clone, Copy, Debug, PartialEq, Eq, Structural)]
pub enum LiteralStyle {
    /// TOML basic strings: `\u00XX`.
    Toml,
    /// Rust string literals: `\u{XX}`.
    Rust,
}

/// A control character, which neither language takes raw in a literal.
pub open spec fn is_control(c: char) -> bool {
    (c as u32) < 32 || (c as u32) == 127
}

pub open spec fn hex_digit(n: u32) -> char {
    "0123456789abcdef"@[n as int]
}

pub open spec fn control_escape(c: char, style: LiteralStyle) -> Seq<char> {
    let v = c as u32;
    match style {
        LiteralStyle::Toml => "\\u00"@ + seq![hex_digit(v / 16), hex_digit(v % 16)],
        LiteralStyle::Rust => "\\u{"@ + seq![hex_digit(v / 16), hex_digit(v % 16)] + "}"@,
    }
}

/// How one character is written inside a double-quoted string literal.
pub open spec fn escape_char(c: char, style: LiteralStyle) -> Seq<char> {
    if c == '"' {
        "\\\""@
    } else if c == '\\' {
        "\\\\"@
    } else if c == '\n' {
        "\\n"@
    } else if c == '\r' {
        "\\r"@
    } else if c == '\t' {
        "\\t"@
    } else if is_control(c) {
        control_escape(c, style)
    } else {
        seq![c]
    }
}

pub open spec fn escaped(s: Seq<char>, style: LiteralStyle) -> Seq<char>
    decreases s.len(),
{
    if s.len() == 0 {
        Seq::empty()
    } else {
        escaped(s.drop_last(), style) + escape_char(s.last(), style)
    }
}

/// `s` as a double-quoted string literal.
pub open spec fn quoted(s: Seq<char>, style: LiteralStyle) -> Seq<char> {
    "\""@ + escaped(s, style) + "\""@
}

pub open spec fn comma_joined(xs: Seq<Seq<char>>) -> Seq<char>
    decreases xs.len(),
{
    if xs.len() == 0 {
        Seq::empty()
    } else if xs.len() == 1 {
        quoted(xs[0], LiteralStyle::Toml)
    } else {
        comma_joined(xs.drop_last()) + ", "@ + quoted(xs.last(), LiteralStyle::Toml)
    }
}

/// A list of strings as a bracketed, comma-separated list of TOML literals.
pub open spec fn quoted_list(xs: Seq<Seq<char>>) -> Seq<char> {
    "["@ + comma_joined(xs) + "]"@
}

/// `part` appended to the path `base` with one separator between them.
pub open spec fn path_join(base: Seq<char>, part: Seq<char>) -> Seq<char> {
    if base.len() == 0 {
        part
    } else if base.last() == '/' {
        base + part
    } else {
        base + "/"@ + part
    }
}

/// The last component of a path: what follows its last separator.
pub open spec fn base_name(p: Seq<char>) -> Seq<char>
    decreases p.len(),
{
    if p.len() == 0 {
        Seq::empty()
    } else if p.last() == '/' {
        Seq::empty()
    } else {
        base_name(p.drop_last()).push(p.last())
    }
}

pub fn join_lines_exec(lines: &Vec<String>) -> (r: String)
    ensures
        r@ == join_lines(views(lines@)),
{
    let mut out = String::new();
    let mut i: usize = 0;
    while i < lines.len()
        invariant
            i <= lines.len(),
            out@ == join_lines(views(lines@).take(i as int)),
        decreases lines.len() - i,
    {
        proof {
            assert(views(lines@).take(i + 1).drop_last() =~= views(lines@).take(i as int));
        }
        if i > 0 {
            out.append("\n");
        } else {
            assert(out@ + lines[0]@ =~= lines[0]@);
        }
        out.append(lines[i].as_str());
        i += 1;
    }
    assert(views(lines@).take(lines.len() as int) =~= views(lines@));
    out
}

/// Appends `s` to `out` as a double-quoted literal in the given style.
pub fn push_quoted(out: &mut String, s: &str, style: LiteralStyle)
    ensures
        final(out)@ == old(out)@ + quoted(s@, style),
{
    let digits = "0123456789abcdef";
    proof {
        reveal_strlit("0123456789abcdef");
    }
    out.append("\"");
    let ghost start = out@;
    let n = s.unicode_len();
    let mut i: usize = 0;
    while i < n
        invariant
            n == s@.len(),
            i <= n,
            digits@ == "0123456789abcdef"@,
            digits@.len() == 16,
            out@ == start + escaped(s@.take(i as int), style),
        decreases n - i,
    {
        let c = s.get_char(i);
        proof {
            assert(s@.take(i + 1).drop_last() =~= s@.take(i as int));
        }
        let v = c as u32;
        if c == '"' {
            out.append("\\\"");
        } else if c == '\\' {
            out.append("\\\\");
        } else if c == '\n' {
            out.append("\\n");
        } else if c == '\r' {
            out.append("\\r");
        } else if c == '\t' {
            out.append("\\t");
        } else if v < 32 || v == 127 {
            let hi = (v / 16) as usize;
            let lo = (v % 16) as usize;
            let h = digits.substring_char(hi, hi + 1);
            let l = digits.substring_char(lo, lo + 1);
            assert(h@ =~= seq![hex_digit(v / 16)]);
            assert(l@ =~= seq![hex_digit(v % 16)]);
            match style {
                LiteralStyle::Toml => {
                    out.append("\\u00");
                    out.append(h);
                    out.append(l);
                },
                LiteralStyle::Rust => {
                    out.append("\\u{");
                    out.append(h);
                    out.append(l);
                    out.append("}");
                },
            }
        } else {
            let one = s.substring_char(i, i + 1);
            assert(one@ =~= seq![c]);
            out.append(one);
        }
        assert(out@ =~= start + escaped(s@.take(i + 1), style));
        i += 1;
    }
    assert(s@.take(n as int) =~= s@);
    out.append("\"");
    assert(out@ =~= old(out)@ + quoted(s@, style));
}

/// Appends the bracketed list of literals of `xs` to `out`.
pub fn push_quoted_list(out: &mut String, xs: &Vec<String>)
    ensures
        final(out)@ == old(out)@ + quoted_list(views(xs@)),
{
    out.append("[");
    let ghost start = out@;
    let mut i: usize = 0;
    while i < xs.len()
        invariant
            i <= xs.len(),
            out@ == start + comma_joined(views(xs@).take(i as int)),
        decreases xs.len() - i,
    {
        proof {
            assert(views(xs@).take(i + 1).drop_last() =~= views(xs@).take(i as int));
        }
        if i > 0 {
            out.append(", ");
        }
        push_quoted(out, xs[i].as_str(), LiteralStyle::Toml);
        assert(out@ =~= start + comma_joined(views(xs@).take(i + 1)));
        i += 1;
    }
    assert(views(xs@).take(xs.len() as int) =~= views(xs@));
    out.append("]");
    assert(out@ =~= old(out)@ + quoted_list(views(xs@)));
}

pub fn path_join_exec(base: &str, part: &str) -> (r: String)
    ensures
        r@ == path_join(base@, part@),
{
    let n = base.unicode_len();
    let mut out = String::from_str(base);
    if n == 0 {
        assert(out@ + part@ =~= part@);
    } else if base.get_char(n - 1) != '/' {
        out.append("/");
    }
    out.append(part);
    out
}

pub fn base_name_exec(p: &str) -> (r: String)
    ensures
        r@ == base_name(p@),
{
    let n = p.unicode_len();
    let mut i: usize = n;
    assert(p@.take(n as int) =~= p@);
    assert(base_name(p@) + p@.subrange(n as int, n as int) =~= base_name(p@));
    while i > 0 && p.get_char(i - 1) != '/'
        invariant
            n == p@.len(),
            i <= n,
            base_name(p@) == base_name(p@.take(i as int)) + p@.subrange(i as int, n as int),
        decreases i,
    {
        proof {
            assert(p@.take(i as int).drop_last() =~= p@.take(i - 1));
            assert(base_name(p@.take(i - 1)) + p@.subrange(i - 1, n as int) =~= base_name(
                p@.take(i - 1),
            ).push(p@[i - 1]) + p@.subrange(i as int, n as int));
        }
        i -= 1;
    }
    let r = p.substring_char(i, n);
    proof {
        assert(p@.take(n as int) =~= p@);
        assert(base_name(p@.take(i as int)) =~= Seq::<char>::empty());
        assert(base_name(p@) =~= p@.subrange(i as int, n as int));
    }
    String::from_str(r)
}

} // verus!
