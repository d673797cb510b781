//! Text that the session shows: decimal line numbers, numbered entries and
//! the command line of the child.

use vstd::prelude::*;
use vstd::string::*;

verus! {

/// The character of one decimal digit.
pub open spec fn digit_char(d: nat) -> char
    recommends
        d < 10,
{
    if d == 0 {
        '0'
    } else if d == 1 {
        '1'
    } else if d == 2 {
        '2'
    } else if d == 3 {
        '3'
    } else if d == 4 {
        '4'
    } else if d == 5 {
        '5'
    } else if d == 6 {
        '6'
    } else if d == 7 {
        '7'
    } else if d == 8 {
        '8'
    } else {
        '9'
    }
}

/// `n` in decimal, most significant digit first and without leading zeros.
pub open spec fn decimal(n: nat) -> Seq<char>
    decreases n,
{
    if n < 10 {
        seq![digit_char(n)]
    } else {
        decimal(n / 10).push(digit_char(n % 10))
    }
}

/// `s` moved to the right edge of a field of `width` characters; a text that
/// is already that wide stays as it is.
pub open spec fn right_aligned(s: Seq<char>, width: nat) -> Seq<char> {
    if s.len() >= width {
        s
    } else {
        Seq::new((width - s.len()) as nat, |i: int| ' ') + s
    }
}

/// Width of the line-number column.
pub const NUMBER_WIDTH: usize = 5;

/// A line of output behind its line number: the number right-aligned in its
/// column, a bar, then the line.
pub open spec fn numbered_text(number: nat, line: Seq<char>) -> Seq<char> {
    right_aligned(decimal(number), NUMBER_WIDTH as nat) + seq![' ', '|', ' '] + line
}

/// A numbered line of the preview, behind the marker that tells whether it is
/// the selected one.
pub open spec fn context_text(selected: bool, number: nat, line: Seq<char>) -> Seq<char> {
    (if selected {
        seq!['>', ' ']
    } else {
        seq![' ', ' ']
    }) + numbered_text(number, line)
}

/// The texts of a list of strings.
pub open spec fn texts(lines: Seq<String>) -> Seq<Seq<char>> {
    Seq::new(lines.len(), |i: int| lines[i]@)
}

/// `parts` with one space between neighbours.
pub open spec fn spaced(parts: Seq<Seq<char>>) -> Seq<char>
    decreases parts.len(),
{
    if parts.len() == 0 {
        Seq::empty()
    } else if parts.len() == 1 {
        parts[0]
    } else {
        spaced(parts.drop_last()) + seq![' '] + parts.last()
    }
}

/// A command and its arguments as one line.
pub open spec fn command_line(command: Seq<char>, args: Seq<Seq<char>>) -> Seq<char> {
    command + seq![' '] + spaced(args)
}

/// Appends `c` to `s` with `String::push`.
///
/// Trusted: the standard library documents that the character is added at the
/// end and the rest is left as it was.
#[verifier::external_body]
pub(crate) fn push_char(s: &mut String, c: char)
    ensures
        final(s)@ == old(s)@.push(c),
{
    s.push(c)
}

fn digit_str(d: usize) -> (r: &'static str)
    requires
        d < 10,
    ensures
        r@ == seq![digit_char(d as nat)],
{
    proof {
        reveal_strlit("0");
        reveal_strlit("1");
        reveal_strlit("2");
        reveal_strlit("3");
        reveal_strlit("4");
        reveal_strlit("5");
        reveal_strlit("6");
        reveal_strlit("7");
        reveal_strlit("8");
        reveal_strlit("9");
    }
    let r: &'static str = if d == 0 {
        "0"
    } else if d == 1 {
        "1"
    } else if d == 2 {
        "2"
    } else if d == 3 {
        "3"
    } else if d == 4 {
        "4"
    } else if d == 5 {
        "5"
    } else if d == 6 {
        "6"
    } else if d == 7 {
        "7"
    } else if d == 8 {
        "8"
    } else {
        "9"
    };
    assert(r@ =~= seq![digit_char(d as nat)]);
    r
}

/// Writes `n` in decimal.
pub fn decimal_string(n: usize) -> (r: String)
    ensures
        r@ == decimal(n as nat),
{
    let mut acc: String = String::from_str(digit_str(n % 10));
    let mut rest: usize = n / 10;
    while rest > 0
        invariant
            decimal(n as nat) == (if rest > 0 {
                decimal(rest as nat)
            } else {
                Seq::<char>::empty()
            }) + acc@,
        decreases rest,
    {
        let ghost before = acc@;
        acc = String::from_str(digit_str(rest % 10)).concat(acc.as_str());
        proof {
            let d = digit_char((rest % 10) as nat);
            assert(acc@ =~= seq![d] + before);
            if rest < 10 {
                assert(decimal(rest as nat) + before =~= Seq::<char>::empty() + acc@);
            } else {
                assert(decimal(rest as nat) + before =~= decimal((rest / 10) as nat) + acc@);
            }
        }
        rest = rest / 10;
    }
    proof {
        assert(Seq::<char>::empty() + acc@ =~= acc@);
    }
    acc
}

/// Formats one numbered line.
pub fn numbered(number: usize, line: &str) -> (r: String)
    ensures
        r@ == numbered_text(number as nat, line@),
{
    let digits: String = decimal_string(number);
    let len: usize = digits.as_str().unicode_len();
    let mut out: String = String::new();
    let mut width: usize = len;
    while width < NUMBER_WIDTH
        invariant
            len == digits@.len(),
            len <= width,
            len < NUMBER_WIDTH ==> width <= NUMBER_WIDTH,
            len >= NUMBER_WIDTH ==> width == len,
            out@ == Seq::new((width - len) as nat, |i: int| ' '),
        decreases NUMBER_WIDTH - width,
    {
        push_char(&mut out, ' ');
        width = width + 1;
        assert(out@ =~= Seq::new((width - len) as nat, |i: int| ' '));
    }
    proof {
        reveal_strlit(" | ");
        assert(" | "@ =~= seq![' ', '|', ' ']);
        if len >= NUMBER_WIDTH {
            assert(out@ =~= Seq::<char>::empty());
        }
        assert(out@ + digits@ =~= right_aligned(digits@, NUMBER_WIDTH as nat));
    }
    out.append(digits.as_str());
    out.append(" | ");
    out.append(line);
    out
}

/// Formats one line of the preview.
pub fn context_line(selected: bool, number: usize, line: &str) -> (r: String)
    ensures
        r@ == context_text(selected, number as nat, line@),
{
    proof {
        reveal_strlit("> ");
        reveal_strlit("  ");
        assert("> "@ =~= seq!['>', ' ']);
        assert("  "@ =~= seq![' ', ' ']);
    }
    let mut out: String = String::from_str(if selected { "> " } else { "  " });
    let entry: String = numbered(number, line);
    out.append(entry.as_str());
    out
}

/// Joins a command and its arguments into one line.
pub fn command_text(command: &str, args: &[String]) -> (r: String)
    ensures
        r@ == command_line(command@, texts(args@)),
{
    proof {
        reveal_strlit(" ");
        assert(" "@ =~= seq![' ']);
    }
    let mut out: String = String::from_str(command);
    out.append(" ");
    let mut i: usize = 0;
    while i < args.len()
        invariant
            i <= args.len(),
            " "@ == seq![' '],
            out@ == command@ + seq![' '] + spaced(texts(args@).take(i as int)),
        decreases args.len() - i,
    {
        let ghost done = texts(args@).take(i as int);
        let ghost next = texts(args@).take(i + 1);
        proof {
            assert(next.drop_last() =~= done);
            assert(next.last() == args@[i as int]@);
        }
        if i > 0 {
            out.append(" ");
        } else {
            assert(done =~= Seq::<Seq<char>>::empty());
        }
        out.append(args[i].as_str());
        proof {
            if i > 0 {
                assert(spaced(next) == spaced(done) + seq![' '] + args@[i as int]@);
                assert(out@ =~= command@ + seq![' '] + spaced(next));
            } else {
                assert(spaced(next) == args@[i as int]@);
                assert(spaced(done) =~= Seq::<char>::empty());
                assert(out@ =~= command@ + seq![' '] + spaced(next));
            }
        }
        i = i + 1;
    }
    proof {
        assert(texts(args@).take(i as int) =~= texts(args@));
    }
    out
}

/// Puts `c` in front of the character at position `at` of `s`, counted in
/// characters; at the end where `at` is the length.
pub fn insert_char(s: &str, at: usize, c: char) -> (r: String)
    requires
        at <= s@.len(),
    ensures
        r@ == s@.insert(at as int, c),
{
    let len: usize = s.unicode_len();
    let mut out: String = String::from_str(s.substring_char(0, at));
    push_char(&mut out, c);
    out.append(s.substring_char(at, len));
    assert(out@ =~= s@.insert(at as int, c));
    out
}

/// Takes the character at position `at` out of `s`, counted in characters.
pub fn remove_char(s: &str, at: usize) -> (r: String)
    requires
        at < s@.len(),
    ensures
        r@ == s@.remove(at as int),
{
    let len: usize = s.unicode_len();
    let mut out: String = String::from_str(s.substring_char(0, at));
    out.append(s.substring_char(at + 1, len));
    assert(out@ =~= s@.remove(at as int));
    out
}

} // verus!
