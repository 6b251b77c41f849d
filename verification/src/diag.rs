//! Startup diagnostics: the compiler-style rendering of a failed module
//! compile or evaluation — message text, resource name, 1-based line
//! number, the offending source line, and a column-range caret underline.

use vstd::prelude::*;
use vstd::string::{StrSliceExecFns, StringExecFns};

verus! {

/// The position-annotated message the engine reports when compiling or
/// evaluating the configured module fails.
pub struct Diagnostic {
    /// The exception's message text.
    pub text: String,
    /// The resource name the module was compiled under.
    pub resource: String,
    /// The offending source line.
    pub source: String,
    /// The 1-based line number.
    pub line: u32,
    /// The 0-based column where the offending range starts.
    pub start_column: u32,
    /// The 0-based column where the offending range ends.
    pub end_column: u32,
}

/// The character for one decimal digit.
pub open spec fn digit_char(d: nat) -> char {
    if d == 0 {
        '0'
    } else if d == 1 {
        '1'
    } else if d == 2 {
        '2'
    } else if d == 3 {
        '3'
    } else if d == 4 {
        '4'
    } else if d == 5 {
        '5'
    } else if d == 6 {
        '6'
    } else if d == 7 {
        '7'
    } else if d == 8 {
        '8'
    } else {
        '9'
    }
}

/// The decimal rendering of a number, most significant digit first, with
/// no sign and no leading zero (except for 0 itself).
pub open spec fn dec_spec(n: nat) -> Seq<char>
    decreases n,
{
    if n < 10 {
        seq![digit_char(n)]
    } else {
        dec_spec(n / 10) + seq![digit_char(n % 10)]
    }
}

/// A run of one repeated character.
pub open spec fn char_run(c: char, n: nat) -> Seq<char> {
    Seq::new(n, |i| c)
}

/// `s` padded on the left with spaces to width `w`; wider values stay as
/// they are.
pub open spec fn pad_left(s: Seq<char>, w: nat) -> Seq<char> {
    if s.len() >= w {
        s
    } else {
        char_run(' ', (w - s.len()) as nat) + s
    }
}

/// The full rendered diagnostic: the message, an arrow line naming the
/// resource with 1-based line and 0-based column, a gutter, the offending
/// source line behind its right-aligned line number, and a caret
/// underline covering `width` columns starting at `column`.
pub open spec fn diag_spec(
    text: Seq<char>,
    resource: Seq<char>,
    source: Seq<char>,
    line: nat,
    column: nat,
    width: nat,
) -> Seq<char> {
    text + "\n    --> "@ + resource + ":"@ + dec_spec(line) + ":"@ + dec_spec(column)
        + "\n     |   \n"@ + pad_left(dec_spec(line), 4) + " | "@ + source + "\n     | "@
        + char_run(' ', column) + char_run('^', width) + "\n"@
}

/// The one-character string for a decimal digit.
fn digit_str(d: u32) -> (r: &'static str)
    requires
        d < 10,
    ensures
        r@ == seq![digit_char(d as nat)],
{
    let r: &'static str = if d == 0 {
        "0"
    } else if d == 1 {
        "1"
    } else if d == 2 {
        "2"
    } else if d == 3 {
        "3"
    } else if d == 4 {
        "4"
    } else if d == 5 {
        "5"
    } else if d == 6 {
        "6"
    } else if d == 7 {
        "7"
    } else if d == 8 {
        "8"
    } else {
        "9"
    };
    proof {
        reveal_strlit("0");
        reveal_strlit("1");
        reveal_strlit("2");
        reveal_strlit("3");
        reveal_strlit("4");
        reveal_strlit("5");
        reveal_strlit("6");
        reveal_strlit("7");
        reveal_strlit("8");
        reveal_strlit("9");
        assert(r@ =~= seq![digit_char(d as nat)]);
    }
    r
}

/// The decimal rendering of a number.
pub fn dec_u32(n: u32) -> (r: String)
    ensures
        r@ == dec_spec(n as nat),
    decreases n,
{
    if n < 10 {
        digit_str(n).to_owned()
    } else {
        let mut s = dec_u32(n / 10);
        s.append(digit_str(n % 10));
        s
    }
}

/// A run of spaces.
pub fn spaces(n: usize) -> (r: String)
    ensures
        r@ == char_run(' ', n as nat),
{
    let mut s = String::new();
    let mut i: usize = 0;
    proof {
        assert(s@ =~= char_run(' ', 0));
    }
    while i < n
        invariant
            i <= n,
            s@ == char_run(' ', i as nat),
        decreases n - i,
    {
        s.append(" ");
        i = i + 1;
        proof {
            reveal_strlit(" ");
            assert(s@ =~= char_run(' ', i as nat));
        }
    }
    s
}

/// A run of carets.
pub fn carets(n: usize) -> (r: String)
    ensures
        r@ == char_run('^', n as nat),
{
    let mut s = String::new();
    let mut i: usize = 0;
    proof {
        assert(s@ =~= char_run('^', 0));
    }
    while i < n
        invariant
            i <= n,
            s@ == char_run('^', i as nat),
        decreases n - i,
    {
        s.append("^");
        i = i + 1;
        proof {
            reveal_strlit("^");
            assert(s@ =~= char_run('^', i as nat));
        }
    }
    s
}

impl Diagnostic {
    /// The caret underline's width: the column range's length, empty when
    /// the metadata is inverted.
    pub open spec fn width_spec(&self) -> nat {
        if self.end_column >= self.start_column {
            (self.end_column - self.start_column) as nat
        } else {
            0
        }
    }

    /// Renders the full diagnostic text.
    pub fn render(&self) -> (r: String)
        ensures
            r@ == diag_spec(
                self.text@,
                self.resource@,
                self.source@,
                self.line as nat,
                self.start_column as nat,
                self.width_spec(),
            ),
    {
        let width: u32 = if self.end_column >= self.start_column {
            self.end_column - self.start_column
        } else {
            0
        };
        let num = dec_u32(self.line);
        let mut e = self.text.clone();
        e.append("\n    --> ");
        e.append(self.resource.as_str());
        e.append(":");
        e.append(num.as_str());
        e.append(":");
        e.append(dec_u32(self.start_column).as_str());
        e.append("\n     |   \n");
        let num_len = num.as_str().unicode_len();
        if num_len < 4 {
            e.append(spaces(4 - num_len).as_str());
        }
        e.append(num.as_str());
        e.append(" | ");
        e.append(self.source.as_str());
        e.append("\n     | ");
        e.append(spaces(self.start_column as usize).as_str());
        e.append(carets(width as usize).as_str());
        e.append("\n");
        proof {
            assert(e@ =~= diag_spec(
                self.text@,
                self.resource@,
                self.source@,
                self.line as nat,
                self.start_column as nat,
                self.width_spec(),
            ));
        }
        e
    }
}

/// `needle` occurs contiguously somewhere in `hay`.
pub open spec fn has_substring(hay: Seq<char>, needle: Seq<char>) -> bool {
    exists|i: int|
        0 <= i && i + needle.len() <= hay.len() && #[trigger] hay.subrange(
            i,
            i + needle.len() as int,
        ) == needle
}

/// The middle part of a three-way concatenation is a subrange of the
/// whole, at the offset the front part leaves.
proof fn lemma_mid_subrange(a: Seq<char>, b: Seq<char>, c: Seq<char>)
    ensures
        (a + b + c).subrange(a.len() as int, (a.len() + b.len()) as int) == b,
{
    assert((a + b + c).subrange(a.len() as int, (a.len() + b.len()) as int) =~= b);
}

/// A rendered diagnostic names what failed: the resource name and the
/// decimal line number both occur verbatim in the text.
pub proof fn lemma_diagnostic_names_source(
    text: Seq<char>,
    resource: Seq<char>,
    source: Seq<char>,
    line: nat,
    column: nat,
    width: nat,
)
    ensures
        has_substring(diag_spec(text, resource, source, line, column, width), resource),
        has_substring(diag_spec(text, resource, source, line, column, width), dec_spec(line)),
{
    let d = diag_spec(text, resource, source, line, column, width);
    let head = text + "
    --> "@;
    let tail = ":"@ + dec_spec(line) + ":"@ + dec_spec(column) + "
     |   
"@ + pad_left(
        dec_spec(line),
        4,
    ) + " | "@ + source + "
     | "@ + char_run(' ', column) + char_run('^', width) + "
"@;
    assert(d =~= head + resource + tail);
    lemma_mid_subrange(head, resource, tail);
    assert(d.subrange(head.len() as int, (head.len() + resource.len()) as int) == resource);
    assert(has_substring(d, resource));

    let head2 = head + resource + ":"@;
    let tail2 = ":"@ + dec_spec(column) + "
     |   
"@ + pad_left(dec_spec(line), 4) + " | "@
        + source + "
     | "@ + char_run(' ', column) + char_run('^', width) + "
"@;
    assert(d =~= head2 + dec_spec(line) + tail2);
    lemma_mid_subrange(head2, dec_spec(line), tail2);
    assert(d.subrange(head2.len() as int, (head2.len() + dec_spec(line).len()) as int) == dec_spec(line));
    assert(has_substring(d, dec_spec(line)));
}

} // verus!
