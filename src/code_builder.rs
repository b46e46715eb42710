//! A builder of C source text that indents by the braces it sees.
use vstd::prelude::*;
use vstd::string::{StrSliceExecFns, StringExecFns};

verus! {

/// C source text on its way to a file: the text so far and the current indent.
pub struct CodeBuilder {
    pub path: String,
    pub data: String,
    /// The indent of the next line, in spaces.
    pub head_whitespace: usize,
}

/// `n` spaces.
pub open spec fn spaces(n: nat) -> Seq<char> {
    Seq::new(n, |i: int| ' ')
}

/// A line that closes a block on its own: `}` or `};`.
pub open spec fn is_close(line: Seq<char>) -> bool {
    line == "}"@ || line == "};"@
}

pub open spec fn ends_with(line: Seq<char>, c: char) -> bool {
    line.len() > 0 && line.last() == c
}

/// Two spaces less, and never below zero.
pub open spec fn dedent(n: nat) -> nat {
    if n >= 2 {
        (n - 2) as nat
    } else {
        0
    }
}

/// Two spaces more, and never beyond the largest `usize`.
pub open spec fn indent(n: nat) -> nat {
    if n + 2 <= usize::MAX {
        n + 2
    } else {
        usize::MAX as nat
    }
}

/// The indent that a line is written with.
pub open spec fn line_indent(hw: nat, line: Seq<char>) -> nat {
    if is_close(line) {
        dedent(hw)
    } else {
        hw
    }
}

/// The indent after a line: a line that ends with `{` opens a block, one that
/// ends with `}` closes one.
pub open spec fn next_indent(hw: nat, line: Seq<char>) -> nat {
    if is_close(line) {
        dedent(hw)
    } else {
        let h1 = if ends_with(line, '{') {
            indent(hw)
        } else {
            hw
        };
        if ends_with(line, '}') {
            dedent(h1)
        } else {
            h1
        }
    }
}

/// The text and the indent after writing `lines`, from `data` and `hw`.
pub open spec fn write_lines(data: Seq<char>, hw: nat, lines: Seq<Seq<char>>) -> (Seq<char>, nat)
    decreases lines.len(),
{
    if lines.len() == 0 {
        (data, hw)
    } else {
        let (d, h) = write_lines(data, hw, lines.drop_last());
        let line = lines.last();
        (d + spaces(line_indent(h, line)) + line + "\n"@, next_indent(h, line))
    }
}

/// The rows that `write_array` writes: the items joined by `, `, broken after
/// every `per` items; the rows so far, the row being filled and its count
/// after the first `k` items.
pub open spec fn array_state(items: Seq<Seq<char>>, per: nat, k: nat) -> (Seq<Seq<char>>, Seq<char>, nat)
    decreases k,
{
    if k == 0 {
        (seq![], seq![], 0)
    } else {
        let (rows, l, c) = array_state(items, per, (k - 1) as nat);
        let sep = if k != items.len() {
            ", "@
        } else {
            seq![]
        };
        let l2 = l + items[k - 1] + sep;
        if per == 0 {
            (rows, l2, c)
        } else if c + 1 == per {
            (rows.push(l2), seq![], 0)
        } else {
            (rows, l2, c + 1)
        }
    }
}

/// The rows of an array of `items`, `per` to a row.
pub open spec fn array_rows(items: Seq<Seq<char>>, per: nat) -> Seq<Seq<char>> {
    let (rows, l, c) = array_state(items, per, items.len());
    if l.len() > 0 {
        rows.push(l)
    } else {
        rows
    }
}

/// Writing one more line after some lines is writing it from where they left off.
pub proof fn lemma_write_lines_push(data: Seq<char>, hw: nat, lines: Seq<Seq<char>>, line: Seq<char>)
    ensures
        write_lines(data, hw, lines.push(line)) == write_lines(
            write_lines(data, hw, lines).0,
            write_lines(data, hw, lines).1,
            seq![line],
        ),
{
    let (d, h) = write_lines(data, hw, lines);
    assert(lines.push(line).drop_last() =~= lines);
    assert(seq![line].drop_last() =~= Seq::<Seq<char>>::empty());
    assert(write_lines(d, h, Seq::<Seq<char>>::empty()) == (d, h));
}

impl CodeBuilder {
    pub open spec fn indent_width(&self) -> nat {
        self.head_whitespace as nat
    }

    /// An empty text for the file at `path`.
    pub fn create(path: String) -> (r: CodeBuilder)
        ensures
            r.path@ == path@,
            r.data@ == Seq::<char>::empty(),
            r.indent_width() == 0,
    {
        CodeBuilder { path, data: String::new(), head_whitespace: 0 }
    }

    /// Writes one line, indented, and a newline.
    pub fn write(&mut self, line: &str)
        ensures
            final(self).path@ == old(self).path@,
            (final(self).data@, final(self).indent_width()) == write_lines(
                old(self).data@,
                old(self).indent_width(),
                seq![line@],
            ),
    {
        proof {
            reveal_strlit("}");
            reveal_strlit("};");
            reveal_strlit("\n");
            assert(seq![line@].drop_last() =~= Seq::<Seq<char>>::empty());
            assert(write_lines(old(self).data@, old(self).indent_width(), Seq::<Seq<char>>::empty())
                == (old(self).data@, old(self).indent_width()));
        }
        let n = line.unicode_len();
        let close = (n == 1 && line.get_char(0) == '}') || (n == 2 && line.get_char(0) == '}'
            && line.get_char(1) == ';');
        proof {
            if n == 1 && line@[0] == '}' {
                assert(line@ =~= "}"@);
            }
            if n == 2 && line@[0] == '}' && line@[1] == ';' {
                assert(line@ =~= "};"@);
            }
        }
        assert(close == is_close(line@));
        let ghost d0 = self.data@;
        if close {
            self.head_whitespace = if self.head_whitespace >= 2 {
                self.head_whitespace - 2
            } else {
                0
            };
            self.push_spaces();
            self.data.append(line);
            self.data.append("\n");
            assert(self.data@ =~= d0 + spaces(line_indent(old(self).indent_width(), line@))
                + line@ + "\n"@);
            return ;
        }
        self.push_spaces();
        self.data.append(line);
        self.data.append("\n");
        if n > 0 && line.get_char(n - 1) == '{' {
            self.head_whitespace = if self.head_whitespace <= usize::MAX - 2 {
                self.head_whitespace + 2
            } else {
                usize::MAX
            };
        }
        if n > 0 && line.get_char(n - 1) == '}' {
            self.head_whitespace = if self.head_whitespace >= 2 {
                self.head_whitespace - 2
            } else {
                0
            };
        }
        assert(self.data@ =~= d0 + spaces(line_indent(old(self).indent_width(), line@)) + line@
            + "\n"@);
    }

    fn push_spaces(&mut self)
        ensures
            final(self).path@ == old(self).path@,
            final(self).head_whitespace == old(self).head_whitespace,
            final(self).data@ == old(self).data@ + spaces(old(self).head_whitespace as nat),
    {
        proof {
            reveal_strlit(" ");
        }
        let mut i: usize = 0;
        while i < self.head_whitespace
            invariant
                i <= self.head_whitespace,
                self.path@ == old(self).path@,
                self.head_whitespace == old(self).head_whitespace,
                self.data@ == old(self).data@ + spaces(i as nat),
            decreases self.head_whitespace - i,
        {
            proof {
                reveal_strlit(" ");
            }
            self.data.append(" ");
            i = i + 1;
            assert(self.data@ =~= old(self).data@ + spaces(i as nat));
        }
    }

    /// Writes each line in turn.
    pub fn write_all(&mut self, lines: &Vec<String>)
        ensures
            final(self).path@ == old(self).path@,
            (final(self).data@, final(self).indent_width()) == write_lines(
                old(self).data@,
                old(self).indent_width(),
                crate::module::views(lines@),
            ),
    {
        let mut i: usize = 0;
        while i < lines.len()
            invariant
                i <= lines@.len(),
                self.path@ == old(self).path@,
                (self.data@, self.indent_width()) == write_lines(
                    old(self).data@,
                    old(self).indent_width(),
                    crate::module::views(lines@).take(i as int),
                ),
            decreases lines@.len() - i,
        {
            proof {
                let vs = crate::module::views(lines@);
                assert(vs.take(i as int + 1) =~= vs.take(i as int).push(lines@[i as int]@));
                lemma_write_lines_push(
                    old(self).data@,
                    old(self).indent_width(),
                    vs.take(i as int),
                    lines@[i as int]@,
                );
            }
            self.write(lines[i].as_str());
            i = i + 1;
        }
        assert(crate::module::views(lines@).take(i as int) =~= crate::module::views(lines@));
    }

    /// Writes `a` as the rows of an array initialiser, `lbreak` items to a row.
    pub fn write_array(&mut self, a: &Vec<String>, lbreak: u32)
        ensures
            final(self).path@ == old(self).path@,
            (final(self).data@, final(self).indent_width()) == write_lines(
                old(self).data@,
                old(self).indent_width(),
                array_rows(crate::module::views(a@), lbreak as nat),
            ),
    {
        let ghost items = crate::module::views(a@);
        let mut rows: Vec<String> = Vec::new();
        let mut l = String::new();
        let mut c: u32 = 0;
        let mut i: usize = 0;
        while i < a.len()
            invariant
                i <= a@.len(),
                items == crate::module::views(a@),
                array_state(items, lbreak as nat, i as nat) == (
                    crate::module::views(rows@),
                    l@,
                    c as nat,
                ),
                c < lbreak || (lbreak == 0 && c == 0),
            decreases a@.len() - i,
        {
            l.append(a[i].as_str());
            if i != a.len() - 1 {
                l.append(", ");
            }
            assert(items[i as int] == a@[i as int]@);
            if lbreak > 0 && c + 1 == lbreak {
                proof {
                    crate::module::lemma_views_push(rows@, l);
                }
                rows.push(l);
                l = String::new();
                c = 0;
            } else if lbreak > 0 {
                c = c + 1;
            }
            i = i + 1;
            assert(array_state(items, lbreak as nat, i as nat).1 =~= l@);
        }
        if l.unicode_len() > 0 {
            proof {
                crate::module::lemma_views_push(rows@, l);
            }
            rows.push(l);
        }
        self.write_all(&rows);
    }
}

} // verus!
