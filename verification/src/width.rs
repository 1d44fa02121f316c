//! How many columns text takes on the screen.

use unicode_width::{UnicodeWidthChar, UnicodeWidthStr};
use vstd::prelude::*;

verus! {

broadcast use vstd::string::group_string_axioms;

/// A character that takes one column wherever it stands: printable ASCII, and the signs that
/// frame and mark what is drawn.
pub open spec fn narrow_char(c: char) -> bool {
    let n = c as u32;
    ||| 0x20 <= n <= 0x7e
    ||| 0x2500 <= n <= 0x257f
    ||| c == '•'
    ||| c == '…'
    ||| c == '☐'
    ||| c == '☑'
}

/// A text of characters that take one column each.
pub open spec fn narrow(s: Seq<char>) -> bool {
    forall|i: int| 0 <= i < s.len() ==> narrow_char(#[trigger] s[i])
}

/// The place of the first blank in a text, its length if there is none.
pub open spec fn first_blank(s: Seq<char>) -> int
    decreases s.len(),
{
    if s.len() == 0 || s[0] == ' ' {
        0
    } else {
        1 + first_blank(s.skip(1))
    }
}

proof fn first_blank_is_first(s: Seq<char>)
    ensures
        0 <= first_blank(s) <= s.len(),
        first_blank(s) < s.len() ==> s[first_blank(s)] == ' ',
        forall|i: int| 0 <= i < first_blank(s) ==> #[trigger] s[i] != ' ',
    decreases s.len(),
{
    if s.len() > 0 && s[0] != ' ' {
        let rest = s.skip(1);
        first_blank_is_first(rest);
        assert forall|i: int| 0 <= i < first_blank(s) implies #[trigger] s[i] != ' ' by {
            if i > 0 {
                assert(rest[i - 1] == s[i]);
            }
        }
    }
}

/// The columns of a character that is not narrow, as `unicode-width` counts them; `None` for
/// a control character.
pub uninterp spec fn other_columns(c: char) -> Option<usize>;

/// The columns of a text that is not narrow and holds no blank, as `unicode-width` counts
/// them.
pub uninterp spec fn solid_columns(s: Seq<char>) -> usize;

/// The columns of a character; `None` for a control character.
pub open spec fn char_columns(c: char) -> Option<usize> {
    if narrow_char(c) {
        Some(1)
    } else {
        other_columns(c)
    }
}

/// The columns of a text: as many as it has characters where it is narrow. A blank takes one
/// column, and what stands before and behind it counts as it would alone.
#[verifier::opaque]
pub open spec fn text_columns(s: Seq<char>) -> nat
    decreases s.len(),
{
    if narrow(s) {
        s.len()
    } else {
        let i = first_blank(s);
        if 0 <= i < s.len() {
            text_columns(s.take(i)) + 1 + text_columns(s.skip(i + 1))
        } else {
            solid_columns(s) as nat
        }
    }
}

/// `unicode_width::UnicodeWidthChar::width`: at most three columns, and one for the
/// characters called narrow here.
#[verifier::external_body]
pub(crate) fn char_width(c: char) -> (r: Option<usize>)
    ensures
        r == if narrow_char(c) {
            Some(1usize)
        } else {
            other_columns(c)
        },
        r matches Some(w) ==> w <= 3,
{
    UnicodeWidthChar::width(c)
}

/// `unicode_width::UnicodeWidthStr::width`: one column for each character of a narrow text.
/// It reads a text from its end, and nothing that stands behind a blank changes what stands
/// before it.
#[verifier::external_body]
pub(crate) fn text_width(s: &str) -> (r: usize)
    ensures
        r == text_columns(s@),
        !narrow(s@) && first_blank(s@) == s@.len() ==> r == solid_columns(s@),
{
    UnicodeWidthStr::width(s)
}

/// A narrow text takes as many columns as it has characters.
pub proof fn narrow_is_as_wide(s: Seq<char>)
    requires
        narrow(s),
    ensures
        text_columns(s) == s.len(),
{
    reveal(text_columns);
}

/// Two texts with a blank between them take the columns of both and one more.
pub proof fn blanks_part_texts(a: Seq<char>, b: Seq<char>)
    ensures
        text_columns(a.push(' ') + b) == text_columns(a) + 1 + text_columns(b),
    decreases a.len(),
{
    reveal(text_columns);
    let all = a.push(' ') + b;
    assert(narrow_char(' '));
    if narrow(all) {
        assert forall|i: int| 0 <= i < a.len() implies narrow_char(#[trigger] a[i]) by {
            assert(all[i] == a[i]);
        }
        assert forall|i: int| 0 <= i < b.len() implies narrow_char(#[trigger] b[i]) by {
            assert(all[a.len() + 1 + i] == b[i]);
        }
        assert(text_columns(all) == all.len());
        assert(text_columns(a) == a.len());
        assert(text_columns(b) == b.len());
    } else {
        let i = first_blank(all);
        first_blank_is_first(all);
        assert(all[a.len() as int] == ' ');
        assert(i <= a.len());
        if i == a.len() {
            assert(all.take(i) =~= a);
            assert(all.skip(i + 1) =~= b);
            assert(text_columns(all) == text_columns(a) + 1 + text_columns(b));
        } else {
            let front = a.take(i);
            let rest = a.skip(i + 1);
            assert(all[i] == a[i]);
            assert(all.take(i) =~= front);
            assert(all.skip(i + 1) =~= rest.push(' ') + b);
            blanks_part_texts(rest, b);
            first_blank_is_first(a);
            assert(first_blank(a) == i) by {
                let j = first_blank(a);
                if j < i {
                    assert(all[j] == a[j]);
                }
            }
            if narrow(a) {
                assert forall|k: int| 0 <= k < front.len() implies narrow_char(
                    #[trigger] front[k],
                ) by {
                    assert(front[k] == a[k]);
                }
                assert forall|k: int| 0 <= k < rest.len() implies narrow_char(
                    #[trigger] rest[k],
                ) by {
                    assert(rest[k] == a[i + 1 + k]);
                }
                assert(text_columns(front) == front.len());
                assert(text_columns(rest) == rest.len());
                assert(text_columns(a) == a.len());
            } else {
                assert(text_columns(a) == text_columns(front) + 1 + text_columns(rest));
            }
            assert(text_columns(all) == text_columns(front) + 1 + text_columns(
                rest.push(' ') + b,
            ));
        }
    }
}

/// The columns of a character, with none for a control character.
pub open spec fn cells(c: char) -> int {
    match char_columns(c) {
        Some(w) => w as int,
        None => 0,
    }
}

/// The columns of a character, with none for a control character.
pub fn char_cells(c: char) -> (r: usize)
    ensures
        r == cells(c),
        r <= 3,
{
    match char_width(c) {
        Some(w) => w,
        None => 0,
    }
}

} // verus!
