//! Turning the lines of a text buffer into the one line that is submitted.
use vstd::prelude::*;

verus! {

/// The lines joined, with one space between each two.
pub open spec fn joined(lines: Seq<Seq<char>>) -> Seq<char>
    decreases lines.len(),
{
    if lines.len() == 0 {
        Seq::empty()
    } else if lines.len() == 1 {
        lines[0]
    } else {
        joined(lines.drop_last()) + seq![' '] + lines.last()
    }
}

/// The text without its line feeds and carriage returns.
pub open spec fn stripped(text: Seq<char>) -> Seq<char>
    decreases text.len(),
{
    if text.len() == 0 {
        Seq::empty()
    } else if text.last() == '\n' || text.last() == '\r' {
        stripped(text.drop_last())
    } else {
        stripped(text.drop_last()).push(text.last())
    }
}

/// The single line that a buffer of lines is submitted as: the lines joined
/// by spaces, line breaks taken out.
pub open spec fn collapsed(lines: Seq<Seq<char>>) -> Seq<char> {
    stripped(joined(lines))
}

/// What is stripped holds no line break.
pub proof fn lemma_stripped_single_line(text: Seq<char>)
    ensures
        !stripped(text).contains('\n'),
        !stripped(text).contains('\r'),
    decreases text.len(),
{
    if text.len() > 0 {
        lemma_stripped_single_line(text.drop_last());
        let rest = stripped(text.drop_last());
        if !(text.last() == '\n' || text.last() == '\r') {
            assert forall|i: int| 0 <= i < rest.push(text.last()).len() implies rest.push(
                text.last(),
            )[i] != '\n' && rest.push(text.last())[i] != '\r' by {
                if i < rest.len() {
                    assert(rest.contains(rest[i]));
                }
            }
        }
    }
}

/// A text without line breaks is stripped to itself.
pub proof fn lemma_stripped_keeps(text: Seq<char>)
    requires
        !text.contains('\n'),
        !text.contains('\r'),
    ensures
        stripped(text) == text,
    decreases text.len(),
{
    if text.len() > 0 {
        assert(text.contains(text.last()));
        assert forall|c: char| text.drop_last().contains(c) implies text.contains(c) by {
            let i = choose|i: int| 0 <= i < text.drop_last().len() && text.drop_last()[i] == c;
            assert(text[i] == c);
        }
        lemma_stripped_keeps(text.drop_last());
        assert(text.drop_last().push(text.last()) =~= text);
    }
}

/// A single line without line breaks is submitted as it is.
pub proof fn lemma_single_line_collapses_to_itself(text: Seq<char>)
    requires
        !text.contains('\n'),
        !text.contains('\r'),
    ensures
        collapsed(seq![text]) == text,
{
    lemma_stripped_keeps(text);
    assert(joined(seq![text]) == text);
}

/// The lines joined by spaces, line breaks taken out.
pub fn collapse(lines: &Vec<String>) -> (r: String)
    ensures
        r@ == collapsed(crate::controller::popup::buffer::line_views(lines@)),
{
    let ghost views = crate::controller::popup::buffer::line_views(lines@);
    let mut out = String::new();
    let ghost mut whole: Seq<char> = Seq::empty();
    let mut i: usize = 0;
    while i < lines.len()
        invariant
            i <= lines.len(),
            views == crate::controller::popup::buffer::line_views(lines@),
            whole == joined(views.take(i as int)),
            out@ == stripped(whole),
        decreases lines.len() - i,
    {
        if i > 0 {
            out.push(' ');
            proof {
                assert(whole.push(' ').drop_last() =~= whole);
                whole = whole.push(' ');
            }
        }
        let line = lines[i].as_str();
        let n = line.unicode_len();
        let ghost start = whole;
        let mut j: usize = 0;
        while j < n
            invariant
                j <= n,
                n == line@.len(),
                whole == start + line@.take(j as int),
                out@ == stripped(whole),
            decreases n - j,
        {
            let c = line.get_char(j);
            proof {
                assert(line@.take(j as int + 1) =~= line@.take(j as int).push(c));
                assert(whole.push(c).drop_last() =~= whole);
                assert(whole.push(c) =~= start + line@.take(j as int + 1));
                whole = whole.push(c);
            }
            if !(c == '\n' || c == '\r') {
                out.push(c);
            }
            j += 1;
        }
        proof {
            assert(line@.take(n as int) =~= line@);
            let next = views.take(i as int + 1);
            assert(next.drop_last() =~= views.take(i as int));
            assert(next.last() == line@);
            if i == 0 {
                assert(whole =~= line@);
            } else {
                assert(whole =~= joined(views.take(i as int)) + seq![' '] + line@);
            }
        }
        i += 1;
    }
    proof {
        assert(views.take(lines.len() as int) =~= views);
    }
    out
}

} // verus!
