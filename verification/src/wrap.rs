use vstd::prelude::*;
use vstd::string::StringExecFns;

verus! {

/// The lines that wrapping a text at a width yields. The wrapping is a
/// pure function of the text and the width; this name stands for its
/// result.
pub uninterp spec fn wrapped_lines(text: Seq<char>, width: usize) -> Seq<Seq<char>>;

/// Relies on textwrap::wrap: breaks a text into lines no wider than
/// `width` where possible; the result depends on the text and the width
/// alone.
#[verifier::external_body]
fn wrap_text(text: &str, width: usize) -> (r: Vec<String>)
    ensures
        r.deep_view() == wrapped_lines(text@, width),
{
    textwrap::wrap(text, width).into_iter().map(|line| line.into_owned()).collect()
}

/// The lines joined by single newlines, with no trailing newline.
pub open spec fn join_lines_seq(lines: Seq<Seq<char>>) -> Seq<char>
    decreases lines.len(),
{
    if lines.len() == 0 {
        Seq::empty()
    } else if lines.len() == 1 {
        lines[0]
    } else {
        join_lines_seq(lines.drop_last()) + "\n"@ + lines.last()
    }
}

/// Joins lines with newlines.
pub fn join_lines(lines: &Vec<String>) -> (r: String)
    ensures
        r@ == join_lines_seq(lines.deep_view()),
{
    let ghost dv = lines.deep_view();
    let mut acc = String::new();
    let mut i: usize = 0;
    while i < lines.len()
        invariant
            i <= lines@.len(),
            dv == lines.deep_view(),
            dv.len() == lines@.len(),
            acc@ == join_lines_seq(dv.take(i as int)),
        decreases lines@.len() - i,
    {
        if i > 0 {
            acc.append("\n");
        }
        acc.append(lines[i].as_str());
        proof {
            assert(dv.take(i + 1).drop_last() =~= dv.take(i as int));
            assert(dv.take(i + 1).last() == dv[i as int]);
            assert(acc@ =~= join_lines_seq(dv.take(i + 1)));
        }
        i = i + 1;
    }
    proof {
        assert(dv.take(dv.len() as int) =~= dv);
    }
    acc
}

/// Formats an assistant reply for terminal display: wraps it at the
/// given width and joins the lines with newlines.
pub fn format_reply(text: &str, width: usize) -> (r: String)
    ensures
        r@ == join_lines_seq(wrapped_lines(text@, width)),
{
    let lines = wrap_text(text, width);
    join_lines(&lines)
}

} // verus!
