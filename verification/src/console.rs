//! `console.log`: one line for the standard output.

use crate::error::{BridgeError, ErrorView};
use crate::text::{join_with_spaces, join_words, signed_decimal, signed_decimal_text};
use crate::value::{GuestValue, ValueView};
use vstd::prelude::*;
use vstd::string::StringExecFns;

verus! {

/// The text of a value that has one of its own: a string is its own
/// text, a number is written in decimal, and `true`, `false`, `null` and
/// `undefined` are written as these words. Buffers, arrays, objects and
/// values of other kinds have no text of their own.
pub open spec fn rendering(value: ValueView) -> Option<Seq<char>> {
    match value {
        ValueView::Undefined => Some("undefined"@),
        ValueView::Null => Some("null"@),
        ValueView::Bool(true) => Some("true"@),
        ValueView::Bool(false) => Some("false"@),
        ValueView::Int(n) => Some(signed_decimal(n)),
        ValueView::Str(text) => Some(text),
        _ => None,
    }
}

/// The index of the first value without a text of its own; the length of
/// the sequence when every value has one.
pub open spec fn first_unrendered(args: Seq<ValueView>) -> int
    decreases args.len(),
{
    if args.len() == 0 {
        0
    } else {
        let before = first_unrendered(args.drop_last());
        if before < args.len() - 1 {
            before
        } else if rendering(args.last()) is None {
            args.len() - 1
        } else {
            args.len() as int
        }
    }
}

/// The texts of values that all have one.
pub open spec fn renderings(args: Seq<ValueView>) -> Seq<Seq<char>> {
    Seq::new(args.len(), |i: int| rendering(args[i])->Some_0)
}

/// The line that `console.log` writes: the texts of the arguments, joined
/// by single spaces, and a line feed. Where an argument has no text, the
/// call fails and names the first such argument.
pub open spec fn console_line_spec(args: Seq<ValueView>) -> Result<Seq<char>, ErrorView> {
    let at = first_unrendered(args);
    if at < args.len() {
        Err(ErrorView::NotStringifiable { index: at as nat })
    } else {
        Ok(join_with_spaces(renderings(args)) + seq!['\n'])
    }
}

/// The first value without a text is where `first_unrendered` says.
pub proof fn lemma_first_unrendered_is(args: Seq<ValueView>, at: int)
    requires
        0 <= at <= args.len(),
        at < args.len() ==> rendering(args[at]) is None,
        forall|i: int| 0 <= i < at ==> rendering(#[trigger] args[i]) is Some,
    ensures
        first_unrendered(args) == at,
    decreases args.len(),
{
    if args.len() > 0 {
        let before = args.drop_last();
        if at < args.len() {
            if at < args.len() - 1 {
                assert(before[at] == args[at]);
            }
            assert forall|i: int| 0 <= i < at implies rendering(#[trigger] before[i]) is Some by {
                assert(before[i] == args[i]);
            }
            lemma_first_unrendered_is(before, if at < args.len() - 1 {
                at
            } else {
                before.len() as int
            });
        } else {
            assert forall|i: int| 0 <= i < before.len() implies rendering(#[trigger] before[i])
                is Some by {
                assert(before[i] == args[i]);
            }
            lemma_first_unrendered_is(before, before.len() as int);
            assert(args.last() == args[args.len() - 1]);
        }
    }
}

/// The text of a value, if it has one of its own.
pub fn render(value: &GuestValue) -> (r: Option<String>)
    ensures
        match r {
            Some(text) => rendering(value@) == Some(text@),
            None => rendering(value@) is None,
        },
{
    match value {
        GuestValue::Undefined => Some(String::from_str("undefined")),
        GuestValue::Null => Some(String::from_str("null")),
        GuestValue::Bool(b) => if *b {
            Some(String::from_str("true"))
        } else {
            Some(String::from_str("false"))
        },
        GuestValue::Int(n) => Some(signed_decimal_text(*n)),
        GuestValue::Str(text) => Some(text.clone()),
        _ => None,
    }
}

/// The line that `console.log` writes for its arguments, with the line
/// feed at its end. The call takes any number of arguments.
pub fn console_log(args: &Vec<GuestValue>) -> (r: Result<String, BridgeError>)
    ensures
        match r {
            Ok(line) => console_line_spec(crate::bridge::args_view(args@)) == Ok::<
                Seq<char>,
                ErrorView,
            >(line@),
            Err(error) => console_line_spec(crate::bridge::args_view(args@)) == Err::<
                Seq<char>,
                ErrorView,
            >(error@),
        },
{
    let ghost all = crate::bridge::args_view(args@);
    let mut parts: Vec<String> = Vec::new();
    let mut i: usize = 0;
    while i < args.len()
        invariant
            i <= args.len(),
            parts@.len() == i,
            all == crate::bridge::args_view(args@),
            forall|j: int| 0 <= j < i ==> rendering(#[trigger] all[j]) == Some(parts@[j]@),
        decreases args.len() - i,
    {
        match render(&args[i]) {
            Some(text) => {
                parts.push(text);
            },
            None => {
                proof {
                    lemma_first_unrendered_is(all, i as int);
                }
                return Err(BridgeError::NotStringifiable { index: i });
            },
        }
        i = i + 1;
    }
    let mut line = join_words(&parts);
    proof {
        lemma_first_unrendered_is(all, all.len() as int);
        reveal_strlit("\n");
        assert(Seq::new(parts@.len(), |i: int| parts@[i]@) =~= renderings(all));
        assert("\n"@ =~= seq!['\n']);
    }
    line.append("\n");
    Ok(line)
}

} // verus!
