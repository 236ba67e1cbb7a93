//! Building a Win32 command line from a program name and its arguments.
use vstd::prelude::*;
use crate::wide::{extend_utf16, utf16};

verus! {

/// `String::push`: appends one character to a string.
#[verifier::external_body]
pub(crate) fn push_char(s: &mut String, c: char)
    ensures
        final(s)@ == old(s)@.push(c),
{
    s.push(c);
}

/// `n` backslashes.
pub open spec fn backslashes(n: nat) -> Seq<char> {
    Seq::new(n, |_i: int| '\\')
}

/// Characters that force an argument to be quoted.
pub open spec fn is_special(c: char) -> bool {
    c == ' ' || c == '"' || c == '\t'
}

/// An argument must be quoted when it is empty or holds a space, a tab or
/// a double quote.
pub open spec fn needs_quote(s: Seq<char>) -> bool {
    s.len() == 0 || exists|j: int| 0 <= j < s.len() && is_special(#[trigger] s[j])
}

/// One step of quoting: backslashes are held back until the next character
/// shows whether they precede a quote (then doubled, and the quote escaped)
/// or not (then kept as they are).
pub open spec fn quote_step(acc: (Seq<char>, nat), c: char) -> (Seq<char>, nat) {
    if c == '\\' {
        (acc.0, acc.1 + 1)
    } else if c == '"' {
        (acc.0 + backslashes(2 * acc.1) + seq!['\\', '"'], 0)
    } else {
        (acc.0 + backslashes(acc.1) + seq![c], 0)
    }
}

/// The quoted body of `s` so far, and the backslashes still held back.
pub open spec fn quote_fold(s: Seq<char>) -> (Seq<char>, nat)
    decreases s.len(),
{
    if s.len() == 0 {
        (Seq::empty(), 0)
    } else {
        quote_step(quote_fold(s.drop_last()), s.last())
    }
}

/// An argument as it appears on a Win32 command line: unchanged when it
/// needs no quoting, otherwise in double quotes with backslashes before a
/// quote (or before the closing quote) doubled and inner quotes escaped.
pub open spec fn spec_quote_arg(s: Seq<char>) -> Seq<char> {
    if !needs_quote(s) {
        s
    } else {
        let (body, held) = quote_fold(s);
        seq!['"'] + body + backslashes(2 * held) + seq!['"']
    }
}

/// A program and its arguments joined into one command line.
pub open spec fn spec_command_line(program: Seq<char>, args: Seq<Seq<char>>) -> Seq<char>
    decreases args.len(),
{
    if args.len() == 0 {
        spec_quote_arg(program)
    } else {
        spec_command_line(program, args.drop_last()) + seq![' '] + spec_quote_arg(args.last())
    }
}

/// The text views of a list of strings.
pub open spec fn strings_view(v: Seq<String>) -> Seq<Seq<char>> {
    v.map_values(|s: String| s@)
}

fn push_backslashes(out: &mut String, n: usize)
    ensures
        final(out)@ == old(out)@ + backslashes(n as nat),
{
    let mut k: usize = 0;
    while k < n
        invariant
            k <= n,
            out@ == old(out)@ + backslashes(k as nat),
        decreases n - k,
    {
        push_char(out, '\\');
        proof {
            assert(old(out)@ + backslashes((k + 1) as nat) =~= (old(out)@ + backslashes(k as nat)).push('\\'));
        }
        k = k + 1;
    }
}

fn push_doubled_backslashes(out: &mut String, n: usize)
    ensures
        final(out)@ == old(out)@ + backslashes(2 * n as nat),
{
    let mut k: usize = 0;
    while k < n
        invariant
            k <= n,
            out@ == old(out)@ + backslashes(2 * k as nat),
        decreases n - k,
    {
        push_char(out, '\\');
        push_char(out, '\\');
        proof {
            assert(old(out)@ + backslashes(2 * (k + 1) as nat) =~= (old(out)@ + backslashes(2 * k as nat)).push('\\').push('\\'));
        }
        k = k + 1;
    }
}

/// Whether `arg` must be quoted on a command line.
pub fn arg_needs_quote(arg: &str) -> (b: bool)
    ensures
        b == needs_quote(arg@),
{
    let n = arg.unicode_len();
    if n == 0 {
        return true;
    }
    let mut i: usize = 0;
    while i < n
        invariant
            n == arg@.len(),
            i <= n,
            forall|j: int| 0 <= j < i ==> !is_special(#[trigger] arg@[j]),
        decreases n - i,
    {
        let c = arg.get_char(i);
        if c == ' ' || c == '"' || c == '\t' {
            return true;
        }
        i = i + 1;
    }
    false
}

/// Appends `arg` to `out`, quoted as a Win32 command line expects it.
pub fn quote_arg(out: &mut String, arg: &str)
    ensures
        final(out)@ == old(out)@ + spec_quote_arg(arg@),
{
    if !arg_needs_quote(arg) {
        let n = arg.unicode_len();
        let mut i: usize = 0;
        while i < n
            invariant
                n == arg@.len(),
                i <= n,
                out@ == old(out)@ + arg@.take(i as int),
            decreases n - i,
        {
            let c = arg.get_char(i);
            push_char(out, c);
            proof {
                assert(arg@.take(i + 1) =~= arg@.take(i as int).push(c));
            }
            i = i + 1;
        }
        proof {
            assert(arg@.take(n as int) =~= arg@);
        }
        return;
    }
    push_char(out, '"');
    let ghost start = out@;
    let n = arg.unicode_len();
    let mut held: usize = 0;
    let mut i: usize = 0;
    while i < n
        invariant
            n == arg@.len(),
            i <= n,
            held <= i,
            start == old(out)@.push('"'),
            out@ == start + quote_fold(arg@.take(i as int)).0,
            held as nat == quote_fold(arg@.take(i as int)).1,
        decreases n - i,
    {
        let c = arg.get_char(i);
        let ghost prev = arg@.take(i as int);
        proof {
            assert(arg@.take(i + 1) =~= prev.push(c));
            assert(prev.push(c).drop_last() =~= prev);
        }
        if c == '\\' {
            held = held + 1;
        } else if c == '"' {
            push_doubled_backslashes(out, held);
            push_char(out, '\\');
            push_char(out, '"');
            held = 0;
            proof {
                assert(out@ =~= start + (quote_fold(prev).0 + backslashes(2 * quote_fold(prev).1) + seq!['\\', '"']));
            }
        } else {
            push_backslashes(out, held);
            push_char(out, c);
            held = 0;
            proof {
                assert(out@ =~= start + (quote_fold(prev).0 + backslashes(quote_fold(prev).1) + seq![c]));
            }
        }
        i = i + 1;
    }
    push_doubled_backslashes(out, held);
    push_char(out, '"');
    proof {
        assert(arg@.take(n as int) =~= arg@);
        let (body, h) = quote_fold(arg@);
        assert(out@ =~= old(out)@ + (seq!['"'] + body + backslashes(2 * h) + seq!['"']));
    }
}

/// Joins a program and its arguments into a null-terminated UTF-16 command
/// line, quoting each of them as needed.
pub fn build_command_line(program: &str, args: &Vec<String>) -> (w: Vec<u16>)
    ensures
        w@ == utf16(spec_command_line(program@, strings_view(args@))).push(0),
{
    let mut line = String::new();
    quote_arg(&mut line, program);
    let mut i: usize = 0;
    while i < args.len()
        invariant
            i <= args.len(),
            line@ == spec_command_line(program@, strings_view(args@).take(i as int)),
        decreases args.len() - i,
    {
        push_char(&mut line, ' ');
        quote_arg(&mut line, args[i].as_str());
        proof {
            let t = strings_view(args@).take(i + 1);
            assert(t.drop_last() =~= strings_view(args@).take(i as int));
            assert(t.last() == args@[i as int]@);
        }
        i = i + 1;
    }
    proof {
        assert(strings_view(args@).take(args.len() as int) =~= strings_view(args@));
    }
    let mut w = Vec::new();
    extend_utf16(&mut w, line.as_str());
    w.push(0);
    proof {
        assert(w@ =~= utf16(line@).push(0));
    }
    w
}

} // verus!
