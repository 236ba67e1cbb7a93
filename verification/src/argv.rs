//! How a child splits its command line into arguments, by the rules of the
//! Microsoft C runtime, and the proof that the command lines built by
//! [`crate::cmdline`] split back into the program and the arguments they
//! were built from.
//!
//! The rules: unquoted spaces and tabs separate arguments; a double quote
//! preceded by an even number of backslashes (`2n`) yields `n` backslashes
//! and opens or closes a quoted part; preceded by an odd number (`2n + 1`)
//! it yields `n` backslashes and a literal double quote; other backslashes
//! are literal; within a quoted part, `""` yields a literal double quote.
use vstd::prelude::*;
use crate::cmdline::{backslashes, is_special, needs_quote, quote_fold, spec_command_line, spec_quote_arg};

verus! {

/// Where the splitting of a command line stands.
pub struct ArgvState {
    /// Arguments completed so far.
    pub done: Seq<Seq<char>>,
    /// The argument being read, without the backslashes not yet placed.
    pub cur: Seq<char>,
    /// Whether an argument is being read.
    pub in_arg: bool,
    /// Backslashes read and not yet placed.
    pub bs: nat,
    /// Whether a quoted part is open.
    pub quoted: bool,
    /// Whether the previous character closed a quoted part.
    pub closed: bool,
}

/// Between arguments, after `done`.
pub open spec fn between(done: Seq<Seq<char>>) -> ArgvState {
    ArgvState { done, cur: Seq::empty(), in_arg: false, bs: 0, quoted: false, closed: false }
}

/// One character of the command line.
pub open spec fn argv_step(st: ArgvState, c: char) -> ArgvState {
    if c == '\\' {
        ArgvState { bs: st.bs + 1, in_arg: true, closed: false, ..st }
    } else if c == '"' {
        let cur = st.cur + backslashes(st.bs / 2);
        if st.bs % 2 == 1 {
            ArgvState { cur: cur.push('"'), bs: 0, in_arg: true, closed: false, ..st }
        } else if st.quoted {
            ArgvState { cur, bs: 0, in_arg: true, quoted: false, closed: true, ..st }
        } else if st.closed {
            ArgvState { cur: cur.push('"'), bs: 0, in_arg: true, quoted: true, closed: false, ..st }
        } else {
            ArgvState { cur, bs: 0, in_arg: true, quoted: true, closed: false, ..st }
        }
    } else if (c == ' ' || c == '\t') && !st.quoted {
        if st.in_arg {
            between(st.done.push(st.cur + backslashes(st.bs)))
        } else {
            ArgvState { closed: false, ..st }
        }
    } else {
        ArgvState { cur: st.cur + backslashes(st.bs) + seq![c], bs: 0, in_arg: true, closed: false, ..st }
    }
}

/// The characters of `s` read from the state `st`.
pub open spec fn argv_fold(st: ArgvState, s: Seq<char>) -> ArgvState
    decreases s.len(),
{
    if s.len() == 0 {
        st
    } else {
        argv_step(argv_fold(st, s.drop_last()), s.last())
    }
}

/// The arguments once the command line has ended.
pub open spec fn argv_finish(st: ArgvState) -> Seq<Seq<char>> {
    if st.in_arg {
        st.done.push(st.cur + backslashes(st.bs))
    } else {
        st.done
    }
}

/// The arguments a command line splits into.
pub open spec fn parse_argv(line: Seq<char>) -> Seq<Seq<char>> {
    argv_finish(argv_fold(between(Seq::empty()), line))
}

/// An argument has been read up to its end: after `done`, and reading
/// it ends in `arg` without an open quoted part.
pub open spec fn token_end(st: ArgvState, done: Seq<Seq<char>>, arg: Seq<char>) -> bool {
    &&& st.done == done
    &&& st.in_arg
    &&& !st.quoted
    &&& st.cur + backslashes(st.bs) == arg
}

proof fn lemma_fold_concat(st: ArgvState, a: Seq<char>, b: Seq<char>)
    ensures
        argv_fold(st, a + b) == argv_fold(argv_fold(st, a), b),
    decreases b.len(),
{
    if b.len() == 0 {
        assert(a + b =~= a);
    } else {
        lemma_fold_concat(st, a, b.drop_last());
        assert((a + b).drop_last() =~= a + b.drop_last());
        assert((a + b).last() == b.last());
    }
}

proof fn lemma_fold_one(st: ArgvState, c: char)
    ensures
        argv_fold(st, seq![c]) == argv_step(st, c),
{
    let s = seq![c];
    assert(s.drop_last() =~= Seq::<char>::empty());
    assert(argv_fold(st, s.drop_last()) == st);
    assert(s.last() == c);
}

proof fn lemma_backslashes_push(n: nat)
    ensures
        backslashes(n + 1) == backslashes(n).push('\\'),
        backslashes(n + 1).drop_last() == backslashes(n),
        backslashes(n + 1).last() == '\\',
{
    assert(backslashes(n + 1) =~= backslashes(n).push('\\'));
    assert(backslashes(n + 1).drop_last() =~= backslashes(n));
}

proof fn lemma_backslashes_add(m: nat, n: nat)
    ensures
        backslashes(m) + backslashes(n) == backslashes(m + n),
{
    assert(backslashes(m) + backslashes(n) =~= backslashes(m + n));
}

proof fn lemma_fold_backslashes(st: ArgvState, n: nat)
    ensures
        argv_fold(st, backslashes(n)) == (if n == 0 { st } else { (ArgvState { bs: st.bs + n, in_arg: true, closed: false, ..st }) }),
    decreases n,
{
    if n == 0 {
        assert(backslashes(0) =~= Seq::<char>::empty());
    } else {
        lemma_backslashes_push((n - 1) as nat);
        lemma_fold_backslashes(st, (n - 1) as nat);
    }
}

/// The backslashes that quoting holds back are the trailing backslashes of
/// what was read.
proof fn lemma_held_are_trailing(s: Seq<char>)
    ensures
        quote_fold(s).1 <= s.len(),
        s.subrange(s.len() - quote_fold(s).1, s.len() as int) == backslashes(quote_fold(s).1),
    decreases s.len(),
{
    if s.len() == 0 {
        assert(s.subrange(0, 0) =~= backslashes(0));
    } else {
        lemma_held_are_trailing(s.drop_last());
        let h = quote_fold(s.drop_last()).1;
        if s.last() == '\\' {
            let p = s.drop_last();
            assert(s.subrange(s.len() - (h + 1), s.len() as int) =~= p.subrange(p.len() - h, p.len() as int).push('\\'));
            lemma_backslashes_push(h);
        } else {
            assert(s.subrange(s.len() as int, s.len() as int) =~= backslashes(0));
        }
    }
}

/// Reading the quoted body of `s` inside a quoted part places all of `s`
/// but the backslashes held back.
proof fn lemma_fold_quoted_body(st: ArgvState, s: Seq<char>)
    requires
        st.quoted,
        st.bs == 0,
        st.in_arg,
        !st.closed,
    ensures
        argv_fold(st, quote_fold(s).0) == (ArgvState { cur: st.cur + s.take(s.len() - quote_fold(s).1), ..st }),
    decreases s.len(),
{
    if s.len() == 0 {
        assert(quote_fold(s).0 =~= Seq::<char>::empty());
        assert(st.cur + s.take(0) =~= st.cur);
    } else {
        let p = s.drop_last();
        let c = s.last();
        let (body, h) = quote_fold(p);
        lemma_fold_quoted_body(st, p);
        lemma_held_are_trailing(p);
        let mid = argv_fold(st, body);
        assert(mid == ArgvState { cur: st.cur + p.take(p.len() - h), ..st });
        // The held backslashes complete the prefix.
        assert(p.take(p.len() - h) + backslashes(h) =~= p) by {
            assert(p.subrange(p.len() - h, p.len() as int) == backslashes(h));
        }
        let goal = ArgvState { cur: st.cur + s.take(s.len() - quote_fold(s).1), ..st };
        if c == '\\' {
            assert(s.take(s.len() - (h + 1)) =~= p.take(p.len() - h));
            assert(quote_fold(s) == (body, h + 1));
            assert(argv_fold(st, quote_fold(s).0) == goal);
        } else if c == '"' {
            let tail = backslashes(2 * h) + seq!['\\', '"'];
            lemma_fold_concat(st, body, tail);
            lemma_backslashes_add(2 * h, 1);
            assert(tail =~= backslashes(2 * h + 1) + seq!['"']);
            lemma_fold_concat(mid, backslashes(2 * h + 1), seq!['"']);
            lemma_fold_backslashes(mid, 2 * h + 1);
            let m2 = argv_fold(mid, backslashes(2 * h + 1));
            assert((2 * h + 1) % 2 == 1 && (2 * h + 1) / 2 == h) by (nonlinear_arith);
            lemma_fold_one(m2, '"');
            assert(st.cur + p.take(p.len() - h) + backslashes(h) =~= st.cur + p);
            assert(s.take(s.len() as int) =~= p.push('"'));
            assert((st.cur + p).push('"') =~= st.cur + s.take(s.len() as int));
            assert(quote_fold(s) == (body + tail, 0nat));
            assert(argv_fold(st, quote_fold(s).0) == argv_step(m2, '"'));
            assert(argv_fold(st, quote_fold(s).0) == goal);
        } else {
            let tail = backslashes(h) + seq![c];
            lemma_fold_concat(st, body, tail);
            lemma_fold_concat(mid, backslashes(h), seq![c]);
            lemma_fold_backslashes(mid, h);
            let m2 = argv_fold(mid, backslashes(h));
            lemma_fold_one(m2, c);
            assert(st.cur + p.take(p.len() - h) + backslashes(h) + seq![c] =~= st.cur + s.take(s.len() as int));
            assert(quote_fold(s) == (body + tail, 0nat));
            assert(argv_fold(st, quote_fold(s).0) == argv_step(m2, c));
            assert(m2.quoted && m2.cur == mid.cur);
            assert(argv_step(m2, c).cur == mid.cur + backslashes(m2.bs) + seq![c]);
            assert(argv_fold(st, quote_fold(s).0) == goal);
        }
    }
}

/// Reading an argument that needs no quoting, from between arguments.
proof fn lemma_fold_plain(done: Seq<Seq<char>>, s: Seq<char>)
    requires
        forall|j: int| 0 <= j < s.len() ==> !is_special(#[trigger] s[j]),
    ensures
        ({
            let t = argv_fold(between(done), s);
            &&& t.done == done
            &&& t.in_arg == (s.len() > 0)
            &&& !t.quoted
            &&& !t.closed
            &&& t.cur + backslashes(t.bs) == s
        }),
    decreases s.len(),
{
    if s.len() == 0 {
        assert(Seq::<char>::empty() + backslashes(0) =~= s);
    } else {
        let p = s.drop_last();
        assert forall|j: int| 0 <= j < p.len() implies !is_special(#[trigger] p[j]) by {
            assert(p[j] == s[j]);
        }
        lemma_fold_plain(done, p);
        let t = argv_fold(between(done), p);
        let c = s.last();
        assert(!is_special(s[s.len() - 1]));
        if c == '\\' {
            lemma_backslashes_push(t.bs);
            assert(t.cur + backslashes(t.bs + 1) =~= (t.cur + backslashes(t.bs)).push('\\'));
            assert(p.push('\\') =~= s);
        } else {
            assert(t.cur + backslashes(t.bs) + seq![c] =~= s);
            assert(t.cur + backslashes(t.bs) + seq![c] + backslashes(0) =~= s);
        }
    }
}

/// Reading the command-line form of an argument, from between arguments,
/// ends at the end of that argument.
proof fn lemma_fold_quoted_arg(done: Seq<Seq<char>>, a: Seq<char>)
    ensures
        token_end(argv_fold(between(done), spec_quote_arg(a)), done, a),
{
    if !needs_quote(a) {
        assert forall|j: int| 0 <= j < a.len() implies !is_special(#[trigger] a[j]) by {}
        lemma_fold_plain(done, a);
    } else {
        let (body, h) = quote_fold(a);
        let st0 = between(done);
        let open = seq!['"'];
        let close = backslashes(2 * h) + seq!['"'];
        assert(spec_quote_arg(a) =~= open + body + close);
        lemma_fold_concat(st0, open + body, close);
        lemma_fold_concat(st0, open, body);
        let st1 = argv_fold(st0, open);
        lemma_fold_one(st0, '"');
        lemma_fold_quoted_body(st1, a);
        let st2 = argv_fold(st1, body);
        lemma_held_are_trailing(a);
        lemma_fold_concat(st2, backslashes(2 * h), seq!['"']);
        lemma_fold_backslashes(st2, 2 * h);
        let st3 = argv_fold(st2, backslashes(2 * h));
        lemma_fold_one(st3, '"');
        assert((2 * h) % 2 == 0 && (2 * h) / 2 == h) by (nonlinear_arith);
        assert(a.take(a.len() - h) + backslashes(h) =~= a) by {
            assert(a.subrange(a.len() - h, a.len() as int) == backslashes(h));
        }
        assert(Seq::<char>::empty() + a.take(a.len() - h) + backslashes(h) + backslashes(0) =~= a);
    }
}

/// Reading a command line built from a program and its arguments ends at
/// the end of its last part, with the earlier parts completed.
proof fn lemma_fold_command_line(p: Seq<char>, args: Seq<Seq<char>>)
    ensures
        args.len() == 0 ==> token_end(argv_fold(between(Seq::empty()), spec_command_line(p, args)), Seq::empty(), p),
        args.len() > 0 ==> token_end(
            argv_fold(between(Seq::empty()), spec_command_line(p, args)),
            seq![p] + args.drop_last(),
            args.last(),
        ),
    decreases args.len(),
{
    if args.len() == 0 {
        lemma_fold_quoted_arg(Seq::empty(), p);
    } else {
        let prev = args.drop_last();
        lemma_fold_command_line(p, prev);
        let line0 = spec_command_line(p, prev);
        let t = argv_fold(between(Seq::empty()), line0);
        let last_done = if prev.len() == 0 { Seq::<Seq<char>>::empty() } else { seq![p] + prev.drop_last() };
        let last_arg = if prev.len() == 0 { p } else { prev.last() };
        assert(token_end(t, last_done, last_arg));
        lemma_fold_concat(between(Seq::empty()), line0 + seq![' '], spec_quote_arg(args.last()));
        lemma_fold_concat(between(Seq::empty()), line0, seq![' ']);
        let t1 = argv_fold(t, seq![' ']);
        lemma_fold_one(t, ' ');
        assert(seq![p] + prev =~= last_done.push(last_arg)) by {
            if prev.len() > 0 {
                assert(prev =~= prev.drop_last().push(prev.last()));
            }
        }
        assert(t1 == between(seq![p] + prev));
        lemma_fold_quoted_arg(seq![p] + prev, args.last());
        assert(prev =~= args.drop_last());
    }
}

/// A command line built from a program and its arguments splits back, by
/// the runtime's rules, into exactly that program and those arguments.
pub proof fn lemma_command_line_parses_back(p: Seq<char>, args: Seq<Seq<char>>)
    ensures
        parse_argv(spec_command_line(p, args)) == seq![p] + args,
{
    lemma_fold_command_line(p, args);
    if args.len() == 0 {
        assert(Seq::<Seq<char>>::empty().push(p) =~= seq![p] + args);
    } else {
        assert((seq![p] + args.drop_last()).push(args.last()) =~= seq![p] + args);
    }
}

} // verus!
