use vstd::prelude::*;

use crate::elevation::args_view;
use crate::text::{concat, owned};

verus! {

/// `n` backslashes.
pub open spec fn backslashes(n: nat) -> Seq<char> {
    Seq::new(n, |i: int| '\\')
}

/// Whether a character separates arguments outside quotes (space or tab).
pub open spec fn is_blank(c: char) -> bool {
    c == ' ' || c == '\t'
}

/// The number of backslashes at the front of `s`.
pub open spec fn bs_run(s: Seq<char>) -> nat
    decreases s.len(),
{
    if s.len() > 0 && s[0] == '\\' {
        1 + bs_run(s.drop_first())
    } else {
        0
    }
}

/// Whether the backslashes at the front of `s` are followed by a quote or by
/// the end: only then do they need doubling inside a quoted argument.
pub open spec fn run_before_quote_or_end(s: Seq<char>) -> bool {
    let r = s.skip(bs_run(s) as int);
    r.len() == 0 || r[0] == '"'
}

/// The text of an argument inside its quotes: a quote becomes `\"`, and every
/// backslash of a run that is followed by a quote or by the end is doubled;
/// everything else is kept.
pub open spec fn escape_spec(a: Seq<char>) -> Seq<char>
    decreases a.len(),
{
    if a.len() == 0 {
        Seq::empty()
    } else if a[0] == '"' {
        seq!['\\', '"'] + escape_spec(a.drop_first())
    } else if a[0] == '\\' {
        (if run_before_quote_or_end(a) {
            seq!['\\', '\\']
        } else {
            seq!['\\']
        }) + escape_spec(a.drop_first())
    } else {
        seq![a[0]] + escape_spec(a.drop_first())
    }
}

/// An argument between double quotes.
pub open spec fn quote_spec(a: Seq<char>) -> Seq<char> {
    seq!['"'] + escape_spec(a) + seq!['"']
}

/// The command line for a list of arguments: each quoted, separated by single spaces.
pub open spec fn command_line_spec(args: Seq<Seq<char>>) -> Seq<char>
    decreases args.len(),
{
    if args.len() == 0 {
        Seq::empty()
    } else if args.len() == 1 {
        quote_spec(args[0])
    } else {
        quote_spec(args[0]) + seq![' '] + command_line_spec(args.drop_first())
    }
}

/// `p` put in front of the argument read so far.
pub open spec fn prepend(p: Seq<char>, r: (Seq<char>, Seq<char>)) -> (Seq<char>, Seq<char>) {
    (p + r.0, r.1)
}

/// Reads one argument of a Windows command line, by the rules that the C
/// runtime and Rust's `std::env::args` apply to the arguments after the program
/// name: a blank outside quotes ends the argument; a quote opens or closes a
/// quoted part, and inside one two quotes in a row stand for one quote; `2n`
/// backslashes before a quote give `n` backslashes and the quote acts as
/// above, `2n + 1` give `n` backslashes and a literal quote; backslashes not
/// followed by a quote are literal. `pending` counts the backslashes seen and
/// not yet placed. Returns the argument and the text after it.
pub open spec fn read_arg(s: Seq<char>, in_quotes: bool, pending: nat) -> (Seq<char>, Seq<char>)
    decreases s.len(),
{
    if s.len() == 0 {
        (backslashes(pending), Seq::empty())
    } else if s[0] == '\\' {
        read_arg(s.drop_first(), in_quotes, pending + 1)
    } else if s[0] == '"' {
        if pending % 2 == 1 {
            prepend(backslashes(pending / 2) + seq!['"'], read_arg(s.drop_first(), in_quotes, 0))
        } else if in_quotes && s.len() > 1 && s[1] == '"' {
            prepend(
                backslashes(pending / 2) + seq!['"'],
                read_arg(s.subrange(2, s.len() as int), true, 0),
            )
        } else {
            prepend(backslashes(pending / 2), read_arg(s.drop_first(), !in_quotes, 0))
        }
    } else if is_blank(s[0]) && !in_quotes {
        (backslashes(pending), s)
    } else {
        prepend(backslashes(pending) + seq![s[0]], read_arg(s.drop_first(), in_quotes, 0))
    }
}

/// The arguments that a Windows program reads from the part of its command line
/// after the program name: blanks between arguments are skipped, and each
/// argument is read by `read_arg`.
pub open spec fn parse_command_line(s: Seq<char>) -> Seq<Seq<char>>
    decreases s.len(),
{
    if s.len() == 0 {
        Seq::empty()
    } else if is_blank(s[0]) {
        parse_command_line(s.drop_first())
    } else {
        let r = read_arg(s, false, 0);
        // reading a non-blank start always consumes it
        if r.1.len() < s.len() {
            seq![r.0] + parse_command_line(r.1)
        } else {
            Seq::empty()
        }
    }
}

proof fn lemma_read_backslashes(m: nat, t: Seq<char>, q: bool, p: nat)
    ensures
        read_arg(backslashes(m) + t, q, p) == read_arg(t, q, p + m),
    decreases m,
{
    if m > 0 {
        let s = backslashes(m) + t;
        assert(s[0] == '\\');
        assert(s.drop_first() =~= backslashes((m - 1) as nat) + t);
        lemma_read_backslashes((m - 1) as nat, t, q, p + 1);
    } else {
        assert(backslashes(0) + t =~= t);
    }
}

proof fn lemma_bs_run_split(a: Seq<char>)
    ensures
        bs_run(a) <= a.len(),
        a =~= backslashes(bs_run(a)) + a.skip(bs_run(a) as int),
        a.skip(bs_run(a) as int).len() == 0 || a.skip(bs_run(a) as int)[0] != '\\',
    decreases a.len(),
{
    if a.len() > 0 && a[0] == '\\' {
        let a1 = a.drop_first();
        let m = bs_run(a1);
        lemma_bs_run_split(a1);
        assert(a.skip(bs_run(a) as int) =~= a1.skip(m as int));
        assert(backslashes(m + 1) =~= seq!['\\'] + backslashes(m));
        assert(a =~= seq![a[0]] + a1);
    } else {
        assert(a.skip(0) =~= a);
        assert(backslashes(0) + a =~= a);
    }
}

/// The escape of a backslash run: doubled before a quote or the end, else kept.
proof fn lemma_escape_run(a: Seq<char>)
    requires
        a.len() > 0,
        a[0] == '\\',
    ensures
        escape_spec(a) == backslashes(
            if run_before_quote_or_end(a) {
                2 * bs_run(a)
            } else {
                bs_run(a)
            },
        ) + escape_spec(a.skip(bs_run(a) as int)),
    decreases a.len(),
{
    let a1 = a.drop_first();
    lemma_bs_run_split(a);
    lemma_bs_run_split(a1);
    if a1.len() > 0 && a1[0] == '\\' {
        lemma_escape_run(a1);
        assert(a.skip(bs_run(a) as int) =~= a1.skip(bs_run(a1) as int));
        if run_before_quote_or_end(a) {
            assert(seq!['\\', '\\'] + backslashes(2 * bs_run(a1)) =~= backslashes(2 * bs_run(a)));
        } else {
            assert(seq!['\\'] + backslashes(bs_run(a1)) =~= backslashes(bs_run(a)));
        }
    } else {
        assert(a.skip(1) =~= a1);
        assert(bs_run(a1) == 0);
        assert(a1.skip(0) =~= a1);
        if run_before_quote_or_end(a) {
            assert(seq!['\\', '\\'] =~= backslashes(2));
        } else {
            assert(seq!['\\'] =~= backslashes(1));
        }
    }
}

/// The closing quote followed by a blank or the end ends the argument.
proof fn lemma_read_closing(tail: Seq<char>)
    requires
        tail.len() == 0 || is_blank(tail[0]),
    ensures
        read_arg(seq!['"'] + tail, true, 0) == (Seq::<char>::empty(), tail),
{
    let s = seq!['"'] + tail;
    assert(s[0] == '"');
    assert(s.drop_first() =~= tail);
    if tail.len() > 0 {
        assert(s[1] == tail[0]);
    }
    assert(read_arg(s, true, 0) == prepend(backslashes(0), read_arg(tail, false, 0)));
    assert(backslashes(0) =~= Seq::<char>::empty());
    if tail.len() == 0 {
        assert(read_arg(tail, false, 0) == (backslashes(0), Seq::<char>::empty()));
    } else {
        assert(read_arg(tail, false, 0) == (backslashes(0), tail));
    }
    assert(Seq::<char>::empty() + Seq::<char>::empty() =~= Seq::<char>::empty());
}

/// `2n + 1` backslashes and a quote give `n` backslashes and a literal quote.
proof fn lemma_read_escaped_quote(n: nat, rest: Seq<char>)
    ensures
        read_arg(backslashes(2 * n + 1) + (seq!['"'] + rest), true, 0) == prepend(
            backslashes(n) + seq!['"'],
            read_arg(rest, true, 0),
        ),
{
    let t = seq!['"'] + rest;
    lemma_read_backslashes(2 * n + 1, t, true, 0);
    assert(t[0] == '"');
    assert(t.drop_first() =~= rest);
    assert((2 * n + 1) as nat / 2 == n);
    assert((2 * n + 1) as nat % 2 == 1);
}

/// Backslashes before a plain character stay as they are.
proof fn lemma_read_plain(n: nat, c: char, rest: Seq<char>)
    requires
        c != '\\',
        c != '"',
    ensures
        read_arg(backslashes(n) + (seq![c] + rest), true, 0) == prepend(
            backslashes(n) + seq![c],
            read_arg(rest, true, 0),
        ),
{
    let t = seq![c] + rest;
    lemma_read_backslashes(n, t, true, 0);
    assert(t[0] == c);
    assert(t.drop_first() =~= rest);
}

/// Reading the escaped text of an argument and its closing quote, inside quotes,
/// gives back the argument, and stops at the blank or end that follows.
#[verifier::rlimit(40)]
proof fn lemma_read_escaped(a: Seq<char>, tail: Seq<char>)
    requires
        tail.len() == 0 || is_blank(tail[0]),
    ensures
        read_arg(escape_spec(a) + seq!['"'] + tail, true, 0) == (a, tail),
    decreases a.len(),
{
    let s = escape_spec(a) + seq!['"'] + tail;
    if a.len() == 0 {
        assert(s =~= seq!['"'] + tail);
        lemma_read_closing(tail);
        assert(a =~= Seq::<char>::empty());
    } else if a[0] == '"' {
        let a1 = a.drop_first();
        lemma_read_escaped(a1, tail);
        let rest = escape_spec(a1) + seq!['"'] + tail;
        assert(s =~= backslashes(1) + (seq!['"'] + rest));
        lemma_read_escaped_quote(0, rest);
        assert(backslashes(0) + seq!['"'] + a1 =~= a);
    } else if a[0] == '\\' {
        lemma_bs_run_split(a);
        lemma_escape_run(a);
        let n = bs_run(a);
        let x = a.skip(n as int);
        assert(x.len() < a.len());
        if x.len() == 0 {
            assert(escape_spec(x) =~= Seq::<char>::empty());
            let t = seq!['"'] + tail;
            assert(s =~= backslashes(2 * n) + t);
            lemma_read_backslashes(2 * n, t, true, 0);
            assert(t[0] == '"');
            assert(t.drop_first() =~= tail);
            if tail.len() > 0 {
                assert(t[1] == tail[0]);
            }
            assert((2 * n) as nat / 2 == n);
            assert((2 * n) as nat % 2 == 0);
            assert(read_arg(t, true, 2 * n) == prepend(backslashes(n), read_arg(tail, false, 0)));
            lemma_read_closing(tail);
            assert(read_arg(tail, false, 0) == (Seq::<char>::empty(), tail)) by {
                assert(tail.len() == 0 || read_arg(tail, false, 0) == (backslashes(0), tail));
                assert(backslashes(0) =~= Seq::<char>::empty());
            }
            assert(backslashes(n) + Seq::<char>::empty() =~= a);
        } else if x[0] == '"' {
            let x1 = x.drop_first();
            lemma_read_escaped(x1, tail);
            let rest = escape_spec(x1) + seq!['"'] + tail;
            assert(escape_spec(x) =~= seq!['\\', '"'] + escape_spec(x1));
            assert(run_before_quote_or_end(a));
            assert(s =~= backslashes(2 * n + 1) + (seq!['"'] + rest));
            lemma_read_escaped_quote(n, rest);
            assert(backslashes(n) + seq!['"'] + x1 =~= a);
        } else {
            let x1 = x.drop_first();
            lemma_read_escaped(x1, tail);
            let rest = escape_spec(x1) + seq!['"'] + tail;
            assert(escape_spec(x) =~= seq![x[0]] + escape_spec(x1));
            assert(!run_before_quote_or_end(a));
            assert(s =~= backslashes(n) + (seq![x[0]] + rest));
            lemma_read_plain(n, x[0], rest);
            assert(backslashes(n) + seq![x[0]] + x1 =~= a);
        }
    } else {
        let a1 = a.drop_first();
        lemma_read_escaped(a1, tail);
        let rest = escape_spec(a1) + seq!['"'] + tail;
        assert(s =~= backslashes(0) + (seq![a[0]] + rest));
        lemma_read_plain(0, a[0], rest);
        assert(backslashes(0) + seq![a[0]] + a1 =~= a);
    }
}

/// Reading a quoted argument gives back the argument and the text after it.
pub proof fn lemma_read_quoted(a: Seq<char>, tail: Seq<char>)
    requires
        tail.len() == 0 || is_blank(tail[0]),
    ensures
        read_arg(quote_spec(a) + tail, false, 0) == (a, tail),
{
    let s = quote_spec(a) + tail;
    lemma_read_escaped(a, tail);
    assert(s.drop_first() =~= escape_spec(a) + seq!['"'] + tail);
    assert(backslashes(0) + a =~= a);
}

/// Quoting round trip: the program that receives the command line built from a
/// list of arguments reads back exactly that list, whatever the arguments hold
/// (blanks, quotes, backslashes, or nothing at all).
pub proof fn lemma_command_line_round_trip(args: Seq<Seq<char>>)
    ensures
        parse_command_line(command_line_spec(args)) == args,
    decreases args.len(),
{
    if args.len() == 0 {
    } else if args.len() == 1 {
        let line = command_line_spec(args);
        lemma_read_quoted(args[0], Seq::empty());
        assert(quote_spec(args[0]) + Seq::<char>::empty() =~= line);
        assert(line[0] == '"');
        assert(read_arg(line, false, 0) == (args[0], Seq::<char>::empty()));
        assert(parse_command_line(Seq::<char>::empty()) == Seq::<Seq<char>>::empty());
        assert(parse_command_line(line) == seq![args[0]] + Seq::<Seq<char>>::empty());
        assert(seq![args[0]] + Seq::<Seq<char>>::empty() =~= args);
    } else {
        let rest = args.drop_first();
        let tail = seq![' '] + command_line_spec(rest);
        let line = command_line_spec(args);
        assert(line =~= quote_spec(args[0]) + tail);
        lemma_read_quoted(args[0], tail);
        assert(line[0] == '"');
        assert(read_arg(line, false, 0) == (args[0], tail));
        lemma_command_line_round_trip(rest);
        assert(tail[0] == ' ');
        assert(tail.drop_first() =~= command_line_spec(rest));
        assert(parse_command_line(tail) == parse_command_line(command_line_spec(rest)));
        assert(parse_command_line(line) == seq![args[0]] + parse_command_line(tail));
        assert(seq![args[0]] + rest =~= args);
    }
}

/// Lemma for `escape_arg`: the backslashes from position `i` run up to `j`.
proof fn lemma_bs_run_skip(a: Seq<char>, i: int, j: int)
    requires
        0 <= i <= j <= a.len(),
        forall|k: int| i <= k < j ==> a[k] == '\\',
        j == a.len() || a[j] != '\\',
    ensures
        bs_run(a.skip(i)) == j - i,
        a.skip(i).skip(j - i) =~= a.skip(j),
    decreases j - i,
{
    if i < j {
        lemma_bs_run_skip(a, i + 1, j);
        assert(a.skip(i).drop_first() =~= a.skip(i + 1));
    }
}

fn run_before_quote_or_end_at(a: &str, n: usize, i: usize) -> (r: bool)
    requires
        n == a@.len(),
        i < n,
    ensures
        r == run_before_quote_or_end(a@.skip(i as int)),
{
    let mut j = i;
    while j < n && a.get_char(j) == '\\'
        invariant
            n == a@.len(),
            i <= j <= n,
            forall|k: int| i <= k < j ==> a@[k] == '\\',
        decreases n - j,
    {
        j = j + 1;
    }
    proof {
        lemma_bs_run_skip(a@, i as int, j as int);
    }
    j == n || a.get_char(j) == '"'
}

/// The text of an argument inside its quotes (see `escape_spec`).
pub fn escape_arg(a: &str) -> (r: String)
    ensures
        r@ == escape_spec(a@),
{
    let n = a.unicode_len();
    let mut out = owned("");
    proof {
        reveal_strlit("");
        reveal_strlit("\\\"");
        reveal_strlit("\\\\");
        reveal_strlit("\\");
    }
    assert("\\\""@ =~= seq!['\\', '"']);
    assert("\\\\"@ =~= seq!['\\', '\\']);
    assert("\\"@ =~= seq!['\\']);
    assert(a@.skip(0) =~= a@);
    let mut i: usize = 0;
    while i < n
        invariant
            n == a@.len(),
            i <= n,
            escape_spec(a@) == out@ + escape_spec(a@.skip(i as int)),
            "\\\""@ =~= seq!['\\', '"'],
            "\\\\"@ =~= seq!['\\', '\\'],
            "\\"@ =~= seq!['\\'],
        decreases n - i,
    {
        let c = a.get_char(i);
        let ghost rest = a@.skip(i as int);
        let ghost before = out@;
        assert(rest[0] == c);
        assert(rest.drop_first() =~= a@.skip(i + 1));
        if c == '"' {
            out.append("\\\"");
            assert(before + escape_spec(rest) =~= out@ + escape_spec(a@.skip(i + 1)));
        } else if c == '\\' {
            if run_before_quote_or_end_at(a, n, i) {
                out.append("\\\\");
            } else {
                out.append("\\");
            }
            assert(before + escape_spec(rest) =~= out@ + escape_spec(a@.skip(i + 1)));
        } else {
            out.append(a.substring_char(i, i + 1));
            assert(a@.subrange(i as int, i + 1) =~= seq![c]);
            assert(before + escape_spec(rest) =~= out@ + escape_spec(a@.skip(i + 1)));
        }
        i = i + 1;
    }
    assert(a@.skip(n as int).len() == 0);
    assert(out@ + Seq::<char>::empty() =~= out@);
    out
}

/// An argument between double quotes, escaped (see `quote_spec`).
pub fn quote_arg(a: &str) -> (r: String)
    ensures
        r@ == quote_spec(a@),
{
    let e = escape_arg(a);
    let mut r = concat("\"", e.as_str());
    r.append("\"");
    proof {
        reveal_strlit("\"");
    }
    r
}

/// The command line that passes the arguments to the elevated process: each
/// argument quoted, separated by single spaces, so that the process reads back
/// the same list (see `lemma_command_line_round_trip`).
pub fn join_args(args: &[String]) -> (r: String)
    ensures
        r@ == command_line_spec(args_view(args@)),
{
    let ghost all = args_view(args@);
    let n = args.len();
    let mut out = owned("");
    proof {
        reveal_strlit("");
        reveal_strlit(" ");
    }
    assert(" "@ =~= seq![' ']);
    let mut i: usize = n;
    assert(all.skip(n as int) =~= Seq::<Seq<char>>::empty());
    while i > 0
        invariant
            n == args@.len(),
            all == args_view(args@),
            i <= n,
            out@ == command_line_spec(all.skip(i as int)),
            " "@ =~= seq![' '],
        decreases i,
    {
        let ghost suffix = all.skip(i - 1);
        assert(suffix[0] == args@[i - 1]@);
        assert(suffix.drop_first() =~= all.skip(i as int));
        let mut piece = quote_arg(args[i - 1].as_str());
        if i < n {
            piece.append(" ");
            piece.append(out.as_str());
            assert(piece@ =~= quote_spec(suffix[0]) + seq![' '] + command_line_spec(suffix.drop_first()));
        } else {
            assert(suffix.len() == 1);
        }
        out = piece;
        i = i - 1;
    }
    assert(all.skip(0) =~= all);
    out
}

/// Text with no quote and no backslash is quoted as it is.
pub proof fn lemma_escape_plain(a: Seq<char>)
    requires
        forall|i: int| 0 <= i < a.len() ==> a[i] != '"' && a[i] != '\\',
    ensures
        escape_spec(a) == a,
    decreases a.len(),
{
    if a.len() > 0 {
        lemma_escape_plain(a.drop_first());
        assert(seq![a[0]] + a.drop_first() =~= a);
    }
}

/// A word with no blank, quote or backslash is read as one argument, up to the
/// blank or end that follows it: blanks, not anything else, separate arguments.
pub proof fn lemma_read_plain_word(w: Seq<char>, tail: Seq<char>)
    requires
        forall|i: int| 0 <= i < w.len() ==> w[i] != '"' && w[i] != '\\' && !is_blank(w[i]),
        tail.len() == 0 || is_blank(tail[0]),
    ensures
        read_arg(w + tail, false, 0) == (w, tail),
    decreases w.len(),
{
    let s = w + tail;
    if w.len() == 0 {
        assert(s =~= tail);
        assert(backslashes(0) =~= w);
    } else {
        lemma_read_plain_word(w.drop_first(), tail);
        assert(s[0] == w[0]);
        assert(s.drop_first() =~= w.drop_first() + tail);
        assert(backslashes(0) + seq![w[0]] + w.drop_first() =~= w);
    }
}

} // verus!
