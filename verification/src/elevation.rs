use vstd::prelude::*;

use crate::text::{concat, owned, str_eq};

verus! {

/// The flag by which the elevated child is told where to write its output.
pub open spec fn output_file_flag() -> Seq<char> {
    "--output-file"@
}

/// The characters of each argument.
pub open spec fn args_view(args: Seq<String>) -> Seq<Seq<char>> {
    args.map_values(|s: String| s@)
}

/// The characters of an optional argument.
pub open spec fn opt_view(o: Option<String>) -> Option<Seq<char>> {
    match o {
        Some(s) => Some(s@),
        None => None,
    }
}

/// What `extract_output_file` gives for `args`, read from the front: each
/// `--output-file` that has a next argument takes it as the output path (a later
/// one overrides an earlier one) and both leave the list; a trailing
/// `--output-file` with nothing after it is dropped; every other argument stays,
/// in order.
pub open spec fn extract_spec(args: Seq<Seq<char>>) -> (Option<Seq<char>>, Seq<Seq<char>>)
    decreases args.len(),
{
    if args.len() == 0 {
        (None, Seq::empty())
    } else if args[0] == output_file_flag() {
        if args.len() >= 2 {
            let rest = extract_spec(args.subrange(2, args.len() as int));
            (
                match rest.0 {
                    Some(p) => Some(p),
                    None => Some(args[1]),
                },
                rest.1,
            )
        } else {
            (None, Seq::empty())
        }
    } else {
        let rest = extract_spec(args.drop_first());
        (rest.0, seq![args[0]] + rest.1)
    }
}

/// The result of an earlier part of the list followed by that of a later part.
pub open spec fn combine(
    a: (Option<Seq<char>>, Seq<Seq<char>>),
    b: (Option<Seq<char>>, Seq<Seq<char>>),
) -> (Option<Seq<char>>, Seq<Seq<char>>) {
    (
        match b.0 {
            Some(p) => Some(p),
            None => a.0,
        },
        a.1 + b.1,
    )
}

/// Extracts `--output-file <path>` from the arguments, if present.
/// Returns the file path and the remaining arguments.
pub fn extract_output_file(args: &[String]) -> (r: (Option<String>, Vec<String>))
    ensures
        (opt_view(r.0), args_view(r.1@)) == extract_spec(args_view(args@)),
{
    let ghost all = args_view(args@);
    let n = args.len();
    let mut output_file: Option<String> = None;
    let mut filtered: Vec<String> = Vec::new();
    let mut i: usize = 0;
    assert(all.subrange(0, n as int) =~= all);
    assert(args_view(filtered@) =~= Seq::<Seq<char>>::empty());
    assert(Seq::<Seq<char>>::empty() + extract_spec(all).1 =~= extract_spec(all).1);
    while i < n
        invariant
            n == args@.len(),
            all == args_view(args@),
            i <= n,
            extract_spec(all) == combine(
                (opt_view(output_file), args_view(filtered@)),
                extract_spec(all.subrange(i as int, n as int)),
            ),
        decreases n - i,
    {
        let ghost before = (opt_view(output_file), args_view(filtered@));
        let ghost suffix = all.subrange(i as int, n as int);
        assert(suffix[0] == args@[i as int]@);
        if str_eq(args[i].as_str(), "--output-file") {
            if i + 1 < n {
                assert(suffix.subrange(2, suffix.len() as int) =~= all.subrange(
                    i + 2,
                    n as int,
                ));
                assert(suffix[1] == args@[i + 1]@);
                output_file = Some(args[i + 1].clone());
                i = i + 2;
            } else {
                assert(all.subrange(n as int, n as int) =~= Seq::<Seq<char>>::empty());
                i = i + 1;
            }
        } else {
            assert(suffix.drop_first() =~= all.subrange(i + 1, n as int));
            let ghost old_filtered = filtered@;
            filtered.push(args[i].clone());
            assert(args_view(filtered@) =~= args_view(old_filtered) + seq![args@[i as int]@]);
            i = i + 1;
        }
    }
    assert(all.subrange(n as int, n as int) =~= Seq::<Seq<char>>::empty());
    assert(args_view(filtered@) + Seq::<Seq<char>>::empty() =~= args_view(filtered@));
    (output_file, filtered)
}

/// Extracting from arguments that the elevated launch extended with
/// `--output-file <path>` gives back that path and the caller's own arguments,
/// provided that they held no `--output-file` of their own.
pub proof fn lemma_extract_recovers_appended(args: Seq<Seq<char>>, path: Seq<char>)
    requires
        !args.contains(output_file_flag()),
    ensures
        extract_spec(args + seq![output_file_flag(), path]) == (Some(path), args),
    decreases args.len(),
{
    let full = args + seq![output_file_flag(), path];
    if args.len() == 0 {
        assert(full =~= seq![output_file_flag(), path]);
        assert(full[0] == output_file_flag());
        assert(full[1] == path);
        assert(full.subrange(2, 2) =~= Seq::<Seq<char>>::empty());
        assert(extract_spec(Seq::<Seq<char>>::empty()) == (None::<Seq<char>>, Seq::<Seq<char>>::empty()));
    } else {
        assert(args[0] != output_file_flag()) by {
            assert(args.contains(args[0]));
        }
        let tail = args.drop_first();
        assert(!tail.contains(output_file_flag())) by {
            if tail.contains(output_file_flag()) {
                let k = choose|k: int| 0 <= k < tail.len() && tail[k] == output_file_flag();
                assert(args[k + 1] == output_file_flag());
            }
        }
        lemma_extract_recovers_appended(tail, path);
        assert(full[0] == args[0]);
        assert(full.drop_first() =~= tail + seq![output_file_flag(), path]);
        assert(seq![args[0]] + tail =~= args);
    }
}

/// When the flag is given twice, the later path is the one used: an earlier
/// `--output-file <q>` is overridden by the `--output-file <p>` appended at the end.
pub proof fn lemma_later_output_file_wins(q: Seq<char>, args: Seq<Seq<char>>, p: Seq<char>)
    requires
        !args.contains(output_file_flag()),
    ensures
        extract_spec(seq![output_file_flag(), q] + args + seq![output_file_flag(), p]) == (Some(p), args),
{
    let full = seq![output_file_flag(), q] + args + seq![output_file_flag(), p];
    lemma_extract_recovers_appended(args, p);
    assert(full[0] == output_file_flag());
    assert(full.subrange(2, full.len() as int) =~= args + seq![output_file_flag(), p]);
}

/// The decimal writing of a number reads back as that number, uses only digits,
/// and has no leading zero (except for zero itself).
pub proof fn lemma_decimal_reads_back(n: nat)
    ensures
        crate::config::all_digits(decimal_spec(n)),
        crate::config::digits_value(decimal_spec(n)) == n,
        decimal_spec(n).len() > 0,
        decimal_spec(n)[0] == '0' ==> n == 0,
    decreases n,
{
    let d = decimal_spec(n);
    if n >= 10 {
        lemma_decimal_reads_back(n / 10);
        assert(d.drop_last() =~= decimal_spec(n / 10));
        assert(d.last() == digit_char(n % 10));
        assert((digit_char(n % 10) as int) - ('0' as int) == n % 10);
        assert(d[0] == decimal_spec(n / 10)[0]);
        assert(n / 10 > 0);
        assert((n / 10) * 10 + n % 10 == n);
        assert(crate::config::digits_value(d) == crate::config::digits_value(d.drop_last()) * 10
            + ((d.last() as int) - ('0' as int)) as nat);
    } else {
        assert((digit_char(n) as int) - ('0' as int) == n);
        assert(d.drop_last() =~= Seq::<char>::empty());
        assert(crate::config::digits_value(d.drop_last()) == 0);
    }
}

/// No argument that extraction leaves over is the `--output-file` flag itself.
pub proof fn lemma_extract_removes_flag(args: Seq<Seq<char>>)
    ensures
        !extract_spec(args).1.contains(output_file_flag()),
    decreases args.len(),
{
    if args.len() == 0 {
    } else if args[0] == output_file_flag() {
        if args.len() >= 2 {
            lemma_extract_removes_flag(args.subrange(2, args.len() as int));
        }
    } else {
        let rest = extract_spec(args.drop_first());
        lemma_extract_removes_flag(args.drop_first());
        assert(!(seq![args[0]] + rest.1).contains(output_file_flag())) by {
            if (seq![args[0]] + rest.1).contains(output_file_flag()) {
                let k = choose|k: int|
                    0 <= k < (seq![args[0]] + rest.1).len() && (seq![args[0]]
                        + rest.1)[k] == output_file_flag();
                if k > 0 {
                    assert(rest.1[k - 1] == output_file_flag());
                }
            }
        }
    }
}

/// Arguments without the flag come back unchanged, with no output path.
pub proof fn lemma_extract_without_flag(args: Seq<Seq<char>>)
    requires
        !args.contains(output_file_flag()),
    ensures
        extract_spec(args) == (None::<Seq<char>>, args),
    decreases args.len(),
{
    if args.len() > 0 {
        assert(args.contains(args[0]));
        let tail = args.drop_first();
        assert(!tail.contains(output_file_flag())) by {
            if tail.contains(output_file_flag()) {
                let k = choose|k: int| 0 <= k < tail.len() && tail[k] == output_file_flag();
                assert(args[k + 1] == output_file_flag());
            }
        }
        lemma_extract_without_flag(tail);
        assert(seq![args[0]] + tail =~= args);
    }
}

/// The arguments handed to the elevated copy of the program: the given
/// arguments, then `--output-file` and the path of the output file.
pub fn elevated_args(args: &[String], output_file: &str) -> (r: Vec<String>)
    ensures
        args_view(r@) == args_view(args@) + seq![output_file_flag(), output_file@],
{
    let mut r: Vec<String> = Vec::new();
    let n = args.len();
    let mut i: usize = 0;
    while i < n
        invariant
            n == args@.len(),
            i <= n,
            args_view(r@) =~= args_view(args@).subrange(0, i as int),
        decreases n - i,
    {
        let ghost old_r = r@;
        r.push(args[i].clone());
        assert(args_view(r@) =~= args_view(old_r) + seq![args@[i as int]@]);
        assert(args_view(args@).subrange(0, i + 1) =~= args_view(args@).subrange(0, i as int)
            + seq![args@[i as int]@]);
        i = i + 1;
    }
    assert(args_view(args@).subrange(0, n as int) =~= args_view(args@));
    r.push(owned("--output-file"));
    r.push(owned(output_file));
    assert(args_view(r@) =~= args_view(args@) + seq![output_file_flag(), output_file@]);
    r
}

/// The decimal digit character for `d < 10`.
pub open spec fn digit_char(d: nat) -> char {
    ((d as int) + ('0' as int)) as char
}

/// The decimal writing of `n`, without leading zeros.
pub open spec fn decimal_spec(n: nat) -> Seq<char>
    decreases n,
{
    if n < 10 {
        seq![digit_char(n)]
    } else {
        decimal_spec(n / 10) + seq![digit_char(n % 10)]
    }
}

fn digit_str(d: u32) -> (r: &'static str)
    requires
        d < 10,
    ensures
        r@ == seq![digit_char(d as nat)],
{
    if d == 0 {
        proof { reveal_strlit("0"); }
        "0"
    } else if d == 1 {
        proof { reveal_strlit("1"); }
        "1"
    } else if d == 2 {
        proof { reveal_strlit("2"); }
        "2"
    } else if d == 3 {
        proof { reveal_strlit("3"); }
        "3"
    } else if d == 4 {
        proof { reveal_strlit("4"); }
        "4"
    } else if d == 5 {
        proof { reveal_strlit("5"); }
        "5"
    } else if d == 6 {
        proof { reveal_strlit("6"); }
        "6"
    } else if d == 7 {
        proof { reveal_strlit("7"); }
        "7"
    } else if d == 8 {
        proof { reveal_strlit("8"); }
        "8"
    } else {
        proof { reveal_strlit("9"); }
        "9"
    }
}

/// The decimal writing of a process id.
pub fn decimal(n: u32) -> (r: String)
    ensures
        r@ == decimal_spec(n as nat),
    decreases n,
{
    if n < 10 {
        owned(digit_str(n))
    } else {
        let mut s = decimal(n / 10);
        s.append(digit_str(n % 10));
        s
    }
}

/// The name of the temporary file that the elevated process writes its output
/// to: `breeze-wh-elevated-<pid>.log`.
pub fn elevated_output_file_name(pid: u32) -> (r: String)
    ensures
        r@ == "breeze-wh-elevated-"@ + decimal_spec(pid as nat) + ".log"@,
{
    let d = decimal(pid);
    let mut r = concat("breeze-wh-elevated-", d.as_str());
    r.append(".log");
    r
}

/// The exit code to end with after the elevated process exited with `exit_code`:
/// that same code when it fits an exit status byte (0 to 255); any larger code
/// is a failure and becomes 1, so that no failure turns into success.
pub open spec fn exit_code_spec(exit_code: u32) -> u8 {
    if exit_code <= 255 {
        exit_code as u8
    } else {
        1
    }
}

/// The exit code to end with after the elevated process exited with `exit_code`.
pub fn elevated_exit_code(exit_code: u32) -> (r: u8)
    ensures
        r == exit_code_spec(exit_code),
        exit_code <= 255 ==> r as u32 == exit_code,
        exit_code > 255 ==> r == 1,
        (r == 0) == (exit_code == 0),
{
    if exit_code <= 255 {
        exit_code as u8
    } else {
        1
    }
}

} // verus!
