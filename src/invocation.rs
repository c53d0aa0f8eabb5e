use vstd::prelude::*;
use vstd::string::*;

use crate::decimal::{decimal, to_decimal};

verus! {

/// What a client asks to have compiled: the document source, the named
/// values exposed to it, and an optional parallelism hint for the compiler.
pub struct CompileRequest {
    pub template: String,
    /// Name/value pairs, in the order the mapping yielded them.
    pub variables: Option<Vec<(String, String)>>,
    pub jobs: Option<u32>,
}

/// The variables of a request as pairs of character sequences; an absent
/// mapping contributes no pairs.
pub open spec fn variables_view(variables: Option<Vec<(String, String)>>) -> Seq<(Seq<char>, Seq<char>)> {
    match variables {
        Some(v) => v@.map_values(|p: (String, String)| (p.0@, p.1@)),
        None => Seq::empty(),
    }
}

/// The subcommand that makes the compiler read the document from its standard
/// input and write the rendered result to its standard output.
pub open spec fn base_args() -> Seq<Seq<char>> {
    seq!["compile"@, "-"@, "-"@]
}

pub open spec fn jobs_flag() -> Seq<char> {
    "--jobs"@
}

pub open spec fn input_flag() -> Seq<char> {
    "--input"@
}

/// The parallelism arguments: the flag followed by the decimal count, or nothing.
pub open spec fn jobs_args(jobs: Option<u32>) -> Seq<Seq<char>> {
    match jobs {
        Some(j) => seq![jobs_flag(), decimal(j as nat)],
        None => Seq::empty(),
    }
}

/// The argument that carries one variable: `name=value`.
pub open spec fn assignment(name: Seq<char>, value: Seq<char>) -> Seq<char> {
    name + "="@ + value
}

/// One `--input name=value` pair of arguments per variable, in order.
pub open spec fn input_args(vars: Seq<(Seq<char>, Seq<char>)>) -> Seq<Seq<char>>
    decreases vars.len(),
{
    if vars.len() == 0 {
        Seq::empty()
    } else {
        input_args(vars.drop_last()) + seq![input_flag(), assignment(vars.last().0, vars.last().1)]
    }
}

/// The full argument sequence handed to the compiler for a request.
pub open spec fn invocation(jobs: Option<u32>, vars: Seq<(Seq<char>, Seq<char>)>) -> Seq<Seq<char>> {
    base_args() + jobs_args(jobs) + input_args(vars)
}

pub open spec fn request_invocation(request: CompileRequest) -> Seq<Seq<char>> {
    invocation(request.jobs, variables_view(request.variables))
}

/// Argument `2 * i` of the input arguments is the input flag and argument
/// `2 * i + 1` is the `name=value` of variable `i`.
pub proof fn lemma_input_args_shape(vars: Seq<(Seq<char>, Seq<char>)>)
    ensures
        input_args(vars).len() == 2 * vars.len(),
        forall|i: int|
            0 <= i < vars.len() ==> #[trigger] input_args(vars)[2 * i] == input_flag()
                && input_args(vars)[2 * i + 1] == assignment(vars[i].0, vars[i].1),
    decreases vars.len(),
{
    if vars.len() > 0 {
        lemma_input_args_shape(vars.drop_last());
        assert forall|i: int| 0 <= i < vars.len() implies #[trigger] input_args(vars)[2 * i] == input_flag()
            && input_args(vars)[2 * i + 1] == assignment(vars[i].0, vars[i].1) by {
            if i < vars.len() - 1 {
                assert(vars.drop_last()[i] == vars[i]);
                assert(input_args(vars.drop_last())[2 * i] == input_flag());
            }
        }
    }
}

/// No argument of the form `name=value` equals a flag that has no `=` in it.
proof fn lemma_assignment_is_no_flag(name: Seq<char>, value: Seq<char>, flag: Seq<char>)
    requires
        forall|k: int| 0 <= k < flag.len() ==> flag[k] != '=',
    ensures
        assignment(name, value) != flag,
{
    reveal_strlit("=");
    let a = assignment(name, value);
    assert(a[name.len() as int] == '=');
}

proof fn lemma_decimal_ends_in_digit(n: nat)
    ensures
        decimal(n).len() > 0,
        '0' <= decimal(n).last() <= '9',
    decreases n,
{
    if n >= 10 {
        lemma_decimal_ends_in_digit(n / 10);
    }
}

/// Every variable supplied with a request appears as an input flag directly
/// followed by its `name=value` argument, and the input flag occurs nowhere
/// else in the invocation.
pub proof fn lemma_inputs_exactly_variables(jobs: Option<u32>, vars: Seq<(Seq<char>, Seq<char>)>)
    ensures
        ({
            let args = invocation(jobs, vars);
            let start = 3 + jobs_args(jobs).len();
            &&& args.len() == start + 2 * vars.len()
            &&& forall|i: int|
                0 <= i < vars.len() ==> #[trigger] args[start + 2 * i] == input_flag()
                    && args[start + 2 * i + 1] == assignment(vars[i].0, vars[i].1)
            &&& forall|j: int|
                0 <= j < args.len() && #[trigger] args[j] == input_flag() ==> start <= j && (j - start) % 2 == 0
        }),
{
    let args = invocation(jobs, vars);
    let start = 3 + jobs_args(jobs).len();
    let inputs = input_args(vars);
    lemma_input_args_shape(vars);
    reveal_strlit("compile");
    reveal_strlit("-");
    reveal_strlit("--jobs");
    reveal_strlit("--input");
    assert forall|i: int| 0 <= i < vars.len() implies #[trigger] args[start + 2 * i] == input_flag()
        && args[start + 2 * i + 1] == assignment(vars[i].0, vars[i].1) by {
        assert(args[start + 2 * i] == inputs[2 * i]);
        assert(args[start + 2 * i + 1] == inputs[2 * i + 1]);
    }
    assert forall|j: int| 0 <= j < args.len() && #[trigger] args[j] == input_flag() implies start <= j && (j
        - start) % 2 == 0 by {
        if j < 3 {
            assert(args[j] == base_args()[j]);
            assert(base_args()[0][0] == 'c');
            assert(base_args()[1].len() == 1 && base_args()[2].len() == 1);
            assert(input_flag()[0] == '-' && input_flag().len() == 7);
        } else if j < start {
            let n = jobs->0 as nat;
            if j == 4 {
                lemma_decimal_ends_in_digit(n);
                assert(args[j] == decimal(n));
                assert(input_flag().last() == 't');
            }
        } else if (j - start) % 2 == 1 {
            let i = (j - start) / 2;
            assert(j - start == 2 * i + 1);
            assert(inputs[2 * i] == input_flag());
            assert(args[j] == inputs[2 * i + 1]);
            lemma_assignment_is_no_flag(vars[i].0, vars[i].1, input_flag());
        }
    }
}

/// Without a job count no argument is the parallelism flag; with one, the flag
/// stands right after the subcommand and is immediately followed by the count
/// in decimal.
pub proof fn lemma_jobs_flag(jobs: Option<u32>, vars: Seq<(Seq<char>, Seq<char>)>)
    ensures
        ({
            let args = invocation(jobs, vars);
            match jobs {
                None => forall|j: int| 0 <= j < args.len() ==> #[trigger] args[j] != jobs_flag(),
                Some(n) => args[3] == jobs_flag() && args[4] == decimal(n as nat),
            }
        }),
{
    let args = invocation(jobs, vars);
    let inputs = input_args(vars);
    lemma_input_args_shape(vars);
    reveal_strlit("compile");
    reveal_strlit("-");
    reveal_strlit("--jobs");
    reveal_strlit("--input");
    if jobs is None {
        assert forall|j: int| 0 <= j < args.len() implies #[trigger] args[j] != jobs_flag() by {
            if j < 3 {
                assert(args[j] == base_args()[j]);
                assert(args[j].len() != jobs_flag().len());
            } else {
                let k = j - 3;
                let i = k / 2;
                assert(args[j] == inputs[k]);
                assert(inputs[2 * i] == input_flag());
                if k % 2 == 0 {
                    assert(inputs[2 * i] == input_flag());
                    assert(input_flag().len() != jobs_flag().len());
                } else {
                    assert(k == 2 * i + 1);
                    assert(inputs[2 * i + 1] == assignment(vars[i].0, vars[i].1));
                    lemma_assignment_is_no_flag(vars[i].0, vars[i].1, jobs_flag());
                }
            }
        }
    }
}

pub open spec fn strings_view(v: Seq<String>) -> Seq<Seq<char>> {
    v.map_values(|s: String| s@)
}

fn push_str_arg(args: &mut Vec<String>, s: &str)
    ensures
        strings_view(final(args)@) == strings_view(old(args)@).push(s@),
{
    args.push(String::from_str(s));
    assert(strings_view(final(args)@) =~= strings_view(old(args)@).push(s@));
}

fn push_string_arg(args: &mut Vec<String>, s: String)
    ensures
        strings_view(final(args)@) == strings_view(old(args)@).push(s@),
{
    let ghost v = s@;
    args.push(s);
    assert(strings_view(final(args)@) =~= strings_view(old(args)@).push(v));
}

/// Builds the compiler's argument list for `request`: the headless render
/// subcommand, then `--jobs <n>` if a count was given, then one
/// `--input name=value` per variable.
pub fn build_invocation(request: &CompileRequest) -> (r: Vec<String>)
    ensures
        strings_view(r@) == request_invocation(*request),
{
    let mut args: Vec<String> = Vec::new();
    push_str_arg(&mut args, "compile");
    push_str_arg(&mut args, "-");
    push_str_arg(&mut args, "-");
    assert(strings_view(args@) =~= base_args());
    match request.jobs {
        Some(j) => {
            push_str_arg(&mut args, "--jobs");
            push_string_arg(&mut args, to_decimal(j));
        },
        None => {},
    }
    assert(strings_view(args@) =~= base_args() + jobs_args(request.jobs));
    match &request.variables {
        Some(vars) => {
            let ghost all = variables_view(request.variables);
            let mut i: usize = 0;
            assert(all.take(0) =~= Seq::<(Seq<char>, Seq<char>)>::empty());
            while i < vars.len()
                invariant
                    i <= vars.len(),
                    all == variables_view(request.variables),
                    all == vars@.map_values(|p: (String, String)| (p.0@, p.1@)),
                    strings_view(args@) == base_args() + jobs_args(request.jobs) + input_args(all.take(i as int)),
                decreases vars.len() - i,
            {
                let name = &vars[i].0;
                let value = &vars[i].1;
                let assigned = name.clone().concat("=").concat(value.as_str());
                push_str_arg(&mut args, "--input");
                push_string_arg(&mut args, assigned);
                proof {
                    let next = all.take(i as int + 1);
                    assert(next.drop_last() =~= all.take(i as int));
                    assert(next.last() == all[i as int]);
                    assert(strings_view(args@) =~= base_args() + jobs_args(request.jobs) + input_args(next));
                }
                i = i + 1;
            }
            assert(all.take(vars.len() as int) =~= all);
        },
        None => {
            assert(input_args(variables_view(request.variables)) =~= Seq::<Seq<char>>::empty());
        },
    }
    assert(strings_view(args@) =~= request_invocation(*request));
    args
}

} // verus!
