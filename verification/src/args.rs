//! The argument assembler: from derived definitions and a target descriptor
//! to the full ordered compiler argument list.

use vstd::prelude::*;

use crate::config::Bin;

verus! {

/// The command-line token that defines one macro: `-D<name>=<value>`.
pub open spec fn def_flag(d: (Seq<char>, Seq<char>)) -> Seq<char> {
    "-D"@ + d.0 + "="@ + d.1
}

/// The full ordered argument list of one compiler invocation: one `-D` token
/// per definition (in order), then `-o`, the output path
/// `<output_dir>/<target name>`, the `-std=<edition>` flag, and finally the
/// target's source path.
pub open spec fn assembled(
    defs: Seq<(Seq<char>, Seq<char>)>,
    edition: Seq<char>,
    target_name: Seq<char>,
    target_path: Seq<char>,
    output_dir: Seq<char>,
) -> Seq<Seq<char>> {
    defs.map_values(|d: (Seq<char>, Seq<char>)| def_flag(d)) + seq![
        "-o"@,
        output_dir + "/"@ + target_name,
        "-std="@ + edition,
        target_path,
    ]
}

/// An assembled invocation holds one token per definition followed by four
/// fixed tokens, and its last token is always the target's source path.
pub proof fn lemma_assembled_shape(
    defs: Seq<(Seq<char>, Seq<char>)>,
    edition: Seq<char>,
    target_name: Seq<char>,
    target_path: Seq<char>,
    output_dir: Seq<char>,
)
    ensures
        assembled(defs, edition, target_name, target_path, output_dir).len() == defs.len() + 4,
        assembled(defs, edition, target_name, target_path, output_dir).last() == target_path,
{
}

/// Appends one `-D<name>=<value>` token per definition to `args`, in the
/// order the definitions are given; the tokens already in `args` are kept.
pub fn append_defs(args: &mut Vec<String>, defs: &Vec<(String, String)>)
    ensures
        final(args)@.map_values(|s: String| s@) == old(args)@.map_values(|s: String| s@)
            + defs@.map_values(|d: (String, String)| (d.0@, d.1@)).map_values(
            |d: (Seq<char>, Seq<char>)| def_flag(d),
        ),
{
    let ghost start = args@.map_values(|s: String| s@);
    let ghost flags = defs@.map_values(|d: (String, String)| (d.0@, d.1@)).map_values(
        |d: (Seq<char>, Seq<char>)| def_flag(d),
    );
    let mut i: usize = 0;
    while i < defs.len()
        invariant
            i <= defs@.len(),
            flags == defs@.map_values(|d: (String, String)| (d.0@, d.1@)).map_values(
                |d: (Seq<char>, Seq<char>)| def_flag(d),
            ),
            args@.map_values(|s: String| s@) == start + flags.take(i as int),
        decreases defs@.len() - i,
    {
        let mut token = String::from_str("-D");
        token.append(defs[i].0.as_str());
        token.append("=");
        token.append(defs[i].1.as_str());
        proof {
            assert(token@ =~= def_flag((defs@[i as int].0@, defs@[i as int].1@)));
            assert(token@ == flags[i as int]);
        }
        let ghost old_args = args@;
        args.push(token);
        proof {
            assert(args@.map_values(|s: String| s@) =~= old_args.map_values(|s: String| s@).push(
                flags[i as int],
            ));
            assert(args@.map_values(|s: String| s@) =~= start + flags.take(i + 1));
        }
        i += 1;
    }
    proof {
        assert(flags.take(defs@.len() as int) =~= flags);
    }
}

/// Builds the full argument list for compiling one target with the given
/// definitions, language edition and output directory.
pub fn assemble(defs: &Vec<(String, String)>, edition: &str, target: &Bin, output_dir: &str) -> (r:
    Vec<String>)
    ensures
        r@.map_values(|s: String| s@) == assembled(
            defs@.map_values(|d: (String, String)| (d.0@, d.1@)),
            edition@,
            target.name@,
            target.path@,
            output_dir@,
        ),
{
    let mut args: Vec<String> = Vec::new();
    append_defs(&mut args, defs);
    args.push(String::from_str("-o"));
    let mut out_path = String::from_str(output_dir);
    out_path.append("/");
    out_path.append(target.name.as_str());
    args.push(out_path);
    let mut std_flag = String::from_str("-std=");
    std_flag.append(edition);
    args.push(std_flag);
    args.push(target.path.clone());
    proof {
        assert(args@.map_values(|s: String| s@) =~= assembled(
            defs@.map_values(|d: (String, String)| (d.0@, d.1@)),
            edition@,
            target.name@,
            target.path@,
            output_dir@,
        ));
    }
    args
}

} // verus!
