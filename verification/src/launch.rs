//! The command line handed to the image viewer.
use vstd::prelude::*;
use crate::config::texts;

verus! {

/// The flag that precedes every path on the viewer's command line.
pub open spec fn randomize_flag() -> Seq<char> {
    "--randomize"@
}

/// The viewer's arguments: the viewer argument first, then for each path the
/// randomize flag and the path.
pub open spec fn viewer_args(feh_arg: Seq<char>, paths: Seq<Seq<char>>) -> Seq<Seq<char>> {
    Seq::new(
        1 + 2 * paths.len(),
        |k: int|
            if k == 0 {
                feh_arg
            } else if k % 2 == 1 {
                randomize_flag()
            } else {
                paths[k / 2 - 1]
            },
    )
}

/// Builds the viewer's arguments for `paths`.
pub fn viewer_arguments(feh_arg: &str, paths: &Vec<String>) -> (args: Vec<String>)
    ensures
        texts(args@) == viewer_args(feh_arg@, texts(paths@)),
        args.len() == 1 + 2 * paths.len(),
        forall|k: int|
            0 <= k < args.len() ==> (#[trigger] args[k])@ == viewer_args(
                feh_arg@,
                texts(paths@),
            )[k],
        args[0]@ == feh_arg@,
        forall|i: int|
            0 <= i < paths.len() ==> (#[trigger] args[1 + 2 * i])@ == randomize_flag() && args[2 + 2
                * i]@ == paths[i]@,
{
    let ghost model = viewer_args(feh_arg@, texts(paths@));
    let mut args: Vec<String> = Vec::new();
    args.push(feh_arg.to_owned());
    let mut i: usize = 0;
    while i < paths.len()
        invariant
            i <= paths.len(),
            model == viewer_args(feh_arg@, texts(paths@)),
            args.len() == 1 + 2 * i,
            forall|k: int| 0 <= k < args.len() ==> (#[trigger] args[k])@ == model[k],
        decreases paths.len() - i,
    {
        args.push("--randomize".to_owned());
        args.push(paths[i].clone());
        i += 1;
    }
    assert(texts(args@) =~= model);
    assert forall|j: int| 0 <= j < paths.len() implies (#[trigger] args[1 + 2 * j])@
        == randomize_flag() && args[2 + 2 * j]@ == paths[j]@ by {
        assert(args[1 + 2 * j]@ == model[1 + 2 * j]);
        assert(args[2 + 2 * j]@ == model[2 + 2 * j]);
    }
    args
}

} // verus!
