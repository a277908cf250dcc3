//! How the program was called. As a plugin of the docker command line it is
//! handed docker's own arguments first, then its name, then what is meant
//! for it; docker also calls it for a description of itself.

use crate::gateway::copy_words;
use crate::instances::contains_id;
use vstd::prelude::*;
use vstd::string::*;

verus! {

/// The name under which docker calls the plugin.
pub open spec fn marker() -> Seq<char> {
    "reroll"@
}

/// The argument with which docker asks a plugin to describe itself.
pub open spec fn metadata_word() -> Seq<char> {
    "docker-cli-plugin-metadata"@
}

/// The call asks for the plugin's description: its first argument after the
/// program's name says so.
pub open spec fn asks_for_metadata(args: Seq<Seq<char>>) -> bool {
    args.len() >= 2 && args[1] == metadata_word()
}

/// The place of the first marker in `args` at or after `from`; the length of
/// `args` where there is none.
pub open spec fn first_marker(args: Seq<Seq<char>>, from: int) -> int
    decreases args.len() - from,
{
    if from >= args.len() {
        args.len() as int
    } else if args[from] == marker() {
        from
    } else {
        first_marker(args, from + 1)
    }
}

/// The arguments meant for docker: where the marker stands anywhere in the
/// call, those between the program's name and the first marker after it.
pub open spec fn docker_part(args: Seq<Seq<char>>) -> Seq<Seq<char>> {
    if args.contains(marker()) {
        args.subrange(1, first_marker(args, 1))
    } else {
        Seq::empty()
    }
}

/// The arguments meant for the program, its name first: where the marker
/// stands anywhere in the call, the name and what follows the first marker
/// after it, less every further marker; otherwise the whole call.
pub open spec fn own_part(args: Seq<Seq<char>>) -> Seq<Seq<char>> {
    if args.contains(marker()) {
        seq![args[0]] + args.skip(first_marker(args, 1)).filter(|arg: Seq<char>| arg != marker())
    } else {
        args
    }
}

/// A call, taken apart.
#[derive(Debug)]
pub struct Invocation {
    /// What is passed on to every call of docker.
    pub docker_args: Vec<String>,
    /// The program's name and its own arguments.
    pub own_args: Vec<String>,
}

/// Whether the call asks for the plugin's description.
pub fn is_metadata_request(args: &Vec<String>) -> (yes: bool)
    ensures
        yes == asks_for_metadata(args.deep_view()),
{
    assert(args.deep_view().len() == args.len());
    if args.len() < 2 {
        return false;
    }
    let word = String::from_str("docker-cli-plugin-metadata");
    assert(args.deep_view()[1] == args@[1]@);
    args[1] == word
}

/// Where the first marker stands.
proof fn lemma_first_marker(args: Seq<Seq<char>>, from: int)
    requires
        0 <= from <= args.len(),
    ensures
        from <= first_marker(args, from) <= args.len(),
        forall|j: int| from <= j < first_marker(args, from) ==> args[j] != marker(),
        first_marker(args, from) < args.len() ==> args[first_marker(args, from)] == marker(),
    decreases args.len() - from,
{
    if from < args.len() && args[from] != marker() {
        lemma_first_marker(args, from + 1);
    }
}

/// Takes the call `args` apart.
pub fn split_invocation(args: &Vec<String>) -> (call: Invocation)
    ensures
        call.docker_args.deep_view() == docker_part(args.deep_view()),
        call.own_args.deep_view() == own_part(args.deep_view()),
{
    let ghost all = args.deep_view();
    let ghost keep = |arg: Seq<char>| arg != marker();
    let word = String::from_str("reroll");
    let mut docker_args: Vec<String> = Vec::new();
    assert(docker_args.deep_view() =~= Seq::<Seq<char>>::empty());
    if !contains_id(args, &word) {
        return Invocation { docker_args, own_args: copy_words(args) };
    }
    assert(all.len() == args.len());
    let mut own_args: Vec<String> = Vec::new();
    own_args.push(args[0].clone());
    let mut found = false;
    let mut i: usize = 1;
    let ghost first = first_marker(all, 1);
    proof {
        lemma_first_marker(all, 1);
        reveal(Seq::filter);
        assert(own_args.deep_view() =~= seq![all[0]]);
        assert(docker_args.deep_view() =~= all.subrange(1, 1));
    }
    while i < args.len()
        invariant
            1 <= i <= args.len(),
            all == args.deep_view(),
            word@ == marker(),
            keep == |arg: Seq<char>| arg != marker(),
            first == first_marker(all, 1),
            1 <= first <= all.len(),
            forall|j: int| 1 <= j < first ==> all[j] != marker(),
            first < all.len() ==> all[first] == marker(),
            found == (first < i),
            !found ==> docker_args.deep_view() == all.subrange(1, i as int),
            !found ==> own_args.deep_view() == seq![all[0]],
            found ==> docker_args.deep_view() == all.subrange(1, first),
            found ==> own_args.deep_view() == seq![all[0]] + all.subrange(first, i as int).filter(
                keep,
            ),
        decreases args.len() - i,
    {
        let ghost own_before = own_args.deep_view();
        let ghost docker_before = docker_args.deep_view();
        let is_marker = args[i] == word;
        assert(is_marker == (all[i as int] == marker()));
        proof {
            if first <= i {
                all.subrange(first, i as int).lemma_filter_push(all[i as int], keep);
                assert(all.subrange(first, i as int).push(all[i as int]) =~= all.subrange(
                    first,
                    i + 1,
                ));
            } else {
                reveal(Seq::filter);
                assert(all.subrange(first, first).filter(keep) =~= Seq::<Seq<char>>::empty());
            }
        }
        if is_marker {
            found = true;
        } else if found {
            own_args.push(args[i].clone());
            assert(own_args.deep_view() =~= own_before.push(all[i as int]));
            assert(own_args.deep_view() =~= seq![all[0]] + all.subrange(first, i + 1).filter(
                keep,
            ));
        } else {
            docker_args.push(args[i].clone());
            assert(docker_args.deep_view() =~= docker_before.push(all[i as int]));
            assert(docker_args.deep_view() =~= all.subrange(1, i + 1));
        }
        i += 1;
    }
    proof {
        assert(all.subrange(first, all.len() as int) =~= all.skip(first));
        if !found {
            reveal(Seq::filter);
            assert(all.skip(first).filter(keep) =~= Seq::<Seq<char>>::empty());
            assert(own_args.deep_view() =~= seq![all[0]] + all.skip(first).filter(keep));
        }
    }
    Invocation { docker_args, own_args }
}

} // verus!
