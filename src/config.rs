use vstd::prelude::*;
use crate::text::{ascii_lowercase, is_ascii_lowering, lemma_ascii_lowering_unique, same_text, starts_with_dash};

verus! {

/// Whether closing the last window ends the process. Platforms where an
/// application lives on without windows keep it running.
pub fn should_exit_on_last_window_close(stays_open_without_windows: bool) -> (r: bool)
    ensures
        r == !stays_open_without_windows,
{
    !stays_open_without_windows
}

/// The words, in any ASCII case, that switch a diagnostic on.
pub open spec fn is_enabling_word(value: Seq<char>) -> bool {
    exists|r: Seq<char>|
        is_ascii_lowering(value, r) && (r == "1"@ || r == "true"@ || r == "yes"@ || r == "on"@)
}

/// Reads a switch from the environment's text for it: on for `1`, `true`,
/// `yes` or `on` in any ASCII case, off for anything else or no value.
pub fn flag_enabled(value: Option<&str>) -> (r: bool)
    ensures
        r == match value {
            Some(v) => is_enabling_word(v@),
            None => false,
        },
{
    match value {
        None => false,
        Some(v) => {
            let lowered = ascii_lowercase(v);
            let l = lowered.as_str();
            let r = same_text(l, "1") || same_text(l, "true") || same_text(l, "yes") || same_text(
                l,
                "on",
            );
            proof {
                if is_enabling_word(v@) {
                    let w = choose|w: Seq<char>|
                        is_ascii_lowering(v@, w) && (w == "1"@ || w == "true"@ || w == "yes"@
                            || w == "on"@);
                    lemma_ascii_lowering_unique(v@, w, lowered@);
                }
            }
            r
        },
    }
}

/// Index, among the program's arguments (the program itself first), of the
/// initial file scanning from `i`: the value after `--open`, or the first
/// argument that is not a flag.
pub open spec fn initial_path_from(args: Seq<Seq<char>>, i: int) -> Option<int>
    decreases args.len() - i,
{
    if i < 1 || i >= args.len() {
        None
    } else if args[i] == "--open"@ && i + 1 < args.len() {
        Some(i + 1)
    } else if !(args[i].len() > 0 && args[i][0] == '-') {
        Some(i)
    } else {
        initial_path_from(args, i + 1)
    }
}

pub open spec fn arg_texts(args: Seq<String>) -> Seq<Seq<char>> {
    args.map_values(|a: String| a@)
}

/// Picks the initial file from the program's arguments (the program itself
/// first): the value after `--open`, or the first argument that is not a
/// flag. Gives its index, so that the caller can take the argument as the
/// platform gave it.
pub fn parse_initial_path(args: &Vec<String>) -> (r: Option<usize>)
    ensures
        match r {
            Some(i) => initial_path_from(arg_texts(args@), 1) == Some(i as int),
            None => initial_path_from(arg_texts(args@), 1) is None,
        },
{
    let ghost texts = arg_texts(args@);
    let mut i: usize = 1;
    while i < args.len()
        invariant
            1 <= i,
            texts == arg_texts(args@),
            initial_path_from(texts, 1) == initial_path_from(texts, i as int),
        decreases args.len() - i,
    {
        let a = args[i].as_str();
        assert(texts[i as int] == a@);
        if same_text(a, "--open") && i + 1 < args.len() {
            return Some(i + 1);
        }
        if !starts_with_dash(a) {
            return Some(i);
        }
        i = i + 1;
    }
    None
}

} // verus!
