//! Search paths, counters and flags read from the environment.

use vstd::prelude::*;
use crate::environment::{
    flag_var, raw_var, text_var, EnvModel, Environment, TextVar, INSIDE_DEVELOP_VAR,
    SEARCH_PATH_VAR,
};
use crate::model::Model;
use crate::number::{parse_u32, parsed_u32};
use crate::paths::{join, path_join};
use crate::world::{
    extends, lemma_known_stays, settled, status_of, ObsModel, Observations, Query, QueryModel, Step,
    StepModel,
};
use vstd::string::StringExecFns;

verus! {

/// What separates the entries of a search path.
pub const PATH_SEPARATOR: char = ':';

/// The entries of a search path: the stretches between its separators. A
/// text without separator is one entry, the empty text too.
pub open spec fn split_on(text: Seq<char>, sep: char) -> Seq<Seq<char>>
    decreases text.len(),
{
    if text.len() == 0 {
        seq![Seq::<char>::empty()]
    } else {
        let before = split_on(text.drop_last(), sep);
        if text.last() == sep {
            before.push(Seq::<char>::empty())
        } else {
            before.drop_last().push(before.last().push(text.last()))
        }
    }
}

/// The search path made of some entries: the entries with a separator
/// between each two of them.
pub open spec fn join_with(parts: Seq<Seq<char>>, sep: char) -> Seq<char>
    decreases parts.len(),
{
    if parts.len() == 0 {
        Seq::<char>::empty()
    } else if parts.len() == 1 {
        parts[0]
    } else {
        join_with(parts.drop_last(), sep) + seq![sep] + parts.last()
    }
}

/// Whether a text is free of a character.
pub open spec fn free_of(text: Seq<char>, sep: char) -> bool {
    forall|i: int| 0 <= i < text.len() ==> #[trigger] text[i] != sep
}

/// Splitting always gives at least one entry.
pub proof fn lemma_split_nonempty(text: Seq<char>, sep: char)
    ensures
        split_on(text, sep).len() >= 1,
    decreases text.len(),
{
    if text.len() > 0 {
        lemma_split_nonempty(text.drop_last(), sep);
    }
}

/// A text without separator is a single entry.
pub proof fn lemma_split_single(text: Seq<char>, sep: char)
    requires
        free_of(text, sep),
    ensures
        split_on(text, sep) == seq![text],
    decreases text.len(),
{
    if text.len() == 0 {
        assert(text =~= Seq::<char>::empty());
    } else {
        let init = text.drop_last();
        assert forall|i: int| 0 <= i < init.len() implies #[trigger] init[i] != sep by {
            assert(init[i] == text[i]);
        }
        lemma_split_single(init, sep);
        assert(text[text.len() - 1] != sep);
        assert(seq![init].drop_last().push(seq![init].last().push(text.last())) =~= seq![text]) by {
            assert(init.push(text.last()) =~= text);
        }
    }
}

/// Splitting two texts with a separator between them gives the entries of
/// the first, then those of the second.
pub proof fn lemma_split_concat(first: Seq<char>, second: Seq<char>, sep: char)
    ensures
        split_on(first + seq![sep] + second, sep) == split_on(first, sep) + split_on(second, sep),
    decreases second.len(),
{
    let whole = first + seq![sep] + second;
    if second.len() == 0 {
        assert(whole.drop_last() =~= first);
        assert(whole.last() == sep);
        assert(split_on(first, sep).push(Seq::<char>::empty()) =~= split_on(first, sep) + seq![
            Seq::<char>::empty(),
        ]);
    } else {
        let shorter = second.drop_last();
        lemma_split_concat(first, shorter, sep);
        lemma_split_nonempty(shorter, sep);
        assert(whole.drop_last() =~= first + seq![sep] + shorter);
        assert(whole.last() == second.last());
        let a = split_on(first, sep);
        let b = split_on(shorter, sep);
        if second.last() == sep {
            assert((a + b).push(Seq::<char>::empty()) =~= a + b.push(Seq::<char>::empty()));
        } else {
            assert((a + b).drop_last().push((a + b).last().push(second.last())) =~= a
                + b.drop_last().push(b.last().push(second.last())));
        }
    }
}

/// The entries that were joined are the entries that splitting finds again,
/// as long as none of them holds a separator.
pub proof fn lemma_split_join(parts: Seq<Seq<char>>, sep: char)
    requires
        parts.len() > 0,
        forall|i: int| 0 <= i < parts.len() ==> free_of(#[trigger] parts[i], sep),
    ensures
        split_on(join_with(parts, sep), sep) == parts,
    decreases parts.len(),
{
    if parts.len() == 1 {
        lemma_split_single(parts[0], sep);
        assert(seq![parts[0]] =~= parts);
    } else {
        let init = parts.drop_last();
        assert forall|i: int| 0 <= i < init.len() implies free_of(#[trigger] init[i], sep) by {
            assert(init[i] == parts[i]);
        }
        lemma_split_join(init, sep);
        lemma_split_concat(join_with(init, sep), parts.last(), sep);
        lemma_split_single(parts.last(), sep);
        assert(init + seq![parts.last()] =~= parts);
    }
}

/// The stretches of a text between the occurrences of `sep`.
pub fn split_text(text: &str, sep: char) -> (parts: Vec<String>)
    ensures
        parts.model() == split_on(text@, sep),
{
    let len = text.unicode_len();
    let mut parts: Vec<String> = Vec::new();
    let mut start: usize = 0;
    let mut i: usize = 0;
    proof {
        assert(text@.take(0) =~= Seq::<char>::empty());
        assert(parts.model().push(text@.subrange(0, 0)) =~= seq![Seq::<char>::empty()]);
    }
    while i < len
        invariant
            start <= i <= len,
            len == text@.len(),
            split_on(text@.take(i as int), sep) == parts.model().push(
                text@.subrange(start as int, i as int),
            ),
        decreases len - i,
    {
        let ghost before = parts.model();
        let ghost prefix = text@.take(i as int);
        let ghost longer = text@.take(i + 1);
        assert(longer.drop_last() =~= prefix);
        assert(longer.last() == text@[i as int]);
        if text.get_char(i) == sep {
            parts.push(String::from_str(text.substring_char(start, i)));
            assert(parts.model() =~= before.push(text@.subrange(start as int, i as int)));
            start = i + 1;
            assert(text@.subrange(start as int, i + 1) =~= Seq::<char>::empty());
        } else {
            assert(before.push(text@.subrange(start as int, i as int)).drop_last() =~= before);
            assert(text@.subrange(start as int, i as int).push(text@[i as int]) =~= text@.subrange(
                start as int,
                i + 1,
            ));
        }
        i = i + 1;
    }
    assert(text@.take(len as int) =~= text@);
    let ghost before = parts.model();
    parts.push(String::from_str(text.substring_char(start, len)));
    assert(parts.model() =~= before.push(text@.subrange(start as int, len as int)));
    parts
}

/// The entries of a search path.
pub fn split_paths(text: &str) -> (parts: Vec<String>)
    ensures
        parts.model() == split_on(text@, PATH_SEPARATOR),
{
    split_text(text, PATH_SEPARATOR)
}

/// The search path made of some entries.
pub fn join_paths(parts: &Vec<String>) -> (text: String)
    ensures
        text@ == join_with(parts.model(), PATH_SEPARATOR),
{
    let mut text = String::new();
    let mut i: usize = 0;
    while i < parts.len()
        invariant
            i <= parts.len(),
            text@ == join_with(parts.model().take(i as int), PATH_SEPARATOR),
        decreases parts.len() - i,
    {
        let ghost longer = parts.model().take(i + 1);
        assert(longer.drop_last() =~= parts.model().take(i as int));
        assert(longer.last() == parts.model()[i as int]);
        if i > 0 {
            proof {
                reveal_strlit(":");
            }
            text.append(":");
            assert(":"@ =~= seq![PATH_SEPARATOR]);
        } else {
            assert(text@ =~= Seq::<char>::empty());
            assert(Seq::<char>::empty() + parts.model()[0] =~= parts.model()[0]);
        }
        text.append(parts[i].as_str());
        i = i + 1;
    }
    assert(parts.model().take(parts.len() as int) =~= parts.model());
    text
}

/// A search path with new entries in front of what it held.
pub open spec fn prepended(current: Option<Seq<char>>, new: Seq<Seq<char>>) -> Seq<char> {
    match current {
        None => join_with(new, PATH_SEPARATOR),
        Some(held) => join_with(new.push(held), PATH_SEPARATOR),
    }
}

/// A search path is prefixed, never replaced: its entries after the call are
/// the new entries followed by all the entries it held, in their order.
pub proof fn lemma_prepended_keeps_entries(held: Seq<char>, new: Seq<Seq<char>>)
    requires
        forall|i: int| 0 <= i < new.len() ==> free_of(#[trigger] new[i], PATH_SEPARATOR),
    ensures
        split_on(prepended(Some(held), new), PATH_SEPARATOR) == new + split_on(
            held,
            PATH_SEPARATOR,
        ),
    decreases new.len(),
{
    let sep = PATH_SEPARATOR;
    let all = new.push(held);
    if new.len() == 0 {
        assert(join_with(all, sep) == held);
        assert(new + split_on(held, sep) =~= split_on(held, sep));
    } else {
        assert(all.drop_last() =~= new);
        assert(all.last() == held);
        lemma_split_concat(join_with(new, sep), held, sep);
        lemma_split_join(new, sep);
    }
}

/// Puts the entries `new` in front of the search path `current`.
pub fn prepend_paths(current: Option<&str>, new: &Vec<String>) -> (path: String)
    ensures
        path@ == prepended(current.model(), new.model()),
{
    match current {
        None => join_paths(new),
        Some(held) => {
            let mut text = join_paths(new);
            if new.len() > 0 {
                proof {
                    reveal_strlit(":");
                }
                text.append(":");
                assert(":"@ =~= seq![PATH_SEPARATOR]);
            }
            text.append(held);
            proof {
                let all = new.model().push(held@);
                assert(all.drop_last() =~= new.model());
                if new.len() == 0 {
                    assert(text@ =~= held@);
                }
            }
            text
        },
    }
}

/// The number that a variable holds: what its text denotes, and zero where
/// the variable is not set, is not Unicode or denotes no number.
pub open spec fn counted(env: EnvModel, name: Seq<char>) -> u32 {
    match text_var(env, name) {
        TextVar::Text(text) => match parsed_u32(text) {
            Some(number) => number,
            None => 0,
        },
        _ => 0,
    }
}

/// The number that the variable `name` holds.
pub fn u32_from_env(env: &Environment, name: &str) -> (number: u32)
    ensures
        number == counted(env.model(), name@),
{
    match env.var(name) {
        Ok(text) => match parse_u32(text) {
            Some(number) => number,
            None => 0,
        },
        Err(_) => 0,
    }
}

/// Whether this process already runs inside a derived shell.
pub fn was_dispatched_into_flake(env: &Environment) -> (inside: bool)
    ensures
        inside == flag_var(env.model(), INSIDE_DEVELOP_VAR@),
{
    env.flag(INSIDE_DEVELOP_VAR)
}

/// The first of the directories from `from` on in which `name` is a file.
pub open spec fn found_in(
    obs: ObsModel,
    dirs: Seq<Seq<char>>,
    name: Seq<char>,
    from: int,
) -> StepModel<Option<Seq<char>>>
    decreases dirs.len() - from,
{
    if from < 0 || from >= dirs.len() {
        StepModel::Done(None)
    } else {
        let candidate = path_join(dirs[from], name);
        match status_of(obs, candidate) {
            None => StepModel::Need(QueryModel::Stat(candidate)),
            Some(status) => if status.is_file {
                StepModel::Done(Some(candidate))
            } else {
                found_in(obs, dirs, name, from + 1)
            },
        }
    }
}

/// The executable `name` as the search path of the environment finds it.
pub open spec fn executable_in_path(env: EnvModel, obs: ObsModel, name: Seq<char>) -> StepModel<
    Option<Seq<char>>,
> {
    match raw_var(env, SEARCH_PATH_VAR@) {
        None => StepModel::Done(None),
        Some(path) => found_in(obs, split_on(path, PATH_SEPARATOR), name, 0),
    }
}

/// Looks for the executable `name` in the directories of the search path.
pub fn find_executable_in_path(env: &Environment, obs: &Observations, name: &str) -> (found: Step<
    Option<String>,
>)
    ensures
        found.model() == executable_in_path(env.model(), obs.model(), name@),
{
    let path = match env.var_os(SEARCH_PATH_VAR) {
        None => {
            return Step::Done(None);
        },
        Some(path) => path,
    };
    let dirs = split_paths(path);
    let mut i: usize = 0;
    while i < dirs.len()
        invariant
            i <= dirs.len(),
            dirs.len() == dirs.model().len(),
            executable_in_path(env.model(), obs.model(), name@) == found_in(
                obs.model(),
                dirs.model(),
                name@,
                i as int,
            ),
        decreases dirs.len() - i,
    {
        let candidate = join(dirs[i].as_str(), name);
        match obs.stat(candidate.as_str()) {
            None => {
                return Step::Need(Query::Stat(candidate));
            },
            Some(status) => {
                if status.is_file {
                    return Step::Done(Some(candidate));
                }
            },
        }
        i = i + 1;
    }
    Step::Done(None)
}

/// The search in directories is settled.
pub proof fn lemma_found_in_settled(
    earlier: ObsModel,
    later: ObsModel,
    dirs: Seq<Seq<char>>,
    name: Seq<char>,
    from: int,
)
    requires
        extends(later, earlier),
    ensures
        settled(found_in(earlier, dirs, name, from), found_in(later, dirs, name, from), earlier),
    decreases dirs.len() - from,
{
    lemma_known_stays(earlier, later);
    if 0 <= from < dirs.len() {
        lemma_found_in_settled(earlier, later, dirs, name, from + 1);
    }
}

/// The search in the search path is settled.
pub proof fn lemma_executable_in_path_settled(
    env: EnvModel,
    earlier: ObsModel,
    later: ObsModel,
    name: Seq<char>,
)
    requires
        extends(later, earlier),
    ensures
        settled(
            executable_in_path(env, earlier, name),
            executable_in_path(env, later, name),
            earlier,
        ),
{
    if let Some(path) = raw_var(env, SEARCH_PATH_VAR@) {
        lemma_found_in_settled(earlier, later, split_on(path, PATH_SEPARATOR), name, 0);
    }
}

} // verus!
