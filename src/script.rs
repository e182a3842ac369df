use vstd::prelude::*;
use vstd::string::*;
use crate::board::{action_for, ActionView};
use crate::event::InputEvent;
use crate::keys::key_name_of;
use crate::resolve::{select_scripts, selected, stem_of, views};

verus! {

/// The directory that holds the macro scripts of a user whose home directory
/// is `home`.
pub open spec fn config_dir_of(home: Seq<char>) -> Seq<char> {
    home + "/.config/evdev-macros/"@
}

/// One script to launch: the program's path and the directory it runs in.
/// Every launch has its standard input closed.
#[derive(Clone, Debug, PartialEq, Eq)]
pub struct Launch {
    pub program: String,
    pub working_dir: String,
}

/// Why running the macro of a key failed.
#[derive(Clone, Debug, PartialEq, Eq)]
pub enum MacroError {
    /// The real user has no account entry any more.
    UserMissing,
    /// The configuration directory could not be listed.
    DirectoryUnreadable { message: String },
    /// No entry of the configuration directory has the key's name as its stem.
    NoScript { key_name: String },
    /// The operating system refused to start a script.
    SpawnFailed { program: String, message: String },
}

impl MacroError {
    /// The text that reports the error.
    pub open spec fn message_spec(&self) -> Seq<char> {
        match self {
            MacroError::UserMissing => "User no longer exists!"@,
            MacroError::DirectoryUnreadable { message } => message@,
            MacroError::NoScript { key_name } => "No script for "@ + key_name@,
            MacroError::SpawnFailed { program, message } => "Cannot run "@ + program@ + ": "@ + message@,
        }
    }

    /// The text that reports this error to the user.
    pub fn message(&self) -> (r: String)
        ensures
            r@ == self.message_spec(),
    {
        match self {
            MacroError::UserMissing => String::from_str("User no longer exists!"),
            MacroError::DirectoryUnreadable { message } => message.clone(),
            MacroError::NoScript { key_name } => {
                let mut s = String::from_str("No script for ");
                s.append(key_name.as_str());
                s
            },
            MacroError::SpawnFailed { program, message } => {
                let mut s = String::from_str("Cannot run ");
                s.append(program.as_str());
                s.append(": ");
                s.append(message.as_str());
                s
            },
        }
    }
}

/// The launches for the selected scripts of `dir`, one per name, in order.
pub open spec fn launches_of(dir: Seq<char>, names: Seq<Seq<char>>) -> Seq<(Seq<char>, Seq<char>)> {
    names.map_values(|n: Seq<char>| (dir + n, dir))
}

/// What a listing of `dir` plans for the key `key`: the launches of the
/// entries whose stem is `key`, or `None` when there is no such entry.
pub open spec fn plan_of(dir: Seq<char>, names: Seq<Seq<char>>, key: Seq<char>) -> Option<Seq<(Seq<char>, Seq<char>)>> {
    let chosen = selected(names, key);
    if chosen.len() == 0 {
        None
    } else {
        Some(launches_of(dir, chosen))
    }
}

/// Each launch as its program path and working directory.
pub open spec fn launch_views(v: Seq<Launch>) -> Seq<(Seq<char>, Seq<char>)> {
    v.map_values(|l: Launch| (l.program@, l.working_dir@))
}

/// The configuration directory of a user with the given home directory.
pub fn config_dir(home: &str) -> (r: String)
    ensures
        r@ == config_dir_of(home@),
{
    let mut dir = String::from_str(home);
    dir.append("/.config/evdev-macros/");
    dir
}

/// The configuration directory of the real user, given the home directory
/// found for the user's account, or `None` when the account is gone.
pub fn macro_dir(home: Option<&str>) -> (r: Result<String, MacroError>)
    ensures
        home.is_none() <==> r == Err::<String, MacroError>(MacroError::UserMissing),
        home.is_some() ==> r.is_ok() && r.unwrap()@ == config_dir_of(home.unwrap()@),
{
    match home {
        Some(h) => Ok(config_dir(h)),
        None => Err(MacroError::UserMissing),
    }
}

/// Decides what to launch for the key named `key_name`, given the listing of
/// the configuration directory `dir` (the entries' file names, or the reason it
/// could not be read). Every entry whose stem equals the key's name is launched
/// from `dir`; a key without any such entry is an error.
pub fn plan_launches(dir: &str, listing: Result<Vec<String>, String>, key_name: &str) -> (r: Result<Vec<Launch>, MacroError>)
    ensures
        match listing {
            Err(m) => r == Err::<Vec<Launch>, MacroError>(MacroError::DirectoryUnreadable { message: m }),
            Ok(names) => match plan_of(dir@, views(names@), key_name@) {
                None => r.is_err() && r->Err_0 is NoScript && r->Err_0->key_name@ == key_name@,
                Some(ls) => r.is_ok() && launch_views(r->Ok_0@) == ls,
            },
        },
{
    match listing {
        Err(message) => Err(MacroError::DirectoryUnreadable { message }),
        Ok(names) => {
            let chosen = select_scripts(&names, key_name);
            if chosen.len() == 0 {
                return Err(MacroError::NoScript { key_name: String::from_str(key_name) });
            }
            let mut out: Vec<Launch> = Vec::new();
            let mut i: usize = 0;
            while i < chosen.len()
                invariant
                    i <= chosen@.len(),
                    launch_views(out@) == launches_of(dir@, views(chosen@.subrange(0, i as int))),
                decreases chosen@.len() - i,
            {
                let program = String::from_str(dir).concat(chosen[i].as_str());
                let ghost prev = out@;
                let ghost pv = program@;
                let launch = Launch { program, working_dir: String::from_str(dir) };
                out.push(launch);
                assert(out@ =~= prev.push(launch));
                assert(launch_views(out@) =~= launch_views(prev).push((pv, dir@)));
                assert(views(chosen@.subrange(0, i + 1)) =~= views(chosen@.subrange(0, i as int)).push(chosen@[i as int]@));
                assert(launch_views(out@) =~= launches_of(dir@, views(chosen@.subrange(0, i + 1))));
                i = i + 1;
            }
            assert(chosen@.subrange(0, chosen@.len() as int) =~= chosen@);
            Ok(out)
        },
    }
}

/// The summary of the desktop notification that reports a failed macro.
pub fn failure_summary(key_name: &str) -> (r: String)
    ensures
        r@ == "Error executing "@ + key_name@ + " macro"@,
{
    let mut s = String::from_str("Error executing ");
    s.append(key_name);
    s.append(" macro");
    s
}

/// A key release whose name is the stem of no entry of the listing plans no
/// launch: the release asks for the key's macro, and the plan is the error case.
pub proof fn lemma_unmatched_release_launches_nothing(ev: InputEvent, dir: Seq<char>, names: Seq<Seq<char>>)
    requires
        ev.is_release_spec(),
        forall|i: int| 0 <= i < names.len() ==> stem_of(names[i]) != key_name_of(ev.code),
    ensures
        action_for(ev) == (ActionView::RunMacro { key_name: key_name_of(ev.code) }),
        plan_of(dir, names, key_name_of(ev.code)).is_none(),
{
    lemma_selected_none(names, key_name_of(ev.code));
}

proof fn lemma_selected_none(names: Seq<Seq<char>>, key: Seq<char>)
    requires
        forall|i: int| 0 <= i < names.len() ==> stem_of(names[i]) != key,
    ensures
        selected(names, key) == Seq::<Seq<char>>::empty(),
    decreases names.len(),
{
    reveal(Seq::filter);
    if names.len() > 0 {
        let rest = names.drop_last();
        assert forall|i: int| 0 <= i < rest.len() implies stem_of(rest[i]) != key by {
            assert(rest[i] == names[i]);
        }
        lemma_selected_none(rest, key);
        assert(stem_of(names[names.len() - 1]) != key);
    } else {
        assert(names.filter(|n: Seq<char>| stem_of(n) == key) =~= Seq::<Seq<char>>::empty());
    }
}

/// A key release whose name is the stem of exactly one entry plans exactly one
/// launch: that entry's path, run from the configuration directory.
pub proof fn lemma_single_match_launches_once(ev: InputEvent, dir: Seq<char>, names: Seq<Seq<char>>, i: int)
    requires
        ev.is_release_spec(),
        0 <= i < names.len(),
        stem_of(names[i]) == key_name_of(ev.code),
        forall|j: int| 0 <= j < names.len() && j != i ==> stem_of(names[j]) != key_name_of(ev.code),
    ensures
        action_for(ev) == (ActionView::RunMacro { key_name: key_name_of(ev.code) }),
        plan_of(dir, names, key_name_of(ev.code)) == Some(seq![(dir + names[i], dir)]),
{
    let key = key_name_of(ev.code);
    lemma_selected_single(names, key, i);
    assert(launches_of(dir, seq![names[i]]) =~= seq![(dir + names[i], dir)]);
}

proof fn lemma_selected_single(names: Seq<Seq<char>>, key: Seq<char>, i: int)
    requires
        0 <= i < names.len(),
        stem_of(names[i]) == key,
        forall|j: int| 0 <= j < names.len() && j != i ==> stem_of(names[j]) != key,
    ensures
        selected(names, key) == seq![names[i]],
    decreases names.len(),
{
    reveal(Seq::filter);
    let pred = |n: Seq<char>| stem_of(n) == key;
    if i == names.len() - 1 {
        let rest = names.drop_last();
        assert forall|j: int| 0 <= j < rest.len() implies stem_of(rest[j]) != key by {
            assert(rest[j] == names[j]);
        }
        lemma_selected_none(rest, key);
        let sub = rest.filter(pred);
        assert(names.filter(pred) == sub.push(names.last()));
        assert(sub.push(names.last()) =~= seq![names[i]]);
    } else {
        let rest = names.drop_last();
        lemma_selected_single(rest, key, i);
        assert(rest[i] == names[i]);
        assert(names.filter(pred) == rest.filter(pred));
    }
}

/// Each entry whose stem is the released key's name is launched once, from the
/// configuration directory: the plan holds one launch per such entry, in
/// listing order, and no other.
pub proof fn lemma_launch_per_match(ev: InputEvent, dir: Seq<char>, names: Seq<Seq<char>>)
    requires
        ev.is_release_spec(),
        exists|i: int| 0 <= i < names.len() && stem_of(names[i]) == key_name_of(ev.code),
    ensures
        action_for(ev) == (ActionView::RunMacro { key_name: key_name_of(ev.code) }),
        plan_of(dir, names, key_name_of(ev.code)) is Some,
        ({
            let chosen = selected(names, key_name_of(ev.code));
            let ls = plan_of(dir, names, key_name_of(ev.code))->Some_0;
            &&& ls.len() == chosen.len()
            &&& forall|k: int| 0 <= k < ls.len() ==> ls[k] == (dir + chosen[k], dir)
            &&& forall|k: int| 0 <= k < chosen.len() ==> stem_of(chosen[k]) == key_name_of(ev.code)
            &&& forall|j: int| 0 <= j < names.len() && stem_of(names[j]) == key_name_of(ev.code) ==> chosen.contains(names[j])
        }),
{
    let key = key_name_of(ev.code);
    let pred = |n: Seq<char>| stem_of(n) == key;
    names.filter_lemma(pred);
    let i = choose|i: int| 0 <= i < names.len() && stem_of(names[i]) == key;
    assert(selected(names, key).contains(names[i]));
}

} // verus!
