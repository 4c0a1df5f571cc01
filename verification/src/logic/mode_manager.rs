use vstd::prelude::*;

use crate::logic::config::{name_views, InputConfig};

verus! {

/// The input mode a window should be switched to.
#[derive(Debug, Clone, Copy, PartialEq, Eq, Structural)]
pub enum InputMode {
    English,
    Chinese,
}

/// Decides the input mode for the process that owns the foreground window.
pub struct ModeDecision;

/// A character with ASCII upper case folded to lower case, as a code point.
pub open spec fn fold_char(c: char) -> u32 {
    if 'A' <= c && c <= 'Z' {
        (c as u32 + 32) as u32
    } else {
        c as u32
    }
}

/// A string with ASCII letters folded to lower case.
pub open spec fn ascii_fold(s: Seq<char>) -> Seq<u32> {
    s.map_values(|c: char| fold_char(c))
}

/// Two names are the same program name when they agree up to ASCII case.
pub open spec fn same_name(a: Seq<char>, b: Seq<char>) -> bool {
    ascii_fold(a) == ascii_fold(b)
}

/// Whether some entry of `list` names the same program as `name`.
pub open spec fn listed(list: Seq<Seq<char>>, name: Seq<char>) -> bool {
    exists|i: int| 0 <= i < list.len() && same_name(#[trigger] list[i], name)
}

/// The views of a list of names.
pub open spec fn str_views(list: Seq<&str>) -> Seq<Seq<char>> {
    list.map_values(|s: &str| s@)
}

/// The mode switch for a process: to English when it is on the English list and
/// the input is not English now; else to Chinese when it is on the Chinese list
/// and the input is English now; else none.
pub open spec fn spec_for_process(
    exe_name: Seq<char>,
    is_english: bool,
    eng_list: Seq<Seq<char>>,
    chn_list: Seq<Seq<char>>,
) -> Option<InputMode> {
    if listed(eng_list, exe_name) && !is_english {
        Some(InputMode::English)
    } else if listed(chn_list, exe_name) && is_english {
        Some(InputMode::Chinese)
    } else {
        None
    }
}

fn chars_of(s: &str) -> (v: Vec<char>)
    ensures
        v@ == s@,
{
    let mut v: Vec<char> = Vec::new();
    let ghost all = s@;
    for c in it: s.chars()
        invariant
            v@ == it.seq().take(it.index() as int),
            it.seq() == all,
    {
        v.push(c);
    }
    v
}

fn fold(c: char) -> (r: u32)
    ensures
        r == fold_char(c),
{
    if 'A' <= c && c <= 'Z' {
        c as u32 + 32
    } else {
        c as u32
    }
}

/// Compares two program names, ignoring the case of ASCII letters.
pub fn names_match(a: &str, b: &str) -> (r: bool)
    ensures
        r == same_name(a@, b@),
{
    let ca = chars_of(a);
    let cb = chars_of(b);
    if ca.len() != cb.len() {
        assert(ascii_fold(a@).len() != ascii_fold(b@).len());
        return false;
    }
    let n = ca.len();
    let mut i: usize = 0;
    while i < n
        invariant
            n == ca.len(),
            n == cb.len(),
            ca@ == a@,
            cb@ == b@,
            0 <= i <= n,
            forall|k: int| 0 <= k < i ==> fold_char(#[trigger] ca@[k]) == fold_char(cb@[k]),
        decreases n - i,
    {
        if fold(ca[i]) != fold(cb[i]) {
            assert(ascii_fold(a@)[i as int] != ascii_fold(b@)[i as int]);
            return false;
        }
        i = i + 1;
    }
    assert(ascii_fold(a@) =~= ascii_fold(b@));
    true
}

/// Whether `name` matches an entry of `list`, ignoring ASCII case.
pub fn is_listed(list: &[&str], name: &str) -> (r: bool)
    ensures
        r == listed(str_views(list@), name@),
{
    let mut i: usize = 0;
    while i < list.len()
        invariant
            0 <= i <= list@.len(),
            forall|k: int| 0 <= k < i ==> !same_name(#[trigger] str_views(list@)[k], name@),
        decreases list@.len() - i,
    {
        if names_match(list[i], name) {
            assert(str_views(list@)[i as int] == list@[i as int]@);
            return true;
        }
        assert(str_views(list@)[i as int] == list@[i as int]@);
        i = i + 1;
    }
    false
}

impl ModeDecision {
    /// The mode to switch to for the process `exe_name`, given whether the input
    /// is English now and the two lists of program names (matched without regard
    /// to ASCII case). `None` means: leave the input mode alone.
    pub fn for_process(exe_name: &str, is_english: bool, eng_list: &[&str], chn_list: &[&str]) -> (r: Option<InputMode>)
        ensures
            r == spec_for_process(exe_name@, is_english, str_views(eng_list@), str_views(chn_list@)),
    {
        if is_listed(eng_list, exe_name) {
            if !is_english {
                return Some(InputMode::English);
            }
        }
        if is_listed(chn_list, exe_name) {
            if is_english {
                return Some(InputMode::Chinese);
            }
        }
        None
    }

    /// The mode switch for the foreground process `exe_name` under `cfg`. When
    /// the current input mode could not be read (`None`), it counts as English.
    pub fn for_config(exe_name: &str, is_english: Option<bool>, cfg: &InputConfig) -> (r: Option<InputMode>)
        ensures
            r == spec_for_process(
                exe_name@,
                is_english.unwrap_or(true),
                name_views(cfg.eng@),
                name_views(cfg.chinese@),
            ),
    {
        let english_now = match is_english {
            Some(e) => e,
            None => true,
        };
        let eng_list = borrow_names(&cfg.eng);
        let chn_list = borrow_names(&cfg.chinese);
        ModeDecision::for_process(exe_name, english_now, eng_list.as_slice(), chn_list.as_slice())
    }
}

/// The names of `v` as string slices.
fn borrow_names<'a>(v: &'a Vec<String>) -> (out: Vec<&'a str>)
    ensures
        str_views(out@) == name_views(v@),
{
    let mut out: Vec<&'a str> = Vec::new();
    let mut i: usize = 0;
    while i < v.len()
        invariant
            0 <= i <= v@.len(),
            out@.len() == i,
            forall|k: int| 0 <= k < i ==> (#[trigger] out@[k])@ == v@[k]@,
        decreases v@.len() - i,
    {
        out.push(v[i].as_str());
        i = i + 1;
    }
    assert(str_views(out@) =~= name_views(v@));
    out
}

/// A decision never asks for the mode already in use: English only for a listed
/// English program while the input is not English, Chinese only for a listed
/// Chinese program while the input is English; and an English-listed program
/// with non-English input always gets English, whatever the Chinese list says.
pub proof fn lemma_decision_switches_away(
    exe_name: Seq<char>,
    is_english: bool,
    eng_list: Seq<Seq<char>>,
    chn_list: Seq<Seq<char>>,
)
    ensures
        spec_for_process(exe_name, is_english, eng_list, chn_list) == Some(InputMode::English)
            <==> (listed(eng_list, exe_name) && !is_english),
        spec_for_process(exe_name, is_english, eng_list, chn_list) == Some(InputMode::Chinese)
            ==> (listed(chn_list, exe_name) && is_english),
        spec_for_process(exe_name, is_english, eng_list, chn_list) is None
            <==> !(listed(eng_list, exe_name) && !is_english) && !(listed(chn_list, exe_name) && is_english),
{
}

/// Program names are matched without regard to ASCII case: two names that
/// differ only in the case of ASCII letters get the same decision.
pub proof fn lemma_decision_ignores_ascii_case(
    a: Seq<char>,
    b: Seq<char>,
    is_english: bool,
    eng_list: Seq<Seq<char>>,
    chn_list: Seq<Seq<char>>,
)
    requires
        same_name(a, b),
    ensures
        spec_for_process(a, is_english, eng_list, chn_list) == spec_for_process(b, is_english, eng_list, chn_list),
{
    assert(listed(eng_list, a) == listed(eng_list, b));
    assert(listed(chn_list, a) == listed(chn_list, b));
}

/// Every entry of a list counts, wherever it stands: an empty list names no
/// program, and a list with one more entry names a program exactly when the
/// shorter list names it or the new entry is the same name up to ASCII case.
pub proof fn lemma_listed_by_entries(list: Seq<Seq<char>>, entry: Seq<char>, name: Seq<char>)
    ensures
        !listed(Seq::<Seq<char>>::empty(), name),
        listed(list.push(entry), name) == (listed(list, name) || same_name(entry, name)),
        forall|i: int| 0 <= i < list.len() && same_name(#[trigger] list[i], name) ==> listed(list, name),
{
    let l2 = list.push(entry);
    if same_name(entry, name) {
        assert(l2[list.len() as int] == entry);
    }
    if listed(list, name) {
        let i = choose|i: int| 0 <= i < list.len() && same_name(#[trigger] list[i], name);
        assert(l2[i] == list[i]);
    }
    if listed(l2, name) {
        let i = choose|i: int| 0 <= i < l2.len() && same_name(#[trigger] l2[i], name);
        if i < list.len() {
            assert(l2[i] == list[i]);
        }
    }
}

/// A program that appears anywhere in the English list, up to ASCII case, is
/// switched to English while the input is not English; one that appears anywhere
/// in the Chinese list and nowhere in the English list is switched to Chinese
/// while the input is English; a program in neither list is never switched.
pub proof fn lemma_for_process_finds_any_entry(
    exe_name: Seq<char>,
    is_english: bool,
    eng_list: Seq<Seq<char>>,
    chn_list: Seq<Seq<char>>,
    i: int,
)
    ensures
        0 <= i < eng_list.len() && same_name(eng_list[i], exe_name) && !is_english
            ==> spec_for_process(exe_name, is_english, eng_list, chn_list) == Some(InputMode::English),
        0 <= i < chn_list.len() && same_name(chn_list[i], exe_name) && is_english
            ==> spec_for_process(exe_name, is_english, eng_list, chn_list) == Some(InputMode::Chinese),
        (forall|k: int| 0 <= k < eng_list.len() ==> !same_name(#[trigger] eng_list[k], exe_name))
            && (forall|k: int| 0 <= k < chn_list.len() ==> !same_name(#[trigger] chn_list[k], exe_name))
            ==> spec_for_process(exe_name, is_english, eng_list, chn_list) is None,
{
    if 0 <= i < eng_list.len() && same_name(eng_list[i], exe_name) {
        assert(listed(eng_list, exe_name));
    }
    if 0 <= i < chn_list.len() && same_name(chn_list[i], exe_name) {
        assert(listed(chn_list, exe_name));
    }
}

} // verus!
