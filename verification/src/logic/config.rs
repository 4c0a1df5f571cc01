use vstd::prelude::*;

verus! {

/// Which programs get which input mode, and whether the Caps Lock interceptor runs.
///
/// The two lists stand for sets of program names: `from_raw` and `to_raw` keep
/// only the first occurrence of each name.
#[derive(Debug, Clone)]
pub struct InputConfig {
    pub eng: Vec<String>,
    pub chinese: Vec<String>,
    pub caps_interceptor: bool,
}

/// The configuration as it is stored: the `ENG` and `CHINESE` name lists and
/// the `CAPS_INTERCEPTOR` flag of the configuration file.
#[derive(Debug, Clone)]
pub struct RawConfig {
    pub eng: Vec<String>,
    pub chinese: Vec<String>,
    pub caps_interceptor: bool,
}

/// The Caps Lock interceptor is on unless the configuration turns it off.
pub open spec fn spec_default_caps_interceptor() -> bool {
    true
}

/// The value of `CAPS_INTERCEPTOR` when the configuration does not give one.
pub fn default_caps_interceptor() -> (b: bool)
    ensures
        b == spec_default_caps_interceptor(),
{
    true
}

/// The character sequences of a list of names.
pub open spec fn name_views(v: Seq<String>) -> Seq<Seq<char>> {
    v.map_values(|s: String| s@)
}

/// A list with every later repetition of an entry left out.
pub open spec fn dedup_seq(s: Seq<Seq<char>>) -> Seq<Seq<char>>
    decreases s.len(),
{
    if s.len() == 0 {
        s
    } else {
        let rest = dedup_seq(s.drop_last());
        if rest.contains(s.last()) {
            rest
        } else {
            rest.push(s.last())
        }
    }
}

impl InputConfig {
    /// The set of program names that get English input.
    pub open spec fn eng_names(&self) -> Set<Seq<char>> {
        name_views(self.eng@).to_set()
    }

    /// The set of program names that get Chinese input.
    pub open spec fn chinese_names(&self) -> Set<Seq<char>> {
        name_views(self.chinese@).to_set()
    }

    /// Each name occurs at most once in each list.
    pub open spec fn wf(&self) -> bool {
        name_views(self.eng@).no_duplicates() && name_views(self.chinese@).no_duplicates()
    }
}

/// The set of a list, and its lack of repetitions, after removing repetitions.
pub proof fn lemma_dedup_seq(s: Seq<Seq<char>>)
    ensures
        dedup_seq(s).no_duplicates(),
        dedup_seq(s).to_set() == s.to_set(),
    decreases s.len(),
{
    if s.len() > 0 {
        lemma_dedup_seq(s.drop_last());
        let rest = dedup_seq(s.drop_last());
        assert(s =~= s.drop_last().push(s.last()));
        s.drop_last().lemma_push_to_set_commute(s.last());
        if !rest.contains(s.last()) {
            rest.lemma_push_to_set_commute(s.last());
            assert forall|i: int, j: int| 0 <= i < j < rest.push(s.last()).len()
                implies rest.push(s.last())[i] != rest.push(s.last())[j] by {
                if j == rest.len() {
                    assert(rest.contains(rest[i]));
                }
            }
        } else {
            assert(rest.to_set().contains(s.last()));
            assert(rest.to_set().insert(s.last()) =~= rest.to_set());
        }
    }
}

/// A list without repetitions is left as it is.
pub proof fn lemma_dedup_seq_no_dup(s: Seq<Seq<char>>)
    requires
        s.no_duplicates(),
    ensures
        dedup_seq(s) == s,
    decreases s.len(),
{
    if s.len() > 0 {
        assert(s.drop_last().no_duplicates());
        lemma_dedup_seq_no_dup(s.drop_last());
        assert(!s.drop_last().contains(s.last())) by {
            if s.drop_last().contains(s.last()) {
                let k = choose|k: int| 0 <= k < s.drop_last().len() && s.drop_last()[k] == s.last();
                assert(s[k] == s[s.len() - 1]);
            }
        }
        assert(s.drop_last().push(s.last()) =~= s);
    }
}

fn contains_name(v: &Vec<String>, name: &String) -> (r: bool)
    ensures
        r == name_views(v@).contains(name@),
{
    let mut j: usize = 0;
    while j < v.len()
        invariant
            0 <= j <= v@.len(),
            forall|k: int| 0 <= k < j ==> name_views(v@)[k] != name@,
        decreases v@.len() - j,
    {
        if v[j] == *name {
            assert(name_views(v@)[j as int] == name@);
            return true;
        }
        j = j + 1;
    }
    false
}

/// The names of `v` with every repeated name kept only at its first occurrence.
pub fn dedup_names(v: &Vec<String>) -> (out: Vec<String>)
    ensures
        name_views(out@) == dedup_seq(name_views(v@)),
{
    let mut out: Vec<String> = Vec::new();
    let mut i: usize = 0;
    while i < v.len()
        invariant
            0 <= i <= v@.len(),
            name_views(out@) == dedup_seq(name_views(v@).take(i as int)),
        decreases v@.len() - i,
    {
        let ghost before = name_views(v@).take(i as int);
        let ghost next = name_views(v@).take(i + 1);
        assert(next.drop_last() =~= before);
        assert(next.last() == v@[i as int]@);
        if !contains_name(&out, &v[i]) {
            let s = v[i].clone();
            out.push(s);
            assert(name_views(out@) =~= dedup_seq(before).push(next.last()));
        }
        i = i + 1;
    }
    assert(name_views(v@).take(v@.len() as int) =~= name_views(v@));
    out
}

impl InputConfig {
    /// The configuration that a stored form describes: each name list becomes a
    /// set (kept in first-occurrence order), the flag is taken as it is.
    pub fn from_raw(raw: RawConfig) -> (cfg: InputConfig)
        ensures
            name_views(cfg.eng@) == dedup_seq(name_views(raw.eng@)),
            name_views(cfg.chinese@) == dedup_seq(name_views(raw.chinese@)),
            cfg.caps_interceptor == raw.caps_interceptor,
            cfg.wf(),
            cfg.eng_names() == name_views(raw.eng@).to_set(),
            cfg.chinese_names() == name_views(raw.chinese@).to_set(),
    {
        let eng = dedup_names(&raw.eng);
        let chinese = dedup_names(&raw.chinese);
        proof {
            lemma_dedup_seq(name_views(raw.eng@));
            lemma_dedup_seq(name_views(raw.chinese@));
        }
        InputConfig { eng, chinese, caps_interceptor: raw.caps_interceptor }
    }

    /// The stored form of this configuration: each name once, the flag as it is.
    pub fn to_raw(&self) -> (raw: RawConfig)
        ensures
            name_views(raw.eng@) == dedup_seq(name_views(self.eng@)),
            name_views(raw.chinese@) == dedup_seq(name_views(self.chinese@)),
            raw.caps_interceptor == self.caps_interceptor,
            name_views(raw.eng@).no_duplicates(),
            name_views(raw.chinese@).no_duplicates(),
            name_views(raw.eng@).to_set() == self.eng_names(),
            name_views(raw.chinese@).to_set() == self.chinese_names(),
    {
        let eng = dedup_names(&self.eng);
        let chinese = dedup_names(&self.chinese);
        proof {
            lemma_dedup_seq(name_views(self.eng@));
            lemma_dedup_seq(name_views(self.chinese@));
        }
        RawConfig { eng, chinese, caps_interceptor: self.caps_interceptor }
    }
}

impl Default for InputConfig {
    /// No program names, and the Caps Lock interceptor on.
    fn default() -> (cfg: InputConfig)
        ensures
            cfg.eng@.len() == 0,
            cfg.chinese@.len() == 0,
            cfg.caps_interceptor == spec_default_caps_interceptor(),
            cfg.wf(),
    {
        proof {
            assert(name_views(Seq::<String>::empty()) =~= Seq::<Seq<char>>::empty());
        }
        InputConfig { eng: Vec::new(), chinese: Vec::new(), caps_interceptor: default_caps_interceptor() }
    }
}

/// The configuration to use: the one that was loaded, or the default one when
/// none could be read or parsed.
pub fn load_config_or_default(loaded: Option<InputConfig>) -> (cfg: InputConfig)
    ensures
        loaded matches Some(c) ==> cfg == c,
        loaded is None ==> cfg.eng@.len() == 0 && cfg.chinese@.len() == 0
            && cfg.caps_interceptor == spec_default_caps_interceptor(),
{
    match loaded {
        Some(c) => c,
        None => InputConfig::default(),
    }
}

/// The configuration with the Caps Lock interceptor flag set to `enabled` and
/// everything else unchanged.
pub fn update_caps_interceptor(cfg: InputConfig, enabled: bool) -> (updated: InputConfig)
    ensures
        updated.eng == cfg.eng,
        updated.chinese == cfg.chinese,
        updated.caps_interceptor == enabled,
        cfg.wf() ==> updated.wf(),
{
    let mut updated = cfg;
    updated.caps_interceptor = enabled;
    updated
}

/// The configuration with the Caps Lock interceptor flag flipped and the name
/// lists unchanged; its `caps_interceptor` is the new state to report.
pub fn toggle_caps_interceptor(cfg: InputConfig) -> (updated: InputConfig)
    ensures
        updated.caps_interceptor == !cfg.caps_interceptor,
        updated.eng == cfg.eng,
        updated.chinese == cfg.chinese,
        cfg.wf() ==> updated.wf(),
{
    let next = !cfg.caps_interceptor;
    update_caps_interceptor(cfg, next)
}

/// Storing a configuration and reading the stored form back gives the same
/// configuration: the same name sets and flag, and, when no name repeats, the
/// very same lists in the same order.
pub proof fn lemma_store_then_load(cfg: InputConfig, raw: RawConfig, back: InputConfig)
    requires
        name_views(raw.eng@) == dedup_seq(name_views(cfg.eng@)),
        name_views(raw.chinese@) == dedup_seq(name_views(cfg.chinese@)),
        raw.caps_interceptor == cfg.caps_interceptor,
        name_views(back.eng@) == dedup_seq(name_views(raw.eng@)),
        name_views(back.chinese@) == dedup_seq(name_views(raw.chinese@)),
        back.caps_interceptor == raw.caps_interceptor,
    ensures
        back.eng_names() == cfg.eng_names(),
        back.chinese_names() == cfg.chinese_names(),
        back.caps_interceptor == cfg.caps_interceptor,
        cfg.wf() ==> name_views(back.eng@) == name_views(cfg.eng@)
            && name_views(back.chinese@) == name_views(cfg.chinese@),
{
    lemma_dedup_seq(name_views(cfg.eng@));
    lemma_dedup_seq(name_views(cfg.chinese@));
    lemma_dedup_seq(name_views(raw.eng@));
    lemma_dedup_seq(name_views(raw.chinese@));
    lemma_dedup_seq_no_dup(name_views(raw.eng@));
    lemma_dedup_seq_no_dup(name_views(raw.chinese@));
    if cfg.wf() {
        lemma_dedup_seq_no_dup(name_views(cfg.eng@));
        lemma_dedup_seq_no_dup(name_views(cfg.chinese@));
    }
}

/// Turning the Caps Lock interceptor on or off and storing the configuration
/// makes the stored and reloaded configuration carry the new flag, with the
/// same program names as before.
pub proof fn lemma_update_then_reload(cfg: InputConfig, enabled: bool, updated: InputConfig, raw: RawConfig, back: InputConfig)
    requires
        updated.eng == cfg.eng,
        updated.chinese == cfg.chinese,
        updated.caps_interceptor == enabled,
        name_views(raw.eng@) == dedup_seq(name_views(updated.eng@)),
        name_views(raw.chinese@) == dedup_seq(name_views(updated.chinese@)),
        raw.caps_interceptor == updated.caps_interceptor,
        name_views(back.eng@) == dedup_seq(name_views(raw.eng@)),
        name_views(back.chinese@) == dedup_seq(name_views(raw.chinese@)),
        back.caps_interceptor == raw.caps_interceptor,
    ensures
        back.caps_interceptor == enabled,
        back.eng_names() == cfg.eng_names(),
        back.chinese_names() == cfg.chinese_names(),
{
    lemma_store_then_load(updated, raw, back);
}

/// Toggling the Caps Lock interceptor and storing the configuration makes the
/// reloaded configuration carry the opposite of the old flag, with the same
/// program names.
pub proof fn lemma_toggle_then_reload(cfg: InputConfig, updated: InputConfig, raw: RawConfig, back: InputConfig)
    requires
        updated.eng == cfg.eng,
        updated.chinese == cfg.chinese,
        updated.caps_interceptor == !cfg.caps_interceptor,
        name_views(raw.eng@) == dedup_seq(name_views(updated.eng@)),
        name_views(raw.chinese@) == dedup_seq(name_views(updated.chinese@)),
        raw.caps_interceptor == updated.caps_interceptor,
        name_views(back.eng@) == dedup_seq(name_views(raw.eng@)),
        name_views(back.chinese@) == dedup_seq(name_views(raw.chinese@)),
        back.caps_interceptor == raw.caps_interceptor,
    ensures
        back.caps_interceptor == !cfg.caps_interceptor,
        back.eng_names() == cfg.eng_names(),
        back.chinese_names() == cfg.chinese_names(),
{
    lemma_update_then_reload(cfg, !cfg.caps_interceptor, updated, raw, back);
}

} // verus!
