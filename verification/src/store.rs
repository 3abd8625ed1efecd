//! The configuration store: an immutable mapping from machine identifier to
//! client configuration, assembled once at startup from the files found
//! under a directory, with a mandatory `"global"` fallback entry.
//!
//! Every file is parsed even when an earlier one failed; when any file
//! fails, the whole build fails with one aggregate report that carries
//! every individual message. On duplicate machine identifiers the first
//! file visited wins (visitation order is the file system's, so this
//! resolution is not deterministic across platforms — a known, accepted
//! limitation). Once built, the store is never mutated, and lookup is
//! total: an unknown identifier resolves to the `"global"` entry.

use vstd::prelude::*;
use crate::client_config::{ClientConfig, client_config_resolution, from_text_post};
use crate::text::{
    contains_seq, join_comma, join_comma_spec, lemma_join_contains_part, str_eq,
};
use crate::toml_values::toml_document;

verus! {

broadcast use vstd::string::group_string_axioms;

/// Where a dot splits a file name from its extension: the index of the last
/// `.` before position `i`, or -1 when there is none.
pub open spec fn last_dot_before(name: Seq<char>, i: int) -> int
    decreases i,
{
    if i <= 0 {
        -1
    } else if name[i - 1] == '.' {
        i - 1
    } else {
        last_dot_before(name, i - 1)
    }
}

/// The stem of a file name: what stands before the last dot, unless that
/// dot starts the name, in which case the whole name.
pub open spec fn file_stem_spec(name: Seq<char>) -> Seq<char> {
    let d = last_dot_before(name, name.len() as int);
    if d > 0 {
        name.take(d)
    } else {
        name
    }
}

/// Derives the machine identifier from a configuration file's name.
pub fn file_stem_of(name: &str) -> (r: String)
    ensures
        r@ == file_stem_spec(name@),
{
    let n = name.unicode_len();
    let mut last: Option<usize> = None;
    let mut i: usize = 0;
    while i < n
        invariant
            n == name@.len(),
            i <= n,
            match last {
                None => last_dot_before(name@, i as int) == -1,
                Some(j) => j < i && last_dot_before(name@, i as int) == j,
            },
        decreases n - i,
    {
        if name.get_char(i) == '.' {
            last = Some(i);
        }
        i += 1;
    }
    match last {
        Some(d) => {
            if d > 0 {
                let stem = name.substring_char(0, d);
                proof {
                    assert(name@.subrange(0, d as int) =~= name@.take(d as int));
                }
                stem.to_owned()
            } else {
                name.to_owned()
            }
        },
        None => name.to_owned(),
    }
}

/// One configuration file as found on disk: the machine identifier derived
/// from its name, and its text.
#[derive(Clone, Debug)]
pub struct SourceFile {
    pub name: String,
    pub text: String,
}

/// Why a store could not be built. All three abort server startup; none is
/// recoverable at runtime.
#[derive(Clone, Debug)]
pub enum ConfigError {
    /// The configured root is not a directory.
    NotADirectory { path: String },
    /// At least one file failed to parse; the message joins every
    /// individual failure, never only the first.
    AggregateParse { message: String },
    /// No file resolved to the reserved `"global"` identifier.
    MissingGlobal { path: String },
}

/// How a build failure reads.
pub open spec fn config_error_message_spec(e: ConfigError) -> Seq<char> {
    match e {
        ConfigError::NotADirectory { path } => "path \""@ + path@ + "\" is not a directory"@,
        ConfigError::AggregateParse { message } => message@,
        ConfigError::MissingGlobal { path } => "path \""@ + path@ + "\" does not contain global.toml"@,
    }
}

impl ConfigError {
    /// Renders this error as text.
    pub fn message(&self) -> (r: String)
        ensures
            r@ == config_error_message_spec(*self),
    {
        match self {
            ConfigError::NotADirectory { path } => {
                let mut m = "path \"".to_owned();
                m.append(path.as_str());
                m.append("\" is not a directory");
                m
            },
            ConfigError::AggregateParse { message } => message.clone(),
            ConfigError::MissingGlobal { path } => {
                let mut m = "path \"".to_owned();
                m.append(path.as_str());
                m.append("\" does not contain global.toml");
                m
            },
        }
    }
}

/// The parse failures among a list of per-file outcomes, in file order.
pub open spec fn err_msgs(parsed: Seq<Result<ClientConfig, String>>) -> Seq<Seq<char>>
    decreases parsed.len(),
{
    if parsed.len() == 0 {
        Seq::empty()
    } else {
        err_msgs(parsed.drop_last()) + (match parsed.last() {
            Ok(_) => Seq::empty(),
            Err(m) => seq![m@],
        })
    }
}

/// The configurations among a list of per-file outcomes, in file order.
pub open spec fn ok_cfgs(parsed: Seq<Result<ClientConfig, String>>) -> Seq<ClientConfig>
    decreases parsed.len(),
{
    if parsed.len() == 0 {
        Seq::empty()
    } else {
        ok_cfgs(parsed.drop_last()) + (match parsed.last() {
            Ok(c) => seq![c],
            Err(_) => Seq::empty(),
        })
    }
}

/// Some configuration in the list answers to the identifier.
pub open spec fn has_machine_id(cfgs: Seq<ClientConfig>, id: Seq<char>) -> bool {
    exists|i: int| 0 <= i < cfgs.len() && #[trigger] cfgs[i].machine_id@ == id
}

/// The configuration at position `i` is the first with its identifier.
pub open spec fn first_occurrence(cfgs: Seq<ClientConfig>, i: int) -> bool {
    forall|j: int| 0 <= j < i ==> cfgs[j].machine_id@ != cfgs[i].machine_id@
}

/// First-wins deduplication: a configuration stays exactly when no earlier
/// one carries the same identifier.
pub open spec fn dedup_first(cfgs: Seq<ClientConfig>) -> Seq<ClientConfig>
    decreases cfgs.len(),
{
    if cfgs.len() == 0 {
        Seq::empty()
    } else {
        dedup_first(cfgs.drop_last()) + (if first_occurrence(cfgs, cfgs.len() - 1) {
            seq![cfgs.last()]
        } else {
            Seq::empty()
        })
    }
}

/// The first configuration answering to the identifier, if any.
pub open spec fn lookup_spec(cfgs: Seq<ClientConfig>, id: Seq<char>) -> Option<ClientConfig>
    decreases cfgs.len(),
{
    if cfgs.len() == 0 {
        None
    } else if cfgs[0].machine_id@ == id {
        Some(cfgs[0])
    } else {
        lookup_spec(cfgs.drop_first(), id)
    }
}

/// A lookup answers exactly when some entry carries the identifier.
pub proof fn lemma_lookup_iff_has(cfgs: Seq<ClientConfig>, id: Seq<char>)
    ensures
        lookup_spec(cfgs, id) is Some <==> has_machine_id(cfgs, id),
    decreases cfgs.len(),
{
    if cfgs.len() == 0 {
    } else if cfgs[0].machine_id@ == id {
    } else {
        lemma_lookup_iff_has(cfgs.drop_first(), id);
        assert forall|i: int| 0 <= i < cfgs.len() && #[trigger] cfgs[i].machine_id@ == id implies
            has_machine_id(cfgs.drop_first(), id) by {
            assert(cfgs.drop_first()[i - 1].machine_id@ == id);
        }
        if has_machine_id(cfgs.drop_first(), id) {
            let i = choose|i: int|
                0 <= i < cfgs.drop_first().len() && #[trigger] cfgs.drop_first()[i].machine_id@
                    == id;
            assert(cfgs[i + 1].machine_id@ == id);
        }
    }
}

/// The first match in a scan is what the lookup answers.
proof fn lemma_lookup_first_match(cfgs: Seq<ClientConfig>, id: Seq<char>, i: int)
    requires
        0 <= i < cfgs.len(),
        cfgs[i].machine_id@ == id,
        forall|j: int| 0 <= j < i ==> cfgs[j].machine_id@ != id,
    ensures
        lookup_spec(cfgs, id) == Some(cfgs[i]),
    decreases i,
{
    if i == 0 {
    } else {
        assert(forall|j: int|
            0 <= j < i - 1 ==> cfgs.drop_first()[j].machine_id@ != id) by {
            assert(forall|j: int| 0 <= j < i - 1 ==> cfgs.drop_first()[j] == cfgs[j + 1]);
        }
        lemma_lookup_first_match(cfgs.drop_first(), id, i - 1);
    }
}

/// A scan that matched nothing means the lookup answers nothing.
proof fn lemma_lookup_none(cfgs: Seq<ClientConfig>, id: Seq<char>)
    requires
        forall|j: int| 0 <= j < cfgs.len() ==> cfgs[j].machine_id@ != id,
    ensures
        lookup_spec(cfgs, id) is None,
{
    lemma_lookup_iff_has(cfgs, id);
}

/// Deduplication neither adds nor loses identifiers.
proof fn lemma_dedup_preserves_ids(cfgs: Seq<ClientConfig>, id: Seq<char>)
    ensures
        has_machine_id(dedup_first(cfgs), id) <==> has_machine_id(cfgs, id),
    decreases cfgs.len(),
{
    if cfgs.len() == 0 {
        assert(!has_machine_id(Seq::empty(), id));
    } else {
        let prefix = cfgs.drop_last();
        lemma_dedup_preserves_ids(prefix, id);
        let d = dedup_first(cfgs);
        let dp = dedup_first(prefix);
        if first_occurrence(cfgs, cfgs.len() - 1) {
            assert(d == dp + seq![cfgs.last()]);
            if has_machine_id(cfgs, id) {
                let i = choose|i: int|
                    0 <= i < cfgs.len() && #[trigger] cfgs[i].machine_id@ == id;
                if i == cfgs.len() - 1 {
                    assert(d[d.len() - 1].machine_id@ == id);
                } else {
                    assert(prefix[i].machine_id@ == id);
                    let k = choose|k: int|
                        0 <= k < dp.len() && #[trigger] dp[k].machine_id@ == id;
                    assert(d[k].machine_id@ == id);
                }
            }
            if has_machine_id(d, id) {
                let k = choose|k: int| 0 <= k < d.len() && #[trigger] d[k].machine_id@ == id;
                if k == d.len() - 1 {
                    assert(cfgs[cfgs.len() - 1].machine_id@ == id);
                } else {
                    assert(dp[k].machine_id@ == id);
                    let i = choose|i: int|
                        0 <= i < prefix.len() && #[trigger] prefix[i].machine_id@ == id;
                    assert(cfgs[i].machine_id@ == id);
                }
            }
        } else {
            assert(d =~= dp);
            let w = choose|j: int|
                0 <= j < cfgs.len() - 1 && #[trigger] cfgs[j].machine_id@ == cfgs[cfgs.len()
                    - 1].machine_id@;
            if has_machine_id(cfgs, id) {
                let i = choose|i: int|
                    0 <= i < cfgs.len() && #[trigger] cfgs[i].machine_id@ == id;
                if i == cfgs.len() - 1 {
                    assert(prefix[w].machine_id@ == id);
                } else {
                    assert(prefix[i].machine_id@ == id);
                }
            }
            if has_machine_id(dp, id) {
                let k = choose|k: int| 0 <= k < dp.len() && #[trigger] dp[k].machine_id@ == id;
                let i = choose|i: int|
                    0 <= i < prefix.len() && #[trigger] prefix[i].machine_id@ == id;
                assert(cfgs[i].machine_id@ == id);
            }
        }
    }
}

/// First-wins deduplication leaves at most one configuration per machine
/// identifier, so a store built from it holds exactly one entry for each
/// identifier it holds at all — in particular exactly one `"global"` entry.
pub proof fn lemma_dedup_first_unique(cfgs: Seq<ClientConfig>)
    ensures
        forall|i: int, j: int|
            0 <= i < j < dedup_first(cfgs).len() ==> #[trigger] dedup_first(cfgs)[i].machine_id@
                != #[trigger] dedup_first(cfgs)[j].machine_id@,
    decreases cfgs.len(),
{
    if cfgs.len() == 0 {
    } else {
        let prefix = cfgs.drop_last();
        lemma_dedup_first_unique(prefix);
        let d = dedup_first(cfgs);
        let dp = dedup_first(prefix);
        if first_occurrence(cfgs, cfgs.len() - 1) {
            let last_id = cfgs.last().machine_id@;
            lemma_dedup_preserves_ids(prefix, last_id);
            assert(!has_machine_id(prefix, last_id)) by {
                if has_machine_id(prefix, last_id) {
                    let k = choose|k: int|
                        0 <= k < prefix.len() && #[trigger] prefix[k].machine_id@ == last_id;
                    assert(cfgs[k].machine_id@ == cfgs[cfgs.len() - 1].machine_id@);
                }
            }
            assert(d == dp + seq![cfgs.last()]);
            assert forall|i: int, j: int| 0 <= i < j < d.len() implies #[trigger] d[i].machine_id@
                != #[trigger] d[j].machine_id@ by {
                if j < dp.len() {
                    assert(d[i] == dp[i] && d[j] == dp[j]);
                } else {
                    assert(d[j] == cfgs.last());
                    assert(d[i] == dp[i]);
                    if d[i].machine_id@ == last_id {
                        assert(has_machine_id(dp, last_id));
                    }
                }
            }
        } else {
            assert(d =~= dp);
        }
    }
}

/// Tells whether some configuration in the list answers to the identifier.
fn has_id(cfgs: &Vec<ClientConfig>, id: &str) -> (r: bool)
    ensures
        r == has_machine_id(cfgs@, id@),
{
    let n = cfgs.len();
    let mut i: usize = 0;
    while i < n
        invariant
            i <= n,
            n == cfgs@.len(),
            forall|j: int| 0 <= j < i ==> cfgs@[j].machine_id@ != id@,
        decreases n - i,
    {
        if str_eq(cfgs[i].machine_id.as_str(), id) {
            return true;
        }
        i += 1;
    }
    false
}

/// Keeps the first configuration for each identifier, in arrival order.
fn dedup(cfgs: Vec<ClientConfig>) -> (r: Vec<ClientConfig>)
    ensures
        r@ == dedup_first(cfgs@),
{
    let ghost orig = cfgs@;
    let mut rest = cfgs;
    let mut out: Vec<ClientConfig> = Vec::new();
    let ghost mut i: int = 0;
    while rest.len() > 0
        invariant
            0 <= i <= orig.len(),
            rest@ =~= orig.skip(i),
            out@ == dedup_first(orig.take(i)),
        decreases rest@.len(),
    {
        let c = rest.remove(0);
        proof {
            assert(c == orig[i]);
            assert(rest@ =~= orig.skip(i + 1));
            assert(orig.take(i + 1).drop_last() =~= orig.take(i));
            assert(orig.take(i + 1).last() == orig[i]);
            assert(first_occurrence(orig.take(i + 1), i) <==> !has_machine_id(
                orig.take(i),
                orig[i].machine_id@,
            )) by {
                if !first_occurrence(orig.take(i + 1), i) {
                    let j = choose|j: int|
                        0 <= j < i && #[trigger] orig.take(i + 1)[j].machine_id@ == orig.take(
                            i + 1,
                        )[i].machine_id@;
                    assert(orig.take(i)[j].machine_id@ == orig[i].machine_id@);
                }
            }
            lemma_dedup_preserves_ids(orig.take(i), c.machine_id@);
        }
        if !has_id(&out, c.machine_id.as_str()) {
            out.push(c);
            proof {
                assert(out@ =~= dedup_first(orig.take(i)) + seq![orig[i]]);
            }
        } else {
            proof {
                assert(out@ =~= dedup_first(orig.take(i)) + Seq::<ClientConfig>::empty());
            }
        }
        proof {
            i = i + 1;
        }
    }
    proof {
        assert(orig.skip(i) =~= rest@);
        assert(i == orig.len());
        assert(orig.take(i) =~= orig);
    }
    out
}

/// The mapping from machine identifier to configuration. Built once during
/// startup; read-only afterwards, so any number of request tasks may read
/// it concurrently without locking.
#[derive(Debug)]
pub struct ConfigStore {
    /// The kept configurations, in visitation order, first file wins.
    pub cache: Vec<ClientConfig>,
    /// The directory the store was built from.
    pub path: String,
}

impl ConfigStore {
    /// The store's construction-time invariant: some entry answers to the
    /// reserved `"global"` identifier, so lookup never fails.
    pub open spec fn wf(self) -> bool {
        has_machine_id(self.cache@, "global"@)
    }

    /// What a lookup answers: the first exact match, else the `"global"`
    /// entry.
    pub open spec fn config_for_spec(self, id: Seq<char>) -> ClientConfig {
        match lookup_spec(self.cache@, id) {
            Some(c) => c,
            None => match lookup_spec(self.cache@, "global"@) {
                Some(c) => c,
                None => arbitrary(),
            },
        }
    }

    /// Resolves a machine identifier to its configuration, falling back to
    /// the `"global"` entry. Total: never fails on a well-formed store.
    pub fn config_for<'a>(&'a self, machine_id: &str) -> (r: &'a ClientConfig)
        requires
            self.wf(),
        ensures
            *r == self.config_for_spec(machine_id@),
    {
        let n = self.cache.len();
        let mut i: usize = 0;
        while i < n
            invariant
                i <= n,
                n == self.cache@.len(),
                forall|j: int| 0 <= j < i ==> self.cache@[j].machine_id@ != machine_id@,
            decreases n - i,
        {
            if str_eq(self.cache[i].machine_id.as_str(), machine_id) {
                proof {
                    lemma_lookup_first_match(self.cache@, machine_id@, i as int);
                }
                return &self.cache[i];
            }
            i += 1;
        }
        proof {
            lemma_lookup_none(self.cache@, machine_id@);
        }
        let mut k: usize = 0;
        while k < n
            invariant
                k <= n,
                n == self.cache@.len(),
                self.wf(),
                lookup_spec(self.cache@, machine_id@) is None,
                forall|j: int| 0 <= j < k ==> self.cache@[j].machine_id@ != "global"@,
            decreases n - k,
        {
            if str_eq(self.cache[k].machine_id.as_str(), "global") {
                proof {
                    lemma_lookup_first_match(self.cache@, "global"@, k as int);
                }
                return &self.cache[k];
            }
            k += 1;
        }
        proof {
            lemma_lookup_none(self.cache@, "global"@);
            lemma_lookup_iff_has(self.cache@, "global"@);
            assert(false);
        }
        vstd::pervasive::unreached()
    }

    /// Assembles the store from per-file parse outcomes. Exactly one of
    /// three things happens: any parse failure makes the whole build fail
    /// with every message joined, in file order; no failure but no
    /// `"global"` entry fails too; otherwise the store holds the parsed
    /// configurations, first file winning on duplicate identifiers.
    pub fn assemble(path: String, parsed: Vec<Result<ClientConfig, String>>) -> (r: Result<
        ConfigStore,
        ConfigError,
    >)
        ensures
            match r {
                Ok(store) => {
                    &&& err_msgs(parsed@) == Seq::<Seq<char>>::empty()
                    &&& has_machine_id(ok_cfgs(parsed@), "global"@)
                    &&& store.cache@ == dedup_first(ok_cfgs(parsed@))
                    &&& store.path == path
                    &&& store.wf()
                    &&& (forall|i: int, j: int|
                        0 <= i < j < store.cache@.len()
                            ==> #[trigger] store.cache@[i].machine_id@
                            != #[trigger] store.cache@[j].machine_id@)
                },
                Err(e) => match e {
                    ConfigError::AggregateParse { message } => {
                        &&& err_msgs(parsed@).len() > 0
                        &&& message@ == join_comma_spec(err_msgs(parsed@))
                    },
                    ConfigError::MissingGlobal { path: p } => {
                        &&& err_msgs(parsed@) == Seq::<Seq<char>>::empty()
                        &&& !has_machine_id(ok_cfgs(parsed@), "global"@)
                        &&& p == path
                    },
                    ConfigError::NotADirectory { .. } => false,
                },
            },
    {
        let ghost orig = parsed@;
        let mut rest = parsed;
        let mut errors: Vec<String> = Vec::new();
        let mut cfgs: Vec<ClientConfig> = Vec::new();
        let ghost mut i: int = 0;
        while rest.len() > 0
            invariant
                0 <= i <= orig.len(),
                rest@ =~= orig.skip(i),
                errors.deep_view() == err_msgs(orig.take(i)),
                cfgs@ == ok_cfgs(orig.take(i)),
            decreases rest@.len(),
        {
            let outcome = rest.remove(0);
            proof {
                assert(outcome == orig[i]);
                assert(rest@ =~= orig.skip(i + 1));
                assert(orig.take(i + 1).drop_last() =~= orig.take(i));
                assert(orig.take(i + 1).last() == orig[i]);
            }
            match outcome {
                Ok(c) => {
                    cfgs.push(c);
                    proof {
                        assert(cfgs@ =~= ok_cfgs(orig.take(i + 1)));
                        assert(errors.deep_view() =~= err_msgs(orig.take(i + 1)));
                    }
                },
                Err(m) => {
                    errors.push(m);
                    proof {
                        assert(cfgs@ =~= ok_cfgs(orig.take(i + 1)));
                        assert(errors.deep_view() =~= err_msgs(orig.take(i + 1)));
                    }
                },
            }
            proof {
                i = i + 1;
            }
        }
        proof {
            assert(orig.skip(i) =~= rest@);
            assert(i == orig.len());
            assert(orig.take(i) =~= orig);
        }
        if errors.len() > 0 {
            let message = join_comma(&errors);
            return Err(ConfigError::AggregateParse { message });
        }
        proof {
            assert(err_msgs(orig) =~= Seq::<Seq<char>>::empty()) by {
                assert(err_msgs(orig).len() == errors.deep_view().len());
            }
        }
        if !has_id(&cfgs, "global") {
            return Err(ConfigError::MissingGlobal { path });
        }
        let kept = dedup(cfgs);
        proof {
            lemma_dedup_preserves_ids(ok_cfgs(orig), "global"@);
            lemma_dedup_first_unique(ok_cfgs(orig));
        }
        Ok(ConfigStore { cache: kept, path })
    }
}

/// The text of a source parses as TOML and every field resolves, so its
/// configuration comes out.
pub open spec fn source_resolves(s: SourceFile) -> bool {
    toml_document(s.text@) matches Some(doc) && client_config_resolution(doc) is Ok
}

impl ConfigStore {
    /// Parses every file under the root — every one, even when an earlier
    /// one failed — and assembles the store. The sources decide the
    /// outcome: when every source resolves and one is named `"global"`,
    /// the build succeeds; when any source fails to resolve, it fails with
    /// the aggregate report; when no source is named `"global"`, it always
    /// fails.
    pub fn build(path: String, sources: Vec<SourceFile>) -> (r: Result<ConfigStore, ConfigError>)
        ensures
            r matches Ok(store) ==> store.wf(),
            r matches Err(e) ==> (e matches ConfigError::AggregateParse { .. } || (e
                matches ConfigError::MissingGlobal { path: p } && p == path)),
            ((forall|i: int| 0 <= i < sources@.len() ==> #[trigger] source_resolves(sources@[i]))
                && (exists|i: int|
                0 <= i < sources@.len() && #[trigger] sources@[i].name@ == "global"@)) ==> r is Ok,
            (exists|i: int| 0 <= i < sources@.len() && !(#[trigger] source_resolves(sources@[i])))
                ==> (r matches Err(ConfigError::AggregateParse { .. })),
            (forall|i: int| 0 <= i < sources@.len() ==> sources@[i].name@ != "global"@) ==> r
                is Err,
    {
        let mut parsed: Vec<Result<ClientConfig, String>> = Vec::new();
        let n = sources.len();
        let mut i: usize = 0;
        while i < n
            invariant
                i <= n,
                n == sources@.len(),
                parsed@.len() == i,
                forall|k: int|
                    0 <= k < i ==> from_text_post(
                        sources@[k].name@,
                        sources@[k].text@,
                        #[trigger] parsed@[k],
                    ),
            decreases n - i,
        {
            let sf = &sources[i];
            parsed.push(ClientConfig::from_text(sf.name.as_str(), sf.text.as_str()));
            i += 1;
        }
        let ghost outcomes = parsed@;
        let r = Self::assemble(path, parsed);
        proof {
            // An outcome is Ok exactly when its source resolves, and then
            // its machine identifier is the source's name.
            assert forall|k: int| 0 <= k < outcomes.len() implies (#[trigger] outcomes[k] is Ok
                <==> source_resolves(sources@[k])) by {
                assert(from_text_post(sources@[k].name@, sources@[k].text@, outcomes[k]));
            }
            if forall|k: int| 0 <= k < sources@.len() ==> sources@[k].name@ != "global"@ {
                if has_machine_id(ok_cfgs(outcomes), "global"@) {
                    let k = choose|k: int|
                        0 <= k < ok_cfgs(outcomes).len() && #[trigger] ok_cfgs(
                            outcomes,
                        )[k].machine_id@ == "global"@;
                    lemma_ok_cfgs_element(outcomes, k);
                }
            }
            if (forall|k: int|
                0 <= k < sources@.len() ==> #[trigger] source_resolves(sources@[k])) && (exists|
                k: int,
            |
                0 <= k < sources@.len() && #[trigger] sources@[k].name@ == "global"@) {
                lemma_err_msgs_all_ok(outcomes);
                let g = choose|k: int|
                    0 <= k < sources@.len() && #[trigger] sources@[k].name@ == "global"@;
                assert(outcomes[g] is Ok);
                lemma_ok_cfgs_contains(outcomes, g);
                let k = choose|k: int|
                    0 <= k < ok_cfgs(outcomes).len() && #[trigger] ok_cfgs(outcomes)[k]
                        == outcomes[g]->Ok_0;
                assert(ok_cfgs(outcomes)[k].machine_id@ == "global"@);
            }
            if exists|k: int|
                0 <= k < sources@.len() && !(#[trigger] source_resolves(sources@[k])) {
                let k = choose|k: int|
                    0 <= k < sources@.len() && !(#[trigger] source_resolves(sources@[k]));
                assert(outcomes[k] is Err);
                lemma_err_msgs_member(outcomes, k);
            }
        }
        r
    }
}

/// When every outcome succeeded, there are no failure messages at all.
proof fn lemma_err_msgs_all_ok(parsed: Seq<Result<ClientConfig, String>>)
    requires
        forall|i: int| 0 <= i < parsed.len() ==> #[trigger] parsed[i] is Ok,
    ensures
        err_msgs(parsed) == Seq::<Seq<char>>::empty(),
    decreases parsed.len(),
{
    if parsed.len() == 0 {
    } else {
        lemma_err_msgs_all_ok(parsed.drop_last());
        assert(err_msgs(parsed) =~= Seq::<Seq<char>>::empty());
    }
}

/// A successful outcome's configuration appears among the collected
/// configurations.
proof fn lemma_ok_cfgs_contains(parsed: Seq<Result<ClientConfig, String>>, i: int)
    requires
        0 <= i < parsed.len(),
        parsed[i] is Ok,
    ensures
        exists|k: int|
            0 <= k < ok_cfgs(parsed).len() && #[trigger] ok_cfgs(parsed)[k] == parsed[i]->Ok_0,
    decreases parsed.len(),
{
    let cfgs = ok_cfgs(parsed);
    if i == parsed.len() - 1 {
        assert(cfgs[cfgs.len() - 1] == parsed[i]->Ok_0);
    } else {
        lemma_ok_cfgs_contains(parsed.drop_last(), i);
        let k = choose|k: int|
            0 <= k < ok_cfgs(parsed.drop_last()).len() && #[trigger] ok_cfgs(
                parsed.drop_last(),
            )[k] == parsed.drop_last()[i]->Ok_0;
        assert(cfgs[k] == parsed[i]->Ok_0);
    }
}

/// Any configuration among the outcomes came from some file's parse.
proof fn lemma_ok_cfgs_element(parsed: Seq<Result<ClientConfig, String>>, k: int)
    requires
        0 <= k < ok_cfgs(parsed).len(),
    ensures
        exists|i: int|
            0 <= i < parsed.len() && #[trigger] parsed[i] == Ok::<ClientConfig, String>(
                ok_cfgs(parsed)[k],
            ),
    decreases parsed.len(),
{
    if parsed.len() == 0 {
    } else {
        let prefix = parsed.drop_last();
        if k < ok_cfgs(prefix).len() {
            lemma_ok_cfgs_element(prefix, k);
            let i = choose|i: int|
                0 <= i < prefix.len() && #[trigger] prefix[i] == Ok::<ClientConfig, String>(
                    ok_cfgs(prefix)[k],
                );
            assert(parsed[i] == Ok::<ClientConfig, String>(ok_cfgs(parsed)[k]));
        } else {
            assert(parsed[parsed.len() - 1] == Ok::<ClientConfig, String>(ok_cfgs(parsed)[k]));
        }
    }
}

/// An unregistered identifier resolves to exactly what `"global"` resolves
/// to.
pub proof fn lemma_config_for_fallback(store: ConfigStore, id: Seq<char>)
    requires
        store.wf(),
        !has_machine_id(store.cache@, id),
    ensures
        store.config_for_spec(id) == store.config_for_spec("global"@),
{
    lemma_lookup_iff_has(store.cache@, id);
    lemma_lookup_iff_has(store.cache@, "global"@);
}

/// One parse failure is enough to make the collected messages non-empty —
/// so assembling such outcomes can only end in the aggregate error — and
/// every failure's message stands inside the aggregate report, never only
/// the first.
pub proof fn lemma_aggregate_mentions_every_failure(
    parsed: Seq<Result<ClientConfig, String>>,
    i: int,
    message: Seq<char>,
)
    requires
        0 <= i < parsed.len(),
        parsed[i] is Err,
        message == join_comma_spec(err_msgs(parsed)),
    ensures
        err_msgs(parsed).len() > 0,
        contains_seq(message, parsed[i]->Err_0@),
{
    lemma_err_msgs_member(parsed, i);
    let k = choose|k: int|
        0 <= k < err_msgs(parsed).len() && err_msgs(parsed)[k] == parsed[i]->Err_0@;
    lemma_join_contains_part(err_msgs(parsed), k);
}

/// A failing outcome's message appears among the collected messages.
proof fn lemma_err_msgs_member(parsed: Seq<Result<ClientConfig, String>>, i: int)
    requires
        0 <= i < parsed.len(),
        parsed[i] is Err,
    ensures
        exists|k: int|
            0 <= k < err_msgs(parsed).len() && #[trigger] err_msgs(parsed)[k] == parsed[i]->Err_0@,
    decreases parsed.len(),
{
    let msgs = err_msgs(parsed);
    if i == parsed.len() - 1 {
        assert(msgs[msgs.len() - 1] == parsed[i]->Err_0@);
    } else {
        lemma_err_msgs_member(parsed.drop_last(), i);
        let k = choose|k: int|
            0 <= k < err_msgs(parsed.drop_last()).len() && #[trigger] err_msgs(
                parsed.drop_last(),
            )[k] == parsed.drop_last()[i]->Err_0@;
        assert(msgs[k] == parsed[i]->Err_0@);
    }
}

} // verus!
