//! A compile cache that reuses the analysis of an input it has seen before.
use vstd::prelude::*;

use crate::strings::str_eq;

verus! {

/// The revision of the legacy-dialect translator; cached analyses made by
/// another revision are not reused.
pub const LEGACY_TRANSLATOR_REVISION: u32 = 1;

/// A named source text.
#[derive(Clone, Debug)]
pub struct SourceFile {
    pub name: String,
    pub text: String,
}

impl SourceFile {
    pub fn new(name: &str, text: &str) -> (r: SourceFile)
        ensures
            r.name@ == name@,
            r.text@ == text@,
    {
        SourceFile { name: String::from_str(name), text: String::from_str(text) }
    }

    pub fn name(&self) -> (r: &str)
        ensures
            r@ == self.name@,
    {
        self.name.as_str()
    }

    pub fn text(&self) -> (r: &str)
        ensures
            r@ == self.text@,
    {
        self.text.as_str()
    }
}

/// A library source a script imports, under the key it is imported by.
#[derive(Clone, Debug)]
pub struct LibrarySource {
    pub key: String,
    pub source: SourceFile,
}

impl LibrarySource {
    pub fn new(key: &str, source: SourceFile) -> (r: LibrarySource)
        ensures
            r.key@ == key@,
            r.source == source,
    {
        LibrarySource { key: String::from_str(key), source }
    }

    pub fn key(&self) -> (r: &str)
        ensures
            r@ == self.key@,
    {
        self.key.as_str()
    }

    pub fn source(&self) -> (r: &SourceFile)
        ensures
            *r == self.source,
    {
        &self.source
    }
}

/// A root script together with the library sources it may import.
#[derive(Clone, Debug)]
pub struct AnalysisInput {
    pub root: SourceFile,
    pub library_sources: Vec<LibrarySource>,
}

impl AnalysisInput {
    pub fn new(root: SourceFile) -> (r: AnalysisInput)
        ensures
            r.root == root,
            r.library_sources@.len() == 0,
    {
        AnalysisInput { root, library_sources: Vec::new() }
    }

    pub fn with_library_sources(root: SourceFile, library_sources: Vec<LibrarySource>) -> (r:
        AnalysisInput)
        ensures
            r.root == root,
            r.library_sources == library_sources,
    {
        AnalysisInput { root, library_sources }
    }

    pub fn root(&self) -> (r: &SourceFile)
        ensures
            *r == self.root,
    {
        &self.root
    }

    pub fn library_sources(&self) -> (r: &Vec<LibrarySource>)
        ensures
            *r == self.library_sources,
    {
        &self.library_sources
    }
}

#[derive(Clone, Debug)]
struct CompileCacheLibraryKey {
    key: String,
    name: String,
    text: String,
}

/// What identifies an analysis: the translator revision, the root source and
/// every library source with its import key.
#[derive(Clone, Debug)]
pub struct CompileCacheKey {
    translator_revision: u32,
    name: String,
    text: String,
    libraries: Vec<CompileCacheLibraryKey>,
}

/// A cache key as plain values.
pub struct KeyView {
    pub translator_revision: u32,
    pub name: Seq<char>,
    pub text: Seq<char>,
    pub libraries: Seq<(Seq<char>, Seq<char>, Seq<char>)>,
}

pub open spec fn library_key_view(l: LibrarySource) -> (Seq<char>, Seq<char>, Seq<char>) {
    (l.key@, l.source.name@, l.source.text@)
}

/// The key of an input.
pub open spec fn spec_key_of(input: AnalysisInput) -> KeyView {
    KeyView {
        translator_revision: LEGACY_TRANSLATOR_REVISION,
        name: input.root.name@,
        text: input.root.text@,
        libraries: input.library_sources@.map_values(|l: LibrarySource| library_key_view(l)),
    }
}

/// The key of a single source analyzed without libraries.
pub open spec fn spec_source_key(source: SourceFile) -> KeyView {
    KeyView {
        translator_revision: LEGACY_TRANSLATOR_REVISION,
        name: source.name@,
        text: source.text@,
        libraries: Seq::empty(),
    }
}

impl CompileCacheKey {
    pub closed spec fn view(&self) -> KeyView {
        KeyView {
            translator_revision: self.translator_revision,
            name: self.name@,
            text: self.text@,
            libraries: self.libraries@.map_values(
                |l: CompileCacheLibraryKey| (l.key@, l.name@, l.text@),
            ),
        }
    }

    pub fn translator_revision(&self) -> (r: u32)
        ensures
            r == self@.translator_revision,
    {
        self.translator_revision
    }

    /// The key of `input`.
    pub fn from_input(input: &AnalysisInput) -> (r: CompileCacheKey)
        ensures
            r@ == spec_key_of(*input),
    {
        let libs = input.library_sources();
        let n = libs.len();
        let mut libraries: Vec<CompileCacheLibraryKey> = Vec::new();
        let mut i: usize = 0;
        while i < n
            invariant
                n == libs@.len(),
                *libs == input.library_sources,
                i <= n,
                libraries@.len() == i,
                forall|j: int|
                    0 <= j < i ==> (#[trigger] libraries@[j].key@, libraries@[j].name@,
                        libraries@[j].text@) == library_key_view(libs@[j]),
            decreases n - i,
        {
            let library = &libs[i];
            libraries.push(
                CompileCacheLibraryKey {
                    key: String::from_str(library.key()),
                    name: String::from_str(library.source().name()),
                    text: String::from_str(library.source().text()),
                },
            );
            i = i + 1;
        }
        let key = CompileCacheKey {
            translator_revision: LEGACY_TRANSLATOR_REVISION,
            name: String::from_str(input.root().name()),
            text: String::from_str(input.root().text()),
            libraries,
        };
        assert(key@.libraries =~= spec_key_of(*input).libraries);
        key
    }

    /// Whether two keys identify the same analysis.
    pub fn same_as(&self, other: &CompileCacheKey) -> (r: bool)
        ensures
            r == (self@ == other@),
    {
        if self.translator_revision != other.translator_revision || !str_eq(
            self.name.as_str(),
            other.name.as_str(),
        ) || !str_eq(self.text.as_str(), other.text.as_str()) {
            return false;
        }
        let n = self.libraries.len();
        if n != other.libraries.len() {
            assert(self@.libraries.len() != other@.libraries.len());
            return false;
        }
        let mut i: usize = 0;
        while i < n
            invariant
                n == self.libraries@.len(),
                n == other.libraries@.len(),
                i <= n,
                forall|j: int| 0 <= j < i ==> #[trigger] self@.libraries[j] == other@.libraries[j],
            decreases n - i,
        {
            let a = &self.libraries[i];
            let b = &other.libraries[i];
            if !str_eq(a.key.as_str(), b.key.as_str()) || !str_eq(a.name.as_str(), b.name.as_str())
                || !str_eq(a.text.as_str(), b.text.as_str()) {
                assert(self@.libraries[i as int] != other@.libraries[i as int]);
                return false;
            }
            i = i + 1;
        }
        assert(self@.libraries =~= other@.libraries);
        true
    }
}

/// The cache's counters.
#[derive(Clone, Copy, Debug, PartialEq, Eq, Structural)]
pub struct CompileCacheStats {
    pub entries: usize,
    pub hits: usize,
    pub misses: usize,
}

/// Cached analyses, one per distinct key, with hit and miss counters.
#[derive(Clone, Debug)]
pub struct CompileCache<A> {
    entries: Vec<(CompileCacheKey, A)>,
    hits: usize,
    misses: usize,
}

/// The cache as plain values.
pub struct CacheView<A> {
    pub entries: Seq<(KeyView, A)>,
    pub hits: nat,
    pub misses: nat,
}

/// The first entry under key `k`.
pub open spec fn spec_entry_index_from<A>(entries: Seq<(KeyView, A)>, k: KeyView, i: int) -> Option<
    int,
>
    decreases entries.len() - i,
{
    if i < 0 || i >= entries.len() {
        None
    } else if entries[i].0 == k {
        Some(i)
    } else {
        spec_entry_index_from(entries, k, i + 1)
    }
}

pub open spec fn spec_entry_index<A>(entries: Seq<(KeyView, A)>, k: KeyView) -> Option<int> {
    spec_entry_index_from(entries, k, 0)
}

pub open spec fn keys_distinct<A>(entries: Seq<(KeyView, A)>) -> bool {
    forall|i: int, j: int|
        0 <= i < j < entries.len() ==> #[trigger] entries[i].0 != #[trigger] entries[j].0
}

/// One `analyze_input` step for key `k`: a hit when `k` is cached (the
/// entries stay, the hit counter grows), a miss otherwise (the new analysis
/// `stored` is appended under `k`, the miss counter grows).
pub open spec fn spec_analyze_step<A>(
    before: CacheView<A>,
    k: KeyView,
    after: CacheView<A>,
    stored: A,
) -> bool {
    match spec_entry_index(before.entries, k) {
        Some(_) => {
            &&& after.entries == before.entries
            &&& after.hits == before.hits + 1
            &&& after.misses == before.misses
        },
        None => {
            &&& after.entries == before.entries.push((k, stored))
            &&& after.hits == before.hits
            &&& after.misses == before.misses + 1
        },
    }
}

impl<A> CompileCache<A> {
    pub closed spec fn view(&self) -> CacheView<A> {
        CacheView {
            entries: self.entries@.map_values(|e: (CompileCacheKey, A)| (e.0@, e.1)),
            hits: self.hits as nat,
            misses: self.misses as nat,
        }
    }

    /// Every key is cached at most once, and each cached analysis was one miss.
    pub closed spec fn well_formed(&self) -> bool {
        &&& keys_distinct(self@.entries)
        &&& self@.entries.len() == self@.misses
    }

    pub fn new() -> (r: Self)
        ensures
            r.well_formed(),
            r@.entries.len() == 0,
            r@.hits == 0,
            r@.misses == 0,
    {
        let r = CompileCache { entries: Vec::new(), hits: 0, misses: 0 };
        assert(r@.entries.len() == 0);
        r
    }

    fn lookup(&self, key: &CompileCacheKey) -> (r: Option<usize>)
        ensures
            match r {
                Some(i) => spec_entry_index(self@.entries, key@) == Some(i as int) && i
                    < self@.entries.len(),
                None => spec_entry_index(self@.entries, key@) is None,
            },
    {
        let n = self.entries.len();
        let mut i: usize = 0;
        while i < n
            invariant
                n == self@.entries.len(),
                i <= n,
                spec_entry_index(self@.entries, key@) == spec_entry_index_from(
                    self@.entries,
                    key@,
                    i as int,
                ),
            decreases n - i,
        {
            if self.entries[i].0.same_as(key) {
                return Some(i);
            }
            i = i + 1;
        }
        None
    }

    /// The analysis of `input`: a clone of the cached one when the input's
    /// key is cached, otherwise `analyze(input)`, which is then cached.
    pub fn analyze_input<F: Fn(&AnalysisInput) -> A>(&mut self, input: &AnalysisInput, analyze: F) -> (r: A) where
        A: Clone,
        requires
            old(self).well_formed(),
            old(self)@.hits < usize::MAX,
            old(self)@.misses < usize::MAX,
            call_requires(analyze, (input,)),
        ensures
            final(self).well_formed(),
            exists|stored: A|
                #![trigger spec_analyze_step(old(self)@, spec_key_of(*input), final(self)@, stored)]
                spec_analyze_step(old(self)@, spec_key_of(*input), final(self)@, stored) && match spec_entry_index(
                    old(self)@.entries,
                    spec_key_of(*input),
                ) {
                    Some(i) => vstd::pervasive::cloned(old(self)@.entries[i].1, r),
                    None => call_ensures(analyze, (input,), r) && vstd::pervasive::cloned(
                        r,
                        stored,
                    ),
                },
    {
        let key = CompileCacheKey::from_input(input);
        if let Some(i) = self.lookup(&key) {
            self.hits = self.hits + 1;
            let r = self.entries[i].1.clone();
            assert(spec_analyze_step(old(self)@, spec_key_of(*input), self@, r));
            return r;
        }
        self.misses = self.misses + 1;
        let analysis = analyze(input);
        let stored = analysis.clone();
        let ghost k = key@;
        self.entries.push((key, stored));
        proof {
            assert(self@.entries =~= old(self)@.entries.push((k, stored)));
            lemma_absent_key_distinct(old(self)@.entries, k, stored);
        }
        assert(spec_analyze_step(old(self)@, spec_key_of(*input), self@, stored));
        analysis
    }

    /// The analysis of a single source with no libraries.
    pub fn analyze<F: Fn(&AnalysisInput) -> A>(&mut self, source: &SourceFile, analyze: F) -> (r: A) where
        A: Clone,
        requires
            old(self).well_formed(),
            old(self)@.hits < usize::MAX,
            old(self)@.misses < usize::MAX,
            forall|input: &AnalysisInput| call_requires(analyze, (input,)),
        ensures
            final(self).well_formed(),
            exists|stored: A|
                #![trigger spec_analyze_step(old(self)@, spec_source_key(*source), final(self)@, stored)]
                spec_analyze_step(old(self)@, spec_source_key(*source), final(self)@, stored) && match spec_entry_index(
                    old(self)@.entries,
                    spec_source_key(*source),
                ) {
                    Some(i) => vstd::pervasive::cloned(old(self)@.entries[i].1, r),
                    None => (exists|input: AnalysisInput|
                        spec_key_of(input) == spec_source_key(*source) && #[trigger] call_ensures(
                            analyze,
                            (&input,),
                            r,
                        )) && vstd::pervasive::cloned(r, stored),
                },
    {
        let input = AnalysisInput::new(SourceFile::new(source.name(), source.text()));
        assert(spec_key_of(input) == spec_source_key(*source)) by {
            assert(spec_key_of(input).libraries =~= spec_source_key(*source).libraries);
        }
        self.analyze_input(&input, analyze)
    }

    /// Drops every cached analysis and resets the counters.
    pub fn clear(&mut self)
        ensures
            final(self).well_formed(),
            final(self)@.entries.len() == 0,
            final(self)@.hits == 0,
            final(self)@.misses == 0,
    {
        self.entries.clear();
        self.hits = 0;
        self.misses = 0;
        assert(self@.entries.len() == 0);
    }

    /// The number of cached analyses and the hit and miss counts.
    pub fn stats(&self) -> (r: CompileCacheStats)
        requires
            self.well_formed(),
        ensures
            r.entries == r.misses,
            r.entries == self@.entries.len(),
            r.hits == self@.hits,
            r.misses == self@.misses,
    {
        CompileCacheStats { entries: self.entries.len(), hits: self.hits, misses: self.misses }
    }
}

pub proof fn lemma_entry_index_absent<A>(entries: Seq<(KeyView, A)>, k: KeyView, i: int)
    requires
        0 <= i,
        spec_entry_index_from(entries, k, i) is None,
    ensures
        forall|j: int| i <= j < entries.len() ==> entries[j].0 != k,
    decreases entries.len() - i,
{
    if i < entries.len() {
        lemma_entry_index_absent(entries, k, i + 1);
    }
}

proof fn lemma_absent_key_distinct<A>(entries: Seq<(KeyView, A)>, k: KeyView, a: A)
    requires
        keys_distinct(entries),
        spec_entry_index(entries, k) is None,
    ensures
        keys_distinct(entries.push((k, a))),
{
    lemma_entry_index_absent(entries, k, 0);
    let e = entries.push((k, a));
    assert forall|i: int, j: int| 0 <= i < j < e.len() implies #[trigger] e[i].0 != #[trigger] e[j].0 by {
        if j == entries.len() {
            assert(entries[i].0 != k);
        } else {
            assert(entries[i].0 != entries[j].0);
        }
    }
}

pub proof fn lemma_entry_index_after_push<A>(entries: Seq<(KeyView, A)>, k: KeyView, a: A)
    ensures
        spec_entry_index(entries.push((k, a)), k) is Some,
{
    let e = entries.push((k, a));
    lemma_push_found(entries, k, a, 0);
}

proof fn lemma_push_found<A>(entries: Seq<(KeyView, A)>, k: KeyView, a: A, i: int)
    requires
        0 <= i <= entries.len(),
    ensures
        spec_entry_index_from(entries.push((k, a)), k, i) is Some,
    decreases entries.len() - i,
{
    let e = entries.push((k, a));
    if i < entries.len() {
        assert(e[i] == entries[i]);
        if e[i].0 != k {
            lemma_push_found(entries, k, a, i + 1);
        }
    } else {
        assert(e[i].0 == k);
    }
}

/// After any analysis step for a key, the key is cached.
pub proof fn lemma_step_caches_key<A>(before: CacheView<A>, k: KeyView, after: CacheView<A>, stored: A)
    requires
        spec_analyze_step(before, k, after, stored),
    ensures
        spec_entry_index(after.entries, k) is Some,
{
    if spec_entry_index(before.entries, k) is None {
        lemma_entry_index_after_push(before.entries, k, stored);
    }
}

/// Analyzing the same input twice in a row: the second analysis is a hit
/// that leaves the cached entries unchanged.
pub proof fn lemma_repeated_input_hits<A>(
    c0: CacheView<A>,
    k: KeyView,
    c1: CacheView<A>,
    s1: A,
    c2: CacheView<A>,
    s2: A,
)
    requires
        spec_analyze_step(c0, k, c1, s1),
        spec_analyze_step(c1, k, c2, s2),
    ensures
        c2.entries == c1.entries,
        c2.hits == c1.hits + 1,
        c2.misses == c1.misses,
{
    lemma_step_caches_key(c0, k, c1, s1);
}

/// Every analysis step counts exactly one hit or one miss, and adds an entry
/// exactly when it misses.
pub proof fn lemma_step_counts_one_request<A>(
    before: CacheView<A>,
    k: KeyView,
    after: CacheView<A>,
    stored: A,
)
    requires
        spec_analyze_step(before, k, after, stored),
    ensures
        after.hits + after.misses == before.hits + before.misses + 1,
        after.entries.len() - before.entries.len() == after.misses - before.misses,
{
}

/// `views` is the cache before and after each call of a run of analyses of
/// inputs with keys `keys`, the misses storing `stored`.
pub open spec fn is_run<A>(views: Seq<CacheView<A>>, keys: Seq<KeyView>, stored: Seq<A>) -> bool {
    &&& views.len() == keys.len() + 1
    &&& stored.len() == keys.len()
    &&& forall|i: int|
        #![trigger keys[i]]
        0 <= i < keys.len() ==> spec_analyze_step(views[i], keys[i], views[i + 1], stored[i])
}

/// The keys of the cached entries.
pub open spec fn entry_keys<A>(entries: Seq<(KeyView, A)>) -> Seq<KeyView> {
    entries.map_values(|e: (KeyView, A)| e.0)
}

/// An empty cache, as `new` and `clear` leave it.
pub open spec fn is_fresh<A>(v: CacheView<A>) -> bool {
    v.entries.len() == 0 && v.hits == 0 && v.misses == 0
}

proof fn lemma_entry_index_some<A>(entries: Seq<(KeyView, A)>, k: KeyView, i: int, j: int)
    requires
        0 <= i <= j < entries.len(),
        entries[j].0 == k,
    ensures
        spec_entry_index_from(entries, k, i) is Some,
    decreases j - i,
{
    if entries[i].0 != k {
        lemma_entry_index_some(entries, k, i + 1, j);
    }
}

proof fn lemma_run_prefix<A>(views: Seq<CacheView<A>>, keys: Seq<KeyView>, stored: Seq<A>, i: int)
    requires
        is_run(views, keys, stored),
        is_fresh(views[0]),
        0 <= i <= keys.len(),
    ensures
        views[i].hits + views[i].misses == i,
        views[i].entries.len() == views[i].misses,
        keys_distinct(views[i].entries),
        entry_keys(views[i].entries).to_set() == keys.take(i).to_set(),
    decreases i,
{
    if i == 0 {
        assert(entry_keys(views[0].entries).to_set() =~= keys.take(0).to_set());
    } else {
        lemma_run_prefix(views, keys, stored, i - 1);
        let b = views[i - 1];
        let a = views[i];
        let k = keys[i - 1];
        assert(spec_analyze_step(views[i - 1], keys[i - 1], views[(i - 1) + 1], stored[i - 1]));
        assert(keys.take(i) =~= keys.take(i - 1).push(k));
        keys.take(i - 1).lemma_push_to_set_commute(k);
        match spec_entry_index(b.entries, k) {
            Some(j) => {
                lemma_entry_index_in_range(b.entries, k, 0);
                assert(entry_keys(b.entries)[j] == k);
                assert(entry_keys(b.entries).to_set().contains(k));
                assert(entry_keys(a.entries).to_set() =~= keys.take(i).to_set());
            },
            None => {
                lemma_absent_key_distinct(b.entries, k, stored[i - 1]);
                assert(entry_keys(a.entries) =~= entry_keys(b.entries).push(k));
                entry_keys(b.entries).lemma_push_to_set_commute(k);
                assert(entry_keys(a.entries).to_set() =~= keys.take(i).to_set());
            },
        }
    }
}

proof fn lemma_entry_index_in_range<A>(entries: Seq<(KeyView, A)>, k: KeyView, i: int)
    requires
        0 <= i,
    ensures
        spec_entry_index_from(entries, k, i) matches Some(j) ==> i <= j < entries.len() && entries[j].0 == k,
    decreases entries.len() - i,
{
    if i < entries.len() && entries[i].0 != k {
        lemma_entry_index_in_range(entries, k, i + 1);
    }
}

/// Over any run of analyses from an empty cache (after `new` or `clear`),
/// every call counts exactly one hit or one miss, each miss caches one new
/// key and nothing else is ever cached: the cached keys are exactly the keys
/// analyzed, each once, so the entries and the misses both count the
/// distinct keys analyzed.
pub proof fn lemma_run_counts_requests<A>(views: Seq<CacheView<A>>, keys: Seq<KeyView>, stored: Seq<A>)
    requires
        is_run(views, keys, stored),
        is_fresh(views[0]),
    ensures
        views.last().hits + views.last().misses == keys.len(),
        views.last().entries.len() == views.last().misses,
        entry_keys(views.last().entries).to_set() == keys.to_set(),
        views.last().entries.len() == keys.to_set().len(),
{
    let n = keys.len() as int;
    lemma_run_prefix(views, keys, stored, n);
    assert(keys.take(n) =~= keys);
    let ek = entry_keys(views.last().entries);
    assert(ek.no_duplicates()) by {
        assert forall|i: int, j: int| 0 <= i < ek.len() && 0 <= j < ek.len() && i != j implies ek[i] != ek[j] by {
            if i < j {
                assert(views.last().entries[i].0 != views.last().entries[j].0);
            } else {
                assert(views.last().entries[j].0 != views.last().entries[i].0);
            }
        }
    }
    ek.unique_seq_to_set();
}

/// Two analyses of inputs with the same key from the same cache leave the
/// same counters and the same cached keys, whatever they computed: so
/// `analyze(source)` and `analyze_input` on an input of `source` alone (the
/// same key, see `lemma_source_key_is_input_key`) leave the same stats.
pub proof fn lemma_same_key_steps_agree<A>(
    before: CacheView<A>,
    k: KeyView,
    a1: CacheView<A>,
    s1: A,
    a2: CacheView<A>,
    s2: A,
)
    requires
        spec_analyze_step(before, k, a1, s1),
        spec_analyze_step(before, k, a2, s2),
    ensures
        a1.hits == a2.hits,
        a1.misses == a2.misses,
        a1.entries.len() == a2.entries.len(),
        entry_keys(a1.entries) == entry_keys(a2.entries),
{
    if spec_entry_index(before.entries, k) is None {
        assert(entry_keys(a1.entries) =~= entry_keys(a2.entries));
    }
}

/// The key of a source analyzed alone is the key of the input that holds
/// only that source.
pub proof fn lemma_source_key_is_input_key(source: SourceFile, input: AnalysisInput)
    requires
        input.root == source,
        input.library_sources@.len() == 0,
    ensures
        spec_key_of(input) == spec_source_key(source),
{
    assert(spec_key_of(input).libraries =~= spec_source_key(source).libraries);
}


/// The analyses `f` gives are determined by the input's key: two inputs
/// with one key never get different analyses.
pub open spec fn analysis_per_key<A, F: Fn(&AnalysisInput) -> A>(f: F) -> bool {
    forall|i1: AnalysisInput, i2: AnalysisInput, r1: A, r2: A|
        #![trigger call_ensures(f, (&i1,), r1), call_ensures(f, (&i2,), r2)]
        spec_key_of(i1) == spec_key_of(i2) && call_ensures(f, (&i1,), r1) && call_ensures(f, (&i2,), r2) ==> r1
            == r2
}

/// Cloning an `A` gives an equal value.
pub open spec fn exact_clone<A: Clone>() -> bool {
    forall|a: A, b: A| #[trigger] vstd::pervasive::cloned(a, b) ==> a == b
}

/// `r` is what `f` gives on some input whose key is `k`.
pub open spec fn is_analysis_of<A, F: Fn(&AnalysisInput) -> A>(f: F, k: KeyView, r: A) -> bool {
    exists|i: AnalysisInput| spec_key_of(i) == k && #[trigger] call_ensures(f, (&i,), r)
}

/// Every cached analysis is what `f` gives on its key.
pub open spec fn holds_analyses<A, F: Fn(&AnalysisInput) -> A>(f: F, c: CacheView<A>) -> bool {
    forall|j: int| 0 <= j < c.entries.len() ==> is_analysis_of(f, c.entries[j].0, #[trigger] c.entries[j].1)
}

/// Caching does not show in the result: where the analysis is determined
/// by the input's key and cloning is exact, and the cache holds only what
/// the analysis gave, a request for key `k` (hit or miss, as
/// `analyze_input` and `analyze` describe it) returns the analysis of `k`,
/// which equals every other analysis of an input with that key (a repeated
/// request returns the earlier result), and the cache still holds only
/// what the analysis gave.
pub proof fn lemma_cache_is_transparent<A: Clone, F: Fn(&AnalysisInput) -> A>(
    f: F,
    before: CacheView<A>,
    k: KeyView,
    after: CacheView<A>,
    stored: A,
    r: A,
)
    requires
        analysis_per_key(f),
        exact_clone::<A>(),
        holds_analyses(f, before),
        spec_analyze_step(before, k, after, stored),
        match spec_entry_index(before.entries, k) {
            Some(i) => vstd::pervasive::cloned(before.entries[i].1, r),
            None => is_analysis_of(f, k, r) && vstd::pervasive::cloned(r, stored),
        },
    ensures
        is_analysis_of(f, k, r),
        forall|e: A| #[trigger] is_analysis_of(f, k, e) ==> e == r,
        holds_analyses(f, after),
{
    match spec_entry_index(before.entries, k) {
        Some(i) => {
            lemma_entry_index_in_range(before.entries, k, 0);
            assert(is_analysis_of(f, before.entries[i].0, before.entries[i].1));
            assert(before.entries[i].1 == r);
        },
        None => {
            assert(r == stored);
            assert forall|j: int| 0 <= j < after.entries.len() implies is_analysis_of(
                f,
                after.entries[j].0,
                #[trigger] after.entries[j].1,
            ) by {
                if j < before.entries.len() {
                    assert(after.entries[j] == before.entries[j]);
                }
            }
        },
    }
    assert forall|e: A| #[trigger] is_analysis_of(f, k, e) implies e == r by {
        let i1 = choose|i: AnalysisInput| spec_key_of(i) == k && #[trigger] call_ensures(f, (&i,), r);
        let i2 = choose|i: AnalysisInput| spec_key_of(i) == k && #[trigger] call_ensures(f, (&i,), e);
        assert(call_ensures(f, (&i1,), r) && call_ensures(f, (&i2,), e));
    }
}


/// Two inputs have the same key exactly when they have the same root name
/// and text and the same libraries, in order, each with the same import
/// key, name and text: an input is never answered with the analysis of
/// another source text.
pub proof fn lemma_key_identifies_the_sources(a: AnalysisInput, b: AnalysisInput)
    ensures
        spec_key_of(a) == spec_key_of(b) <==> {
            &&& a.root.name@ == b.root.name@
            &&& a.root.text@ == b.root.text@
            &&& a.library_sources@.len() == b.library_sources@.len()
            &&& forall|i: int|
                0 <= i < a.library_sources@.len() ==> {
                    &&& (#[trigger] a.library_sources@[i]).key@ == b.library_sources@[i].key@
                    &&& a.library_sources@[i].source.name@ == b.library_sources@[i].source.name@
                    &&& a.library_sources@[i].source.text@ == b.library_sources@[i].source.text@
                }
        },
{
    let la = spec_key_of(a).libraries;
    let lb = spec_key_of(b).libraries;
    if spec_key_of(a) == spec_key_of(b) {
        assert forall|i: int| 0 <= i < a.library_sources@.len() implies {
            &&& (#[trigger] a.library_sources@[i]).key@ == b.library_sources@[i].key@
            &&& a.library_sources@[i].source.name@ == b.library_sources@[i].source.name@
            &&& a.library_sources@[i].source.text@ == b.library_sources@[i].source.text@
        } by {
            assert(la[i] == lb[i]);
        }
    }
    if a.root.name@ == b.root.name@ && a.root.text@ == b.root.text@ && a.library_sources@.len()
        == b.library_sources@.len() && forall|i: int|
        0 <= i < a.library_sources@.len() ==> {
            &&& (#[trigger] a.library_sources@[i]).key@ == b.library_sources@[i].key@
            &&& a.library_sources@[i].source.name@ == b.library_sources@[i].source.name@
            &&& a.library_sources@[i].source.text@ == b.library_sources@[i].source.text@
        } {
        assert(la =~= lb);
    }
}

} // verus!
