//! The rule store and the scanning pipeline: compiling the rule files of a directory
//! into a ruleset, holding the active ruleset, and scanning content against it.

use crate::compress::extract_first_file_as_bytes;
use crate::compress::unwrapped;
use crate::compress::zip_entries;
use crate::dto::MatchedRules;
use crate::dto::MatchedRulesView;
use crate::dto::YaraResult;
use crate::dto::YaraResultView;
use crate::engine::add_source;
use crate::engine::build_rules;
use crate::engine::compile_error_text;
use crate::engine::compiler_sources;
use crate::engine::new_compiler;
use crate::engine::new_scanner;
use crate::engine::ruleset_sources;
use crate::engine::scan_error_text;
use crate::engine::scan_bytes;
use crate::engine::share_rules;
use crate::engine::RawMatch;
use crate::http::download_url_to_bytes;
use crate::http::fetched;
use crate::http::refusal_of;
use crate::http::Transfer;
use std::sync::Arc;
use vstd::prelude::*;
use vstd::string::*;
use yara_x::Rules;

verus! {

/// One step of walking the rules directory, with what reading the entry gave. A walk is
/// a list of such steps in the order in which the directory yields its entries.
#[derive(Debug)]
pub enum DirItem {
    /// The walk failed at this step; the text says why.
    Unlisted(String),
    /// A subdirectory, by its path. The walk does not descend into it.
    Directory(String),
    /// An entry of the directory: its path, and its text or why it could not be read.
    /// For an entry that is no rule file, `read` is not looked at.
    Listed { path: String, read: Result<String, String> },
}

/// A path names a rule file when its last component, the part after the last `/`, is
/// a non-empty stem followed by `.yar`.
pub open spec fn is_rule_path(path: Seq<char>) -> bool {
    &&& path.len() >= 5
    &&& path[path.len() - 4] == '.'
    &&& path[path.len() - 3] == 'y'
    &&& path[path.len() - 2] == 'a'
    &&& path[path.len() - 1] == 'r'
    &&& path[path.len() - 5] != '/'
}

/// What one step of the walk contributes to a compilation.
pub enum Step {
    /// No rule file: ignored.
    Skipped,
    /// The walk or the read failed, with this text.
    Failed(Seq<char>),
    /// A rule file with this text.
    Source(Seq<char>),
}

/// What the step `item` contributes: a rule file that was read is a source, a failed
/// walk and a rule file that could not be read are failures, all else is skipped.
pub open spec fn step_of(item: DirItem) -> Step {
    match item {
        DirItem::Unlisted(error) => Step::Failed(error@),
        DirItem::Directory(_) => Step::Skipped,
        DirItem::Listed { path, read } => if !is_rule_path(path@) {
            Step::Skipped
        } else {
            match read {
                Ok(text) => Step::Source(text@),
                Err(error) => Step::Failed(error@),
            }
        },
    }
}

/// The texts of the rule files among `items`, in the order of the walk.
pub open spec fn sources_of(items: Seq<DirItem>) -> Seq<Seq<char>>
    decreases items.len(),
{
    if items.len() == 0 {
        Seq::empty()
    } else {
        match step_of(items.last()) {
            Step::Source(text) => sources_of(items.drop_last()).push(text),
            _ => sources_of(items.drop_last()),
        }
    }
}

/// No step of the walk failed.
pub open spec fn readable(items: Seq<DirItem>) -> bool {
    forall|i: int| 0 <= i < items.len() ==> !(#[trigger] step_of(items[i]) is Failed)
}

/// Why a directory did not compile into a ruleset.
#[derive(Debug)]
pub enum LoadError {
    /// The directory or a rule file could not be read.
    Io(String),
    /// The compiler refused the rule file at `path`.
    Compile { path: String, detail: String },
}

/// The walk stops at step `i` on an I/O failure with the text `message`.
pub open spec fn stops_on_io(items: Seq<DirItem>, i: int, message: Seq<char>) -> bool {
    &&& 0 <= i < items.len()
    &&& readable(items.take(i))
    &&& step_of(items[i]) == Step::Failed(message)
}

/// The walk reaches the rule file at step `i`, whose path is `path`.
pub open spec fn reaches_source(items: Seq<DirItem>, i: int, path: Seq<char>) -> bool {
    &&& 0 <= i < items.len()
    &&& readable(items.take(i))
    &&& step_of(items[i]) is Source
    &&& items[i] matches DirItem::Listed { path: p, .. } && p@ == path
}

/// What a failed compilation says of the walk it was given.
pub open spec fn load_failure(items: Seq<DirItem>, error: LoadError) -> bool {
    match error {
        LoadError::Io(message) => exists|i: int| stops_on_io(items, i, message@),
        LoadError::Compile { path, detail } => exists|i: int| reaches_source(items, i, path@),
    }
}

impl LoadError {
    /// The text of the error as it is reported.
    pub open spec fn text(self) -> Seq<char> {
        match self {
            LoadError::Io(message) => message@,
            LoadError::Compile { path, detail } => "Compile error in \""@ + path@ + "\": "@
                + detail@,
        }
    }

    /// The text of the error, for a log line or an answer.
    pub fn message(&self) -> (text: String)
        ensures
            text@ == self.text(),
    {
        match self {
            LoadError::Io(message) => message.clone(),
            LoadError::Compile { path, detail } => {
                let mut text = String::from_str("Compile error in \"");
                text.append(path.as_str());
                text.append("\": ");
                text.append(detail.as_str());
                text
            },
        }
    }
}

/// A compiled ruleset with the number of rule files that went into it.
pub struct Loaded {
    pub rules: Arc<Rules>,
    pub file_count: usize,
}

/// Whether `path` names a rule file.
pub fn has_rule_extension(path: &str) -> (b: bool)
    ensures
        b == is_rule_path(path@),
{
    let n: usize = path.unicode_len();
    if n < 5 {
        return false;
    }
    path.get_char(n - 4) == '.' && path.get_char(n - 3) == 'y' && path.get_char(n - 2) == 'a'
        && path.get_char(n - 1) == 'r' && path.get_char(n - 5) != '/'
}

/// One more step of the walk adds its source, if it is one, to the sources so far.
proof fn lemma_sources_step(items: Seq<DirItem>, i: int)
    requires
        0 <= i < items.len(),
    ensures
        sources_of(items.take(i + 1)) == match step_of(items[i]) {
            Step::Source(text) => sources_of(items.take(i)).push(text),
            _ => sources_of(items.take(i)),
        },
        sources_of(items.take(i)).len() <= i,
    decreases i,
{
    assert(items.take(i + 1).drop_last() =~= items.take(i));
    if i > 0 {
        lemma_sources_step(items, i - 1);
    }
}

/// Rule files that the walk holds are among the sources: a walk with a rule file has a
/// non-empty source list.
proof fn lemma_source_counts(items: Seq<DirItem>, i: int)
    requires
        0 <= i < items.len(),
        step_of(items[i]) is Source,
    ensures
        sources_of(items).len() > 0,
    decreases items.len(),
{
    if i < items.len() - 1 {
        lemma_source_counts(items.drop_last(), i);
    }
}

/// A failure that step `i` of the walk explains is a failure of the walk.
proof fn lemma_failure_at(items: Seq<DirItem>, i: int, error: LoadError)
    requires
        match error {
            LoadError::Io(message) => stops_on_io(items, i, message@),
            LoadError::Compile { path, detail } => reaches_source(items, i, path@),
        },
    ensures
        load_failure(items, error),
        !(readable(items) && sources_of(items).len() == 0),
{
    if step_of(items[i]) is Source {
        lemma_source_counts(items, i);
    }
}

/// Compiles the rule files of a directory walk into one ruleset, in the order of the
/// walk. Entries that are no rule files are ignored. The first step that failed, or the
/// first rule file that the compiler refuses, aborts the whole compilation: there is no
/// partial ruleset. A walk without rule files compiles into an empty ruleset.
pub fn load_rules_from_dir(items: &Vec<DirItem>) -> (r: Result<Loaded, LoadError>)
    ensures
        match r {
            Ok(loaded) => {
                &&& readable(items@)
                &&& ruleset_sources(*loaded.rules) == sources_of(items@)
                &&& loaded.file_count == sources_of(items@).len()
            },
            Err(error) => load_failure(items@, error),
        },
        readable(items@) && sources_of(items@).len() == 0 ==> r is Ok,
{
    let mut compiler = new_compiler();
    let mut file_count: usize = 0;
    let mut i: usize = 0;
    while i < items.len()
        invariant
            i <= items.len(),
            file_count <= i,
            readable(items@.take(i as int)),
            compiler_sources(compiler) == sources_of(items@.take(i as int)),
            file_count == sources_of(items@.take(i as int)).len(),
        decreases items.len() - i,
    {
        proof {
            lemma_sources_step(items@, i as int);
        }
        match &items[i] {
            DirItem::Unlisted(error) => {
                let failure = LoadError::Io(error.clone());
                proof {
                    lemma_failure_at(items@, i as int, failure);
                }
                return Err(failure);
            },
            DirItem::Directory(_) => {},
            DirItem::Listed { path, read } => {
                if has_rule_extension(path.as_str()) {
                    match read {
                        Err(error) => {
                            let failure = LoadError::Io(error.clone());
                            proof {
                                lemma_failure_at(items@, i as int, failure);
                            }
                            return Err(failure);
                        },
                        Ok(text) => {
                            match add_source(&mut compiler, text.as_str()) {
                                Err(refusal) => {
                                    let failure = LoadError::Compile {
                                        path: path.clone(),
                                        detail: compile_error_text(&refusal),
                                    };
                                    proof {
                                        lemma_failure_at(items@, i as int, failure);
                                    }
                                    return Err(failure);
                                },
                                Ok(()) => {
                                    file_count = file_count + 1;
                                },
                            }
                        },
                    }
                }
            },
        }
        assert forall|j: int| 0 <= j < i + 1 implies !(#[trigger] step_of(
            items@.take(i + 1)[j],
        ) is Failed) by {
            assert(j < i ==> items@.take(i + 1)[j] == items@.take(i as int)[j]);
        }
        i = i + 1;
    }
    assert(items@.take(i as int) =~= items@);
    Ok(Loaded { rules: Arc::new(build_rules(compiler)), file_count })
}

/// Why the store refused an operation.
#[derive(Debug)]
pub enum StoreError {
    /// The rules directory is already fixed.
    AlreadyInitialized,
    /// No rules directory was ever recorded.
    NotInitialized,
    /// The directory did not compile.
    Load(LoadError),
}

impl StoreError {
    /// The text of the error as it is reported.
    pub open spec fn text(self) -> Seq<char> {
        match self {
            StoreError::AlreadyInitialized => "Rules dir already set"@,
            StoreError::NotInitialized => "Rules dir not initialized"@,
            StoreError::Load(error) => error.text(),
        }
    }

    /// The text of the error, for a log line or an answer.
    pub fn message(&self) -> (text: String)
        ensures
            text@ == self.text(),
    {
        match self {
            StoreError::AlreadyInitialized => String::from_str("Rules dir already set"),
            StoreError::NotInitialized => String::from_str("Rules dir not initialized"),
            StoreError::Load(error) => error.message(),
        }
    }
}

/// The rules directory with the ruleset that is active for it.
struct ActiveRules {
    dir: String,
    rules: Arc<Rules>,
}

/// The single slot that holds the active ruleset. It starts empty, is filled by the
/// one initialization and is never emptied again: a reload replaces the ruleset or
/// leaves the slot as it was.
pub struct RuleStore {
    state: Option<ActiveRules>,
}

/// The state of a rule store.
pub enum StoreView {
    /// No directory is recorded and no ruleset is installed.
    Uninitialized,
    /// The recorded directory and the ruleset that scans read.
    Active { dir: Seq<char>, rules: Rules },
}

impl View for RuleStore {
    type V = StoreView;

    closed spec fn view(&self) -> StoreView {
        match self.state {
            None => StoreView::Uninitialized,
            Some(active) => StoreView::Active { dir: active.dir@, rules: *active.rules },
        }
    }
}

impl RuleStore {
    /// A store in which nothing is installed yet.
    pub fn new() -> (store: RuleStore)
        ensures
            store@ is Uninitialized,
    {
        RuleStore { state: None }
    }

    /// Whether a ruleset is installed.
    pub fn is_initialized(&self) -> (b: bool)
        ensures
            b == (self@ is Active),
    {
        self.state.is_some()
    }

    /// The directory that rules are loaded from, once it is recorded.
    pub fn rules_dir(&self) -> (r: Option<String>)
        ensures
            match self@ {
                StoreView::Uninitialized => r is None,
                StoreView::Active { dir, rules } => r matches Some(d) && d@ == dir,
            },
    {
        match &self.state {
            None => None,
            Some(active) => Some(active.dir.clone()),
        }
    }

    /// A handle of its own to the ruleset that is active now. The ruleset behind a
    /// handle never changes: a later reload installs another ruleset and leaves this one
    /// to those who hold it.
    pub fn active_ruleset(&self) -> (r: Option<Arc<Rules>>)
        ensures
            match self@ {
                StoreView::Uninitialized => r is None,
                StoreView::Active { dir, rules } => r matches Some(handle) && *handle == rules,
            },
    {
        match &self.state {
            None => None,
            Some(active) => Some(share_rules(&active.rules)),
        }
    }

    /// Records the directory and installs the first ruleset. This happens once: on a
    /// store that is active it fails and changes nothing.
    pub fn initialize(&mut self, dir: String, rules: Arc<Rules>) -> (r: Result<(), StoreError>)
        ensures
            match old(self)@ {
                StoreView::Uninitialized => r is Ok && final(self)@ == (StoreView::Active {
                    dir: dir@,
                    rules: *rules,
                }),
                StoreView::Active { .. } => {
                    &&& r matches Err(StoreError::AlreadyInitialized)
                    &&& final(self)@ == old(self)@
                },
            },
    {
        if self.state.is_some() {
            return Err(StoreError::AlreadyInitialized);
        }
        self.state = Some(ActiveRules { dir, rules });
        Ok(())
    }

    /// Replaces the active ruleset by `rules` in one step. On a store that was never
    /// initialized it fails and changes nothing.
    pub fn publish(&mut self, rules: Arc<Rules>) -> (r: Result<(), StoreError>)
        ensures
            match old(self)@ {
                StoreView::Uninitialized => {
                    &&& r matches Err(StoreError::NotInitialized)
                    &&& final(self)@ == old(self)@
                },
                StoreView::Active { dir, .. } => r is Ok && final(self)@ == (StoreView::Active {
                    dir,
                    rules: *rules,
                }),
            },
    {
        match self.state.take() {
            None => Err(StoreError::NotInitialized),
            Some(active) => {
                self.state = Some(ActiveRules { dir: active.dir, rules });
                Ok(())
            },
        }
    }
}

/// What initializing a store in state `before` with the walk `items` of `dir` may give.
pub open spec fn init_outcome(
    before: StoreView,
    dir: Seq<char>,
    items: Seq<DirItem>,
    after: StoreView,
    r: Result<(), StoreError>,
) -> bool {
    match r {
        Ok(_) => {
            &&& before is Uninitialized
            &&& readable(items)
            &&& after matches StoreView::Active { dir: d, rules }
            &&& d == dir
            &&& ruleset_sources(rules) == sources_of(items)
        },
        Err(StoreError::Load(error)) => after == before && load_failure(items, error),
        Err(StoreError::AlreadyInitialized) => after == before && before is Active && readable(
            items,
        ),
        Err(StoreError::NotInitialized) => false,
    }
}

/// What reloading a store in state `before` from the walk `items` may give.
pub open spec fn reload_outcome(
    before: StoreView,
    items: Seq<DirItem>,
    after: StoreView,
    r: Result<(), StoreError>,
) -> bool {
    match r {
        Ok(_) => {
            &&& readable(items)
            &&& before matches StoreView::Active { dir, .. }
            &&& after matches StoreView::Active { dir: d, rules }
            &&& d == dir
            &&& ruleset_sources(rules) == sources_of(items)
        },
        Err(StoreError::NotInitialized) => after == before && before is Uninitialized,
        Err(StoreError::Load(error)) => after == before && before is Active && load_failure(
            items,
            error,
        ),
        Err(StoreError::AlreadyInitialized) => false,
    }
}

/// Compiles the walk `items` of the directory `dir` and, on success, records `dir` as
/// the permanent rules directory and installs the ruleset as active. It fails where the
/// compilation fails and where the store is already initialized; a failure leaves the
/// store as it was.
pub fn init_rules(store: &mut RuleStore, dir: String, items: &Vec<DirItem>) -> (r: Result<
    (),
    StoreError,
>)
    ensures
        init_outcome(old(store)@, dir@, items@, final(store)@, r),
        old(store)@ is Uninitialized && readable(items@) && sources_of(items@).len() == 0
            ==> r is Ok,
{
    match load_rules_from_dir(items) {
        Err(error) => Err(StoreError::Load(error)),
        Ok(loaded) => store.initialize(dir, loaded.rules),
    }
}

/// Compiles the walk `items` of the recorded directory from scratch and, on success,
/// replaces the active ruleset. It fails on a store that was never initialized. Where
/// the compilation fails, the ruleset that was active stays active and unchanged.
pub fn reload_rules(store: &mut RuleStore, items: &Vec<DirItem>) -> (r: Result<(), StoreError>)
    ensures
        reload_outcome(old(store)@, items@, final(store)@, r),
        old(store)@ is Active && readable(items@) && sources_of(items@).len() == 0
            ==> r is Ok,
{
    if !store.is_initialized() {
        return Err(StoreError::NotInitialized);
    }
    match load_rules_from_dir(items) {
        Err(error) => Err(StoreError::Load(error)),
        Ok(loaded) => store.publish(loaded.rules),
    }
}

/// A reload is all or nothing: where it fails the store is as it was, where it succeeds
/// the same directory holds the ruleset compiled from the walk; no other state is ever
/// seen.
pub proof fn reload_is_all_or_nothing(
    before: StoreView,
    items: Seq<DirItem>,
    after: StoreView,
    r: Result<(), StoreError>,
)
    requires
        reload_outcome(before, items, after, r),
    ensures
        r is Err ==> after == before,
        r is Ok ==> {
            &&& before matches StoreView::Active { dir, .. }
            &&& after matches StoreView::Active { dir: d, rules }
            &&& d == dir
            &&& ruleset_sources(rules) == sources_of(items)
        },
{
}

/// No operation empties the slot: a store that is active stays active through every
/// initialization and every reload, whatever their outcome, and keeps its directory.
pub proof fn active_store_stays_active(
    before: StoreView,
    dir: Seq<char>,
    items: Seq<DirItem>,
    after: StoreView,
    r: Result<(), StoreError>,
)
    requires
        before is Active,
        init_outcome(before, dir, items, after, r) || reload_outcome(before, items, after, r),
    ensures
        ({
            &&& after matches StoreView::Active { dir: d, .. }
            &&& before matches StoreView::Active { dir: b, .. }
            &&& d == b
        }),
{
}

/// A failed initialization leaves the store uninitialized, and a successful one makes
/// it active: there is no other way out of the uninitialized state.
pub proof fn only_initialization_activates(
    before: StoreView,
    dir: Seq<char>,
    items: Seq<DirItem>,
    after: StoreView,
    r: Result<(), StoreError>,
)
    requires
        before is Uninitialized,
    ensures
        init_outcome(before, dir, items, after, r) ==> (after is Active <==> r is Ok),
        reload_outcome(before, items, after, r) ==> after is Uninitialized && r is Err,
{
}

/// Content that is no zip archive is not scanned when unwrapping is asked for: the
/// result carries the unwrap failure and no match.
pub proof fn unreadable_archive_is_not_scanned(
    rules: Rules,
    bytes: Seq<u8>,
    result: YaraResultView,
)
    requires
        zip_entries(bytes) is None,
        unzip_scan_outcome(rules, bytes, true, result),
    ensures
        result.error is Some,
        result.matched_rule_count == 0,
        result.matched_rules.len() == 0,
        exists|detail: Seq<char>| result == #[trigger] unzip_failure(detail),
{
}

/// Against the ruleset of a directory without rule files every scan that gets as far
/// as the engine reports nothing: no match, a count of zero and no error.
pub proof fn empty_ruleset_matches_nothing(
    before: StoreView,
    dir: Seq<char>,
    items: Seq<DirItem>,
    after: StoreView,
    bytes: Seq<u8>,
    need_to_unzip: bool,
    result: YaraResultView,
)
    requires
        sources_of(items).len() == 0,
        init_outcome(before, dir, items, after, Ok(())) || reload_outcome(
            before,
            items,
            after,
            Ok(()),
        ),
        need_to_unzip ==> unwrapped(bytes) is Some,
        ({
            &&& after matches StoreView::Active { rules, .. }
            &&& unzip_scan_outcome(rules, bytes, need_to_unzip, result)
        }),
    ensures
        result.matched_rule_count == 0,
        result.matched_rules == Seq::<MatchedRulesView>::empty(),
        result.error is None,
{
}

/// What one reported match becomes in a result.
pub open spec fn projected(found: RawMatch) -> MatchedRulesView {
    MatchedRulesView { rule: found.identifier@, namespace: found.namespace@, meta: found.metadata }
}

/// The result for a scan that failed in the engine with the text `detail`.
pub open spec fn scan_failure(detail: Seq<char>) -> YaraResultView {
    YaraResultView::failure("Scan failed: "@ + detail)
}

/// The result for content that could not be unwrapped, for the reason `detail`.
pub open spec fn unzip_failure(detail: Seq<char>) -> YaraResultView {
    YaraResultView::failure("Failed to unzip file: "@ + detail)
}

/// The result for content that could not be fetched, for the reason `detail`.
pub open spec fn download_failure(detail: Seq<char>) -> YaraResultView {
    YaraResultView::failure("dowload file failed: "@ + detail)
}

/// What a scan against `rules` may give: the projection of some list of matches, or a
/// failure of the engine; against a ruleset built from no source, no match and no error.
pub open spec fn scan_outcome(rules: Rules, result: YaraResultView) -> bool {
    &&& result.wf()
    &&& result.error matches Some(text) ==> exists|detail: Seq<char>|
        result == #[trigger] scan_failure(detail)
    &&& ruleset_sources(rules).len() == 0 ==> result == YaraResultView::matched(Seq::empty())
}

/// What scanning `bytes` against `rules` may give, after unwrapping where that is asked
/// for. Content that cannot be unwrapped is not scanned.
pub open spec fn unzip_scan_outcome(
    rules: Rules,
    bytes: Seq<u8>,
    need_to_unzip: bool,
    result: YaraResultView,
) -> bool {
    if need_to_unzip && unwrapped(bytes) is None {
        exists|detail: Seq<char>| result == #[trigger] unzip_failure(detail)
    } else {
        scan_outcome(rules, result)
    }
}

/// Shapes the matches that the engine reported into a result: one entry for each, in
/// the order reported, and no error.
pub fn project_matches(found: Vec<RawMatch>) -> (r: YaraResult)
    ensures
        r@ == YaraResultView::matched(found@.map_values(|m: RawMatch| projected(m))),
        r@.wf(),
{
    let ghost all = found@;
    let mut matched_info: Vec<MatchedRules> = Vec::new();
    for rule in it: found
        invariant
            it.seq() == all,
            matched_info@.len() == it.index(),
            forall|j: int|
                0 <= j < it.index() ==> (#[trigger] matched_info@[j])@ == projected(all[j]),
    {
        matched_info.push(
            MatchedRules { rule: rule.identifier, namespace: rule.namespace, meta: rule.metadata },
        );
    }
    assert(matched_info@.map_values(|m: MatchedRules| m@) =~= all.map_values(
        |m: RawMatch| projected(m),
    ));
    YaraResult::matched(matched_info)
}

/// Scans `bytes` against a ruleset and reports the rules that matched, in the order
/// the engine reports them. A failure of the engine is reported in the result.
pub fn match_yara_rules(rules: &Rules, bytes: &[u8]) -> (r: YaraResult)
    ensures
        scan_outcome(*rules, r@),
{
    let mut scanner = new_scanner(rules);
    match scan_bytes(&mut scanner, bytes) {
        Ok(found) => {
            let r = project_matches(found);
            assert(found@.len() == 0 ==> r@.matched_rules =~= Seq::empty());
            r
        },
        Err(error) => {
            let detail = scan_error_text(&error);
            let mut text = String::from_str("Scan failed: ");
            text.append(detail.as_str());
            let r = YaraResult::failure(text);
            assert(r@ == scan_failure(detail@));
            r
        },
    }
}

/// Scans `bytes`, or, where `need_to_unzip` is set, the first entry of the zip archive
/// that `bytes` holds. There is no fallback: content that cannot be unwrapped is not
/// scanned, and the result says why.
pub fn match_yara_rules_with_unzip(rules: &Rules, bytes: &[u8], need_to_unzip: bool) -> (r:
    YaraResult)
    ensures
        unzip_scan_outcome(*rules, bytes@, need_to_unzip, r@),
        need_to_unzip && zip_entries(bytes@) == Some(Seq::<Option<Seq<u8>>>::empty()) ==> r@
            == unzip_failure("Zip archive is empty"@),
        r@.wf(),
{
    if need_to_unzip {
        match extract_first_file_as_bytes(bytes) {
            Ok(content) => match_yara_rules(rules, content.as_slice()),
            Err(error) => {
                let detail = error.message();
                let mut text = String::from_str("Failed to unzip file: ");
                text.append(detail.as_str());
                let r = YaraResult::failure(text);
                assert(r@ == unzip_failure(error.text()));
                r
            },
        }
    } else {
        match_yara_rules(rules, bytes)
    }
}

/// Scans what a finished transfer fetched, unwrapped first where `need_to_unzip` is
/// set. A transfer that yielded no content is not scanned, and the result says why.
pub fn match_yara_rules_with_unzip_and_url(
    rules: &Rules,
    transfer: Transfer,
    need_to_unzip: bool,
) -> (r: YaraResult)
    ensures
        match fetched(transfer) {
            Some(content) => unzip_scan_outcome(*rules, content, need_to_unzip, r@),
            None => r@ == download_failure(refusal_of(transfer).text()),
        },
        r@.wf(),
{
    match download_url_to_bytes(transfer) {
        Ok(content) => match_yara_rules_with_unzip(rules, content.as_slice(), need_to_unzip),
        Err(error) => {
            let detail = error.message();
            let mut text = String::from_str("dowload file failed: ");
            text.append(detail.as_str());
            YaraResult::failure(text)
        },
    }
}

} // verus!
