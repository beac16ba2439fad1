//! The documents exchanged with callers: the URL request and the scan result.

use serde_json::Value;
use vstd::prelude::*;

verus! {

/// `serde_json::Value`, the metadata of a rule as a JSON document. Opaque: the library
/// carries it from the engine to the result and never looks into it.
#[verifier::external_type_specification]
#[verifier::external_body]
pub struct ExJsonValue(Value);

/// A URL-mode request: where the content is, and whether it is zip-packaged.
#[derive(Debug)]
pub struct UrlDto {
    pub need_to_unzip: bool,
    pub url: String,
}

/// One rule that matched: its identifier, its namespace and the metadata attached to
/// its definition, as a JSON document.
#[derive(Debug)]
pub struct MatchedRules {
    pub rule: String,
    pub namespace: String,
    pub meta: Value,
}

/// The mathematical content of a `MatchedRules`.
pub struct MatchedRulesView {
    pub rule: Seq<char>,
    pub namespace: Seq<char>,
    pub meta: Value,
}

impl View for MatchedRules {
    type V = MatchedRulesView;

    open spec fn view(&self) -> MatchedRulesView {
        MatchedRulesView { rule: self.rule@, namespace: self.namespace@, meta: self.meta }
    }
}

/// The outcome of one scan request.
#[derive(Debug)]
pub struct YaraResult {
    pub matched_rule_count: usize,
    pub matched_rules: Vec<MatchedRules>,
    pub error: Option<String>,
}

/// The mathematical content of a `YaraResult`.
pub struct YaraResultView {
    pub matched_rule_count: nat,
    pub matched_rules: Seq<MatchedRulesView>,
    pub error: Option<Seq<char>>,
}

impl View for YaraResult {
    type V = YaraResultView;

    open spec fn view(&self) -> YaraResultView {
        YaraResultView {
            matched_rule_count: self.matched_rule_count as nat,
            matched_rules: self.matched_rules@.map_values(|m: MatchedRules| m@),
            error: match self.error {
                Some(text) => Some(text@),
                None => None,
            },
        }
    }
}

impl YaraResultView {
    /// The count is the length of the match list, and a result that carries an error
    /// carries no match.
    pub open spec fn wf(self) -> bool {
        &&& self.matched_rule_count == self.matched_rules.len()
        &&& self.error is Some ==> self.matched_rules.len() == 0
    }

    /// The result of a request that failed before or during the scan.
    pub open spec fn failure(message: Seq<char>) -> YaraResultView {
        YaraResultView { matched_rule_count: 0, matched_rules: Seq::empty(), error: Some(message) }
    }

    /// The result of a scan that reported `matches`, in that order.
    pub open spec fn matched(matches: Seq<MatchedRulesView>) -> YaraResultView {
        YaraResultView { matched_rule_count: matches.len(), matched_rules: matches, error: None }
    }
}

impl YaraResult {
    /// A result that reports `message` and no match.
    pub fn failure(message: String) -> (r: YaraResult)
        ensures
            r@ == YaraResultView::failure(message@),
            r@.wf(),
    {
        let r = YaraResult {
            matched_rule_count: 0,
            matched_rules: Vec::new(),
            error: Some(message),
        };
        assert(r@.matched_rules =~= Seq::empty());
        r
    }

    /// A result that reports the given matches, in their order, and no error.
    pub fn matched(matches: Vec<MatchedRules>) -> (r: YaraResult)
        ensures
            r@ == YaraResultView::matched(matches@.map_values(|m: MatchedRules| m@)),
            r@.wf(),
    {
        YaraResult { matched_rule_count: matches.len(), matched_rules: matches, error: None }
    }
}

} // verus!
