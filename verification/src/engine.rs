//! The matching engine: compiling rule sources into a ruleset and scanning a buffer
//! against one. The engine is the `yara_x` crate; everything here is its interface.

use serde_json::Value;
use std::sync::Arc;
use vstd::prelude::*;
use yara_x::errors::CompileError;
use yara_x::Compiler;
use yara_x::Rules;
use yara_x::ScanError;
use yara_x::Scanner;

verus! {

/// `yara_x::Compiler`. Opaque: `compiler_sources` names what it holds.
#[verifier::external_type_specification]
#[verifier::external_body]
pub struct ExCompiler<'a>(Compiler<'a>);

/// `yara_x::Rules`, a compiled ruleset. Opaque: `ruleset_sources` names what it holds.
#[verifier::external_type_specification]
#[verifier::external_body]
pub struct ExRules(Rules);

/// `yara_x::errors::CompileError`, as adding a source returns it. Opaque.
#[verifier::external_type_specification]
#[verifier::external_body]
pub struct ExCompileError(CompileError);

/// `yara_x::Scanner`, a scanner made for one ruleset. Opaque: `scanner_sources` names
/// the ruleset it scans with.
#[verifier::external_type_specification]
#[verifier::external_body]
pub struct ExScanner<'r>(Scanner<'r>);

/// `yara_x::ScanError`, as a scan returns it. Opaque.
#[verifier::external_type_specification]
#[verifier::external_body]
pub struct ExScanError(ScanError);

/// The source texts that a compiler has accepted so far, in the order they were added.
pub uninterp spec fn compiler_sources(compiler: Compiler<'static>) -> Seq<Seq<char>>;

/// The source texts that a ruleset was built from, in the order they were added.
pub uninterp spec fn ruleset_sources(rules: Rules) -> Seq<Seq<char>>;

/// The source texts of the ruleset that a scanner was made for.
pub uninterp spec fn scanner_sources(scanner: Scanner) -> Seq<Seq<char>>;

/// One matching rule as the engine reports it.
pub struct RawMatch {
    pub identifier: String,
    pub namespace: String,
    pub metadata: Value,
}

/// `yara_x::Compiler::new`. Trusted: a new compiler holds no source.
#[verifier::external_body]
pub(crate) fn new_compiler() -> (compiler: Compiler<'static>)
    ensures
        compiler_sources(compiler) == Seq::<Seq<char>>::empty(),
{
    Compiler::new()
}

/// `yara_x::Compiler::add_source` on a `&str`. Trusted: a source that is accepted comes
/// after those the compiler held. Nothing is claimed of the compiler after a refusal.
#[verifier::external_body]
pub(crate) fn add_source(compiler: &mut Compiler<'static>, source: &str) -> (r: Result<
    (),
    CompileError,
>)
    ensures
        r is Ok ==> compiler_sources(*final(compiler)) == compiler_sources(*old(compiler)).push(
            source@,
        ),
{
    compiler.add_source(source).map(|_| ())
}

/// `yara_x::Compiler::build`. Trusted: the ruleset is built from the sources that the
/// compiler held.
#[verifier::external_body]
pub(crate) fn build_rules(compiler: Compiler<'static>) -> (rules: Rules)
    ensures
        ruleset_sources(rules) == compiler_sources(compiler),
{
    compiler.build()
}

/// `yara_x::Scanner::new`. Trusted: the scanner scans with the ruleset it was made for.
#[verifier::external_body]
pub(crate) fn new_scanner<'r>(rules: &'r Rules) -> (scanner: Scanner<'r>)
    ensures
        scanner_sources(scanner) == ruleset_sources(*rules),
{
    Scanner::new(rules)
}

/// `yara_x::Scanner::scan`, then `yara_x::ScanResults::matching_rules`, each rule handed
/// out by its `identifier`, its `namespace` and its `metadata().into_json()`. Trusted:
/// with a ruleset built from no source the scan does not fail and reports no match, and
/// the scanner keeps its ruleset. Nothing else is claimed: which rules match is the
/// engine's business, and their order is arbitrary.
#[verifier::external_body]
pub(crate) fn scan_bytes(scanner: &mut Scanner, data: &[u8]) -> (r: Result<
    Vec<RawMatch>,
    ScanError,
>)
    ensures
        scanner_sources(*final(scanner)) == scanner_sources(*old(scanner)),
        match r {
            Ok(found) => scanner_sources(*old(scanner)).len() == 0 ==> found@.len() == 0,
            Err(_) => scanner_sources(*old(scanner)).len() > 0,
        },
{
    let results = scanner.scan(data)?;
    Ok(
        results.matching_rules().map(
            |rule| RawMatch {
                identifier: rule.identifier().to_string(),
                namespace: rule.namespace().to_string(),
                metadata: rule.metadata().into_json(),
            },
        ).collect(),
    )
}

/// The `Debug` text of a `yara_x::errors::CompileError`. Nothing is claimed of it.
#[verifier::external_body]
pub(crate) fn compile_error_text(error: &CompileError) -> String {
    format!("{:?}", error)
}

/// The `Display` text of a `yara_x::ScanError`. Nothing is claimed of it.
#[verifier::external_body]
pub(crate) fn scan_error_text(error: &ScanError) -> String {
    error.to_string()
}

/// `Arc::clone`. Trusted: the new handle refers to the same ruleset.
#[verifier::external_body]
pub(crate) fn share_rules(rules: &Arc<Rules>) -> (handle: Arc<Rules>)
    ensures
        handle == rules,
{
    Arc::clone(rules)
}

} // verus!
