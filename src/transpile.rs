//! The transpilation pipeline: classify the path, parse, analyze scopes,
//! transform, and print, all within one arena that is reset per call.
use oxc_allocator::Allocator;
use oxc_ast::ast::Program;
use oxc_codegen::Codegen;
use oxc_parser::Parser;
use oxc_semantic::{Scoping, SemanticBuilder};
use oxc_span::SourceType;
use oxc_transformer::{RewriteExtensionsMode, TransformOptions, Transformer, TypeScriptOptions};
use vstd::prelude::*;

verus! {

#[verifier::external_type_specification]
#[verifier::external_body]
pub struct ExAllocator(Allocator);

#[verifier::external_type_specification]
#[verifier::external_body]
pub struct ExSourceType(SourceType);

#[verifier::external_type_specification]
#[verifier::external_body]
pub struct ExScoping(Scoping);

#[verifier::external_type_specification]
#[verifier::external_body]
pub struct ExTransformOptions(TransformOptions);

#[verifier::external_type_specification]
#[verifier::external_body]
pub struct ExProgram<'a>(Program<'a>);

/// Whether the classifier recognizes the file named by `path`: its file name
/// ends in one of the JavaScript or TypeScript extensions.
pub uninterp spec fn has_source_extension(path: Seq<char>) -> bool;

/// The diagnostics, as text, that the parser reports on `text` read from a
/// file at `path` (whose extension fixes the language).
pub uninterp spec fn parse_diagnostics(path: Seq<char>, text: Seq<char>) -> Seq<Seq<char>>;

/// The diagnostics, as text, that semantic analysis reports on the tree
/// parsed from `text` at `path`.
pub uninterp spec fn semantic_diagnostics(path: Seq<char>, text: Seq<char>) -> Seq<Seq<char>>;

/// The diagnostics, as text, that the transforms chosen by `config` report
/// on the tree parsed from `text` at `path`.
pub uninterp spec fn transform_diagnostics(
    path: Seq<char>,
    text: Seq<char>,
    config: TransformConfig,
) -> Seq<Seq<char>>;

/// The text printed from the tree parsed from `text` at `path` once the
/// transforms chosen by `config` have rewritten it.
pub uninterp spec fn transpiled(path: Seq<char>, text: Seq<char>, config: TransformConfig) -> Seq<
    char,
>;

/// The extensions the classifier accepts.
pub open spec fn is_source_extension(e: Seq<char>) -> bool {
    ||| e == seq!['j', 's']
    ||| e == seq!['m', 'j', 's']
    ||| e == seq!['c', 'j', 's']
    ||| e == seq!['j', 's', 'x']
    ||| e == seq!['t', 's']
    ||| e == seq!['m', 't', 's']
    ||| e == seq!['c', 't', 's']
    ||| e == seq!['t', 's', 'x']
}

/// An ASCII letter or digit.
pub open spec fn is_ascii_alphanumeric(c: char) -> bool {
    ('a' <= c && c <= 'z') || ('A' <= c && c <= 'Z') || ('0' <= c && c <= '9')
}

/// A plain file name `stem.ext`: a non-empty stem of ASCII letters, digits,
/// `_` and `-`, a dot, and one of the accepted extensions.
pub open spec fn is_plain_source_name(path: Seq<char>) -> bool {
    exists|k: int|
        #![trigger path[k]]
        0 < k < path.len() && path[k] == '.' && (forall|j: int|
            0 <= j < k ==> is_ascii_alphanumeric(path[j]) || path[j] == '_' || path[j] == '-')
            && is_source_extension(path.subrange(k + 1, path.len() as int))
}

/// A path whose text after its last dot is a non-empty run of ASCII letters
/// and digits that is not an accepted extension.
pub open spec fn has_foreign_extension(path: Seq<char>) -> bool {
    exists|k: int|
        #![trigger path[k]]
        0 <= k < path.len() - 1 && path[k] == '.' && (forall|j: int|
            k < j < path.len() ==> is_ascii_alphanumeric(path[j])) && !is_source_extension(
            path.subrange(k + 1, path.len() as int),
        )
}

/// The diagnostics held in `v`, as text.
pub open spec fn texts(v: Seq<String>) -> Seq<Seq<char>> {
    v.map_values(|s: String| s@)
}

/// A path's source type, with the path it was classified from.
struct Classified {
    source_type: SourceType,
    path: Ghost<Seq<char>>,
}

/// A parsed tree, with the path and text it was parsed from.
struct Parsed<'a> {
    program: Program<'a>,
    path: Ghost<Seq<char>>,
    text: Ghost<Seq<char>>,
}

/// A parsed tree that semantic analysis has walked, held together with the
/// scoping that walk built, so that neither can go to the transforms
/// without the other.
struct Analyzed<'a> {
    program: Program<'a>,
    scoping: Scoping,
    path: Ghost<Seq<char>>,
    text: Ghost<Seq<char>>,
}

/// A tree the transforms have rewritten, with the path and text it was
/// parsed from and the configuration it was transformed with.
struct Transformed<'a> {
    program: Program<'a>,
    path: Ghost<Seq<char>>,
    text: Ghost<Seq<char>>,
    config: Ghost<TransformConfig>,
}

/// Transform options, with the configuration they were built from.
struct Options {
    options: TransformOptions,
    config: Ghost<TransformConfig>,
}

/// Relies on `SourceType::from_path`: it succeeds exactly on paths whose file
/// name has one of the extensions "js", "mjs", "cjs", "jsx", "ts", "mts",
/// "cts", "tsx"; with no `.` there is no extension.
#[verifier::external_body]
fn source_type_of(path: &str) -> (r: core::result::Result<Classified, String>)
    ensures
        r is Ok <==> has_source_extension(path@),
        r matches Ok(c) ==> c.path@ == path@,
        (forall|i: int| 0 <= i < path@.len() ==> path@[i] != '.') ==> r is Err,
        is_plain_source_name(path@) ==> r is Ok,
        has_foreign_extension(path@) ==> r is Err,
{
    match SourceType::from_path(path) {
        Ok(source_type) => Ok(Classified { source_type, path: Ghost(path@) }),
        Err(e) => Err(e.to_string()),
    }
}

/// Classifies `path` by its extension; an unrecognized one is an `Io` error.
pub fn classify(path: &str) -> (r: core::result::Result<(), Error>)
    ensures
        r is Ok <==> has_source_extension(path@),
        r is Err ==> r->Err_0 is Io,
        (forall|i: int| 0 <= i < path@.len() ==> path@[i] != '.') ==> r is Err,
        is_plain_source_name(path@) ==> r is Ok,
        has_foreign_extension(path@) ==> r is Err,
{
    match source_type_of(path) {
        Ok(_) => Ok(()),
        Err(message) => Err(Error::Io(message)),
    }
}

/// Relies on `Allocator::reset`: drops every allocation, keeps the memory.
#[verifier::external_body]
fn reset_arena(alloc: &mut Allocator) {
    alloc.reset()
}

/// Relies on `Parser::parse`: the syntax tree and the syntax errors found,
/// each rendered by `OxcDiagnostic`'s `Debug`; both depend on the text and
/// the source type alone.
#[verifier::external_body]
fn parse_program<'a>(alloc: &'a Allocator, source_text: &'a str, kind: Classified) -> (r: (
    Parsed<'a>,
    Vec<String>,
))
    ensures
        r.0.path@ == kind.path@,
        r.0.text@ == source_text@,
        texts(r.1@) == parse_diagnostics(kind.path@, source_text@),
{
    let ret = Parser::new(alloc, source_text, kind.source_type).parse();
    let errors = ret.errors.iter().map(|d| format!("{d:?}")).collect();
    (Parsed { program: ret.program, path: kind.path, text: Ghost(source_text@) }, errors)
}

/// Relies on `SemanticBuilder::build`: it walks the tree (recording scope
/// ids in it) and gives the scoping and the semantic errors found, each
/// rendered by `OxcDiagnostic`'s `Debug`.
#[verifier::external_body]
fn analyze_program<'a>(parsed: Parsed<'a>) -> (r: (Analyzed<'a>, Vec<String>))
    ensures
        r.0.path@ == parsed.path@,
        r.0.text@ == parsed.text@,
        texts(r.1@) == semantic_diagnostics(parsed.path@, parsed.text@),
{
    let ret = SemanticBuilder::new().build(&parsed.program);
    let errors = ret.errors.iter().map(|d| format!("{d:?}")).collect();
    let scoping = ret.semantic.into_scoping();
    let Parsed { program, path, text } = parsed;
    (Analyzed { program, scoping, path, text }, errors)
}

/// Relies on `Transformer::build_with_scoping`: rewrites the tree in place
/// with the scoping its analysis built, and returns the errors raised by the
/// transforms, each rendered by `OxcDiagnostic`'s `Debug`.
#[verifier::external_body]
fn transform_program<'a>(
    alloc: &'a Allocator,
    path: &str,
    options: &Options,
    analyzed: Analyzed<'a>,
) -> (r: (Transformed<'a>, Vec<String>))
    requires
        analyzed.path@ == path@,
    ensures
        r.0.path@ == analyzed.path@,
        r.0.text@ == analyzed.text@,
        r.0.config@ == options.config@,
        texts(r.1@) == transform_diagnostics(path@, analyzed.text@, options.config@),
{
    let Analyzed { mut program, scoping, path: origin, text } = analyzed;
    let ret = Transformer::new(alloc, std::path::Path::new(path), &options.options)
        .build_with_scoping(scoping, &mut program);
    let errors = ret.errors.iter().map(|d| format!("{d:?}")).collect();
    (Transformed { program, path: origin, text, config: options.config }, errors)
}

/// Relies on `Codegen::build`: the printed source text of the tree.
#[verifier::external_body]
fn print_program<'a>(transformed: &Transformed<'a>) -> (r: String)
    ensures
        r@ == transpiled(transformed.path@, transformed.text@, transformed.config@),
{
    Codegen::new().build(&transformed.program).code
}

/// Relies on `TransformOptions` and `TypeScriptOptions`: their defaults, with
/// the four TypeScript settings taken from `config`.
#[verifier::external_body]
fn transform_options(config: &TransformConfig) -> (r: Options)
    ensures
        r.config@ == *config,
{
    let typescript = TypeScriptOptions {
        only_remove_type_imports: config.only_remove_type_imports,
        allow_namespaces: config.allow_namespaces,
        remove_class_fields_without_initializer: config.remove_class_fields_without_initializer,
        rewrite_import_extensions: config.rewrite_import_extensions.then_some(
            RewriteExtensionsMode::Rewrite,
        ),
        ..Default::default()
    };
    Options { options: TransformOptions { typescript, ..Default::default() }, config: Ghost(*config) }
}

/// Which transforms the pipeline applies.
#[derive(Clone, Copy, Debug, PartialEq, Eq, Structural)]
pub struct TransformConfig {
    /// Remove only the imports marked as type-only.
    pub only_remove_type_imports: bool,
    /// Transform namespace declarations rather than reject them.
    pub allow_namespaces: bool,
    /// Drop class fields that have no initializer.
    pub remove_class_fields_without_initializer: bool,
    /// Rewrite `.ts`-like import specifiers to their `.js` counterparts.
    pub rewrite_import_extensions: bool,
}

/// The configuration every pipeline is built with: all four transforms on.
pub open spec fn pipeline_config() -> TransformConfig {
    TransformConfig {
        only_remove_type_imports: true,
        allow_namespaces: true,
        remove_class_fields_without_initializer: true,
        rewrite_import_extensions: true,
    }
}

impl TransformConfig {
    /// The configuration every pipeline is built with.
    pub fn pipeline() -> (r: TransformConfig)
        ensures
            r == pipeline_config(),
    {
        TransformConfig {
            only_remove_type_imports: true,
            allow_namespaces: true,
            remove_class_fields_without_initializer: true,
            rewrite_import_extensions: true,
        }
    }
}

/// The stages that report diagnostics, in pipeline order.
#[derive(Clone, Copy, Debug, PartialEq, Eq, Structural)]
pub enum Stage {
    Parse,
    Semantic,
    Transform,
}

/// The stage at position `i` of the pipeline.
pub open spec fn stage_at(i: int) -> Stage {
    if i == 0 {
        Stage::Parse
    } else if i == 1 {
        Stage::Semantic
    } else {
        Stage::Transform
    }
}

/// Why a call produced no output.
pub enum Error {
    /// The path's extension is not recognized, or the file cannot be read.
    Io(String),
    /// The parser reported these diagnostics.
    Parse(Vec<String>),
    /// Semantic analysis reported these diagnostics.
    Semantic(Vec<String>),
    /// The transforms reported these diagnostics.
    Transformer(Vec<String>),
}

impl Error {
    /// The stage whose diagnostics this error carries; `None` for `Io`.
    pub open spec fn stage(self) -> Option<Stage> {
        match self {
            Error::Io(_) => None,
            Error::Parse(_) => Some(Stage::Parse),
            Error::Semantic(_) => Some(Stage::Semantic),
            Error::Transformer(_) => Some(Stage::Transform),
        }
    }

    /// What this error reports: its one message, or its diagnostics.
    pub open spec fn messages(self) -> Seq<String> {
        match self {
            Error::Io(m) => seq![m],
            Error::Parse(d) => d@,
            Error::Semantic(d) => d@,
            Error::Transformer(d) => d@,
        }
    }
}

impl Error {
    /// What to report of this error: its diagnostics, or its one message.
    pub fn into_messages(self) -> (r: Vec<String>)
        ensures
            r@ == self.messages(),
    {
        match self {
            Error::Io(message) => vec![message],
            Error::Parse(d) => d,
            Error::Semantic(d) => d,
            Error::Transformer(d) => d,
        }
    }
}

/// The error that ends a call when `stage` reports `diagnostics`.
pub open spec fn stage_failure(stage: Stage, diagnostics: Vec<String>) -> Error {
    match stage {
        Stage::Parse => Error::Parse(diagnostics),
        Stage::Semantic => Error::Semantic(diagnostics),
        Stage::Transform => Error::Transformer(diagnostics),
    }
}

/// The fail-fast rule applied after each stage: any diagnostic at all ends
/// the call with that stage's error.
pub fn check_stage(stage: Stage, diagnostics: Vec<String>) -> (r: core::result::Result<
    (),
    Error,
>)
    ensures
        diagnostics@.len() == 0 ==> r is Ok,
        diagnostics@.len() > 0 ==> r == Err::<(), Error>(stage_failure(stage, diagnostics)),
{
    if diagnostics.len() == 0 {
        Ok(())
    } else {
        match stage {
            Stage::Parse => Err(Error::Parse(diagnostics)),
            Stage::Semantic => Err(Error::Semantic(diagnostics)),
            Stage::Transform => Err(Error::Transformer(diagnostics)),
        }
    }
}

/// The diagnostics of the stage at position `i` on `text` at `path`.
pub open spec fn stage_diagnostics(path: Seq<char>, text: Seq<char>, i: int) -> Seq<Seq<char>> {
    if i == 0 {
        parse_diagnostics(path, text)
    } else if i == 1 {
        semantic_diagnostics(path, text)
    } else {
        transform_diagnostics(path, text, pipeline_config())
    }
}

/// What transpiling `text` from `path` comes to: the printed output, or the
/// stage that ended the call with the diagnostics it reported (no stage for
/// an unrecognized path). The first stage, in pipeline order, with any
/// diagnostics ends the call.
pub open spec fn pipeline_outcome(path: Seq<char>, text: Seq<char>) -> core::result::Result<
    Seq<char>,
    (Option<Stage>, Seq<Seq<char>>),
> {
    if !has_source_extension(path) {
        Err((None, Seq::empty()))
    } else if parse_diagnostics(path, text).len() > 0 {
        Err((Some(Stage::Parse), parse_diagnostics(path, text)))
    } else if semantic_diagnostics(path, text).len() > 0 {
        Err((Some(Stage::Semantic), semantic_diagnostics(path, text)))
    } else if transform_diagnostics(path, text, pipeline_config()).len() > 0 {
        Err((Some(Stage::Transform), transform_diagnostics(path, text, pipeline_config())))
    } else {
        Ok(transpiled(path, text, pipeline_config()))
    }
}

/// A call's result seen as an outcome: the output text, or the failing
/// stage (none for `Io`) with its diagnostics as text.
pub open spec fn outcome_of(r: core::result::Result<String, Error>) -> core::result::Result<
    Seq<char>,
    (Option<Stage>, Seq<Seq<char>>),
> {
    match r {
        Ok(s) => Ok(s@),
        Err(Error::Io(_)) => Err((None, Seq::empty())),
        Err(Error::Parse(d)) => Err((Some(Stage::Parse), texts(d@))),
        Err(Error::Semantic(d)) => Err((Some(Stage::Semantic), texts(d@))),
        Err(Error::Transformer(d)) => Err((Some(Stage::Transform), texts(d@))),
    }
}

/// Two calls on the same path and text, on one pipeline or on two, come to
/// the same outcome: nothing left over from an earlier call has a say.
pub proof fn lemma_outcome_depends_on_input_alone(
    path: Seq<char>,
    text: Seq<char>,
    r1: core::result::Result<String, Error>,
    r2: core::result::Result<String, Error>,
)
    requires
        outcome_of(r1) == pipeline_outcome(path, text),
        outcome_of(r2) == pipeline_outcome(path, text),
    ensures
        outcome_of(r1) == outcome_of(r2),
        r1 is Ok <==> r2 is Ok,
        r1 is Ok ==> r1->Ok_0@ == r2->Ok_0@,
{
}

/// The pipeline: owns the arena that each call's syntax tree lives in.
pub struct Transpiler {
    alloc: Allocator,
}

/// Relies on `Allocator::new`: an empty arena.
#[verifier::external_body]
fn new_arena() -> Allocator {
    Allocator::new()
}

impl Default for Transpiler {
    fn default() -> (r: Transpiler) {
        Transpiler::new()
    }
}

impl Transpiler {
    /// A pipeline with an empty arena.
    pub fn new() -> (r: Transpiler) {
        Transpiler { alloc: new_arena() }
    }

    /// Transpiles `source_text`, the contents of the file at `path`, with the
    /// transforms of `pipeline_config`.
    ///
    /// The arena is reset first. A path with an unrecognized extension fails
    /// with `Io` before any stage runs; otherwise the stages run in order and
    /// the first one with diagnostics ends the call with its error, carrying
    /// exactly those diagnostics. Output comes only when all three are clean.
    pub fn transpile(&mut self, path: &str, source_text: &str) -> (r: core::result::Result<
        String,
        Error,
    >)
        ensures
            outcome_of(r) == pipeline_outcome(path@, source_text@),
            !has_source_extension(path@) <==> (r matches Err(Error::Io(_))),
    {
        reset_arena(&mut self.alloc);
        let kind = match source_type_of(path) {
            Ok(k) => k,
            Err(message) => {
                return Err(Error::Io(message));
            },
        };

        let (parsed, errors) = parse_program(&self.alloc, source_text, kind);
        check_stage(Stage::Parse, errors)?;

        let (analyzed, errors) = analyze_program(parsed);
        check_stage(Stage::Semantic, errors)?;

        let config = TransformConfig::pipeline();
        let options = transform_options(&config);
        let (transformed, errors) = transform_program(&self.alloc, path, &options, analyzed);
        check_stage(Stage::Transform, errors)?;

        Ok(print_program(&transformed))
    }
}

} // verus!
