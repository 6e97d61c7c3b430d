//! The build-time transform of a style declaration: what its argument
//! tokens ask of the style preprocessor, the run of the preprocessor, what
//! its outcome means, and what the declaration is replaced with.
//!
//! The preprocessor is handed in by the caller and not called from here.
//! The functions of this library come back on every input. The preprocessor,
//! `rsass`, does not: it runs an `@while` for as long as its condition
//! holds; it descends once for each nested bracket and each chained
//! operator, and overflows the stack on some dozens of nested calls or some
//! hundreds of chained operators; and it panics when it compares a colour
//! given by hue whose channel is not a number. A precondition that left all
//! of this out would leave few style rules in.

use vstd::prelude::*;
use vstd::string::StringExecFns;

verus! {

/// One token of a declaration's argument list, reduced to what the transform
/// reads of it.
#[derive(Debug, PartialEq, Eq)]
pub enum MacroToken {
    /// A literal, with its text as written in the source.
    Literal(String),
    /// A delimited group, with the tokens inside it.
    Group(Vec<MacroToken>),
    /// An identifier.
    Ident,
    /// A punctuation character.
    Punct,
}

/// Why a declaration's argument list was refused.
#[derive(Debug, Clone, Copy, PartialEq, Eq)]
pub enum CompileMacroError {
    /// The single argument is not a string literal.
    BodyMustBeString,
    /// There is no argument, or more than one.
    ExpectedOneArgument,
}

/// What a declaration is replaced with.
#[derive(Debug, PartialEq, Eq)]
pub enum MacroOutput {
    /// A compile error with the given message: the declaration was misused.
    CompileError { message: String },
    /// The pair of a scoped declaration: its class name and its compiled
    /// fragment, both as string literals.
    ClassAndCss { class: String, css: String },
    /// The compiled fragment of a global declaration, as a string literal.
    Css { css: String },
}

impl CompileMacroError {
    /// The message shown to the author of the declaration.
    pub open spec fn message(self) -> Seq<char> {
        match self {
            CompileMacroError::BodyMustBeString => "Must provide CSS as a string literal"@,
            CompileMacroError::ExpectedOneArgument => "Expected exactly 1 argument"@,
        }
    }

    /// The compile error that reports this misuse.
    pub fn to_compile_error(self) -> (output: MacroOutput)
        ensures
            output matches MacroOutput::CompileError { message } && message@ == self.message(),
    {
        match self {
            CompileMacroError::BodyMustBeString => MacroOutput::CompileError {
                message: "Must provide CSS as a string literal".to_owned(),
            },
            CompileMacroError::ExpectedOneArgument => MacroOutput::CompileError {
                message: "Expected exactly 1 argument".to_owned(),
            },
        }
    }
}

/// The style rule body that a declaration carries.
#[derive(Debug, PartialEq, Eq)]
pub struct CompileMacroInput {
    pub body: String,
}

/// The token that stands for the declaration's one argument: the only token
/// of the list, or, where that token is a group, the only token inside it.
pub open spec fn argument_of(tokens: Seq<MacroToken>) -> Result<MacroToken, CompileMacroError> {
    if tokens.len() != 1 {
        Err(CompileMacroError::ExpectedOneArgument)
    } else {
        match tokens[0] {
            MacroToken::Group(inner) => if inner@.len() != 1 {
                Err(CompileMacroError::ExpectedOneArgument)
            } else {
                Ok(inner@[0])
            },
            other => Ok(other),
        }
    }
}

/// Finds the declaration's one argument among `input`.
///
/// A literal that reaches the transform through another macro arrives
/// wrapped in a group; one such level is looked through.
pub fn argument_token(input: &Vec<MacroToken>) -> (found: Result<&MacroToken, CompileMacroError>)
    ensures
        match found {
            Ok(token) => argument_of(input@) == Ok::<MacroToken, CompileMacroError>(*token),
            Err(error) => argument_of(input@) == Err::<MacroToken, CompileMacroError>(error),
        },
{
    if input.len() != 1 {
        return Err(CompileMacroError::ExpectedOneArgument);
    }
    match &input[0] {
        MacroToken::Group(inner) => {
            if inner.len() != 1 {
                return Err(CompileMacroError::ExpectedOneArgument);
            }
            Ok(&inner[0])
        },
        other => Ok(other),
    }
}

/// The value that `litrs::StringLit::parse` gives the literal text `source`:
/// the text that a string or raw string literal denotes, with its escapes
/// resolved, and `None` where `source` is no string literal.
pub uninterp spec fn string_literal_value(source: Seq<char>) -> Option<Seq<char>>;

/// Reads `source` as a Rust string literal, with `litrs::StringLit::parse`
/// followed by `into_value`.
///
/// Trusted: the result is what the parser makes of the text, and of the text
/// alone.
#[verifier::external_body]
fn parse_string_literal(source: &str) -> (value: Option<String>)
    ensures
        match value {
            Some(text) => string_literal_value(source@) == Some(text@),
            None => string_literal_value(source@) is None,
        },
{
    match litrs::StringLit::parse(source) {
        Ok(literal) => Some(literal.into_value().into_owned()),
        Err(_) => None,
    }
}

/// The text that `token` denotes as a string literal, if it is one.
pub open spec fn literal_value(token: MacroToken) -> Option<Seq<char>> {
    match token {
        MacroToken::Literal(source) => string_literal_value(source@),
        _ => None,
    }
}

/// Reads `token` as a string literal. Only a literal token can be one.
pub fn string_literal(token: &MacroToken) -> (value: Option<String>)
    ensures
        match value {
            Some(text) => literal_value(*token) == Some(text@),
            None => literal_value(*token) is None,
        },
{
    match token {
        MacroToken::Literal(source) => parse_string_literal(source.as_str()),
        _ => None,
    }
}

/// The declaration's input, given what its argument denotes as a string
/// literal: the body, or the refusal of an argument that is no string.
pub fn input_from_literal(value: Option<String>) -> (input: Result<
    CompileMacroInput,
    CompileMacroError,
>)
    ensures
        match value {
            Some(body) => input matches Ok(found) && found.body == body,
            None => input == Err::<CompileMacroInput, CompileMacroError>(
                CompileMacroError::BodyMustBeString,
            ),
        },
{
    match value {
        Some(body) => Ok(CompileMacroInput { body }),
        None => Err(CompileMacroError::BodyMustBeString),
    }
}

/// The style rule body that the token list `tokens` declares.
pub open spec fn body_of(tokens: Seq<MacroToken>) -> Result<Seq<char>, CompileMacroError> {
    match argument_of(tokens) {
        Err(error) => Err(error),
        Ok(token) => match literal_value(token) {
            Some(body) => Ok(body),
            None => Err(CompileMacroError::BodyMustBeString),
        },
    }
}

/// Reads a declaration's argument list: exactly one string literal.
///
/// Fails with `ExpectedOneArgument` when the list, or the group that wraps
/// it, does not hold exactly one token, and with `BodyMustBeString` when
/// that token is not a string literal.
pub fn parse_input(input: Vec<MacroToken>) -> (parsed: Result<
    CompileMacroInput,
    CompileMacroError,
>)
    ensures
        match parsed {
            Ok(found) => body_of(input@) == Ok::<Seq<char>, CompileMacroError>(found.body@),
            Err(error) => body_of(input@) == Err::<Seq<char>, CompileMacroError>(error),
        },
{
    match argument_token(&input) {
        Err(error) => Err(error),
        Ok(token) => input_from_literal(string_literal(token)),
    }
}

/// Why a style rule could not be compiled.
#[derive(Debug, PartialEq, Eq)]
pub enum StylePreprocessError {
    /// The preprocessor refused the rule, with its diagnostic.
    Rejected { message: String },
    /// The preprocessor's output is not UTF-8 text.
    OutputNotUtf8,
}

/// The source text that scopes `body` to the class `class`: the body as the
/// one block of the rule `.class`, so that the preprocessor resolves the
/// body's nested rules and parent references against that class.
pub open spec fn scoped_source(class: Seq<char>, body: Seq<char>) -> Seq<char> {
    seq!['.'] + class + seq![' ', '{', ' ', '\n', ' '] + body + seq![' ', '\n', ' ', '}']
}

/// Wraps `body` in a rule block headed by the class selector `.class`.
pub fn scoped_scss(class: &str, body: &str) -> (scss: String)
    ensures
        scss@ == scoped_source(class@, body@),
{
    proof {
        reveal_strlit(".");
        reveal_strlit(" { \n ");
        reveal_strlit(" \n }");
        assert("."@ =~= seq!['.']);
        assert(" { \n "@ =~= seq![' ', '{', ' ', '\n', ' ']);
        assert(" \n }"@ =~= seq![' ', '\n', ' ', '}']);
    }
    let mut scss = ".".to_owned();
    scss.append(class);
    scss.append(" { \n ");
    scss.append(body);
    scss.append(" \n }");
    scss
}

/// What a scoped declaration with the argument tokens `item` asks of the
/// preprocessor: the declared body, wrapped in the block of `.class`.
///
/// A misused declaration asks nothing of it, and is refused here.
pub fn scoped_request(class: &str, item: Vec<MacroToken>) -> (request: Result<
    String,
    CompileMacroError,
>)
    ensures
        match body_of(item@) {
            Ok(body) => request matches Ok(scss) && scss@ == scoped_source(class@, body),
            Err(misuse) => request == Err::<String, CompileMacroError>(misuse),
        },
{
    match parse_input(item) {
        Ok(input) => Ok(scoped_scss(class, input.body.as_str())),
        Err(misuse) => Err(misuse),
    }
}

/// What a global declaration with the argument tokens `item` asks of the
/// preprocessor: the declared body as it stands.
///
/// A misused declaration asks nothing of it, and is refused here.
pub fn global_request(item: Vec<MacroToken>) -> (request: Result<String, CompileMacroError>)
    ensures
        match body_of(item@) {
            Ok(body) => request matches Ok(scss) && scss@ == body,
            Err(misuse) => request == Err::<String, CompileMacroError>(misuse),
        },
{
    match parse_input(item) {
        Ok(input) => Ok(input.body),
        Err(misuse) => Err(misuse),
    }
}

/// `String::from_utf8`: the text that `bytes` encode, if they are UTF-8.
///
/// Trusted: succeeds exactly on valid UTF-8, with the decoded text.
#[verifier::external_body]
fn string_from_utf8(bytes: Vec<u8>) -> (text: Option<String>)
    ensures
        text is Some <==> vstd::utf8::valid_utf8(bytes@),
        text matches Some(decoded) ==> decoded@ == vstd::utf8::decode_utf8(bytes@),
{
    match String::from_utf8(bytes) {
        Ok(text) => Some(text),
        Err(_) => None,
    }
}

/// The text that the output bytes `output` encode, where they are UTF-8.
pub open spec fn output_text(output: Seq<u8>) -> Option<Seq<char>> {
    if vstd::utf8::valid_utf8(output) {
        Some(vstd::utf8::decode_utf8(output))
    } else {
        None
    }
}

/// Whether `fragment` is the compiled fragment for the preprocessor's
/// outcome `outcome`, which is its output bytes or the diagnostic with which
/// it refused the source.
///
/// The fragment is the text of the output bytes. Output that is not UTF-8
/// fails with `OutputNotUtf8`, and a refusal with `Rejected`, which carries
/// the diagnostic unchanged.
pub open spec fn is_fragment_of(
    fragment: Result<String, StylePreprocessError>,
    outcome: Result<Vec<u8>, String>,
) -> bool {
    match outcome {
        Ok(output) => match output_text(output@) {
            Some(text) => fragment matches Ok(css) && css@ == text,
            None => fragment == Err::<String, StylePreprocessError>(
                StylePreprocessError::OutputNotUtf8,
            ),
        },
        Err(message) => fragment matches Err(StylePreprocessError::Rejected { message: kept })
            && kept@ == message@,
    }
}

/// The compiled fragment, given the preprocessor's outcome.
pub fn fragment_from_outcome(outcome: Result<Vec<u8>, String>) -> (fragment: Result<
    String,
    StylePreprocessError,
>)
    ensures
        is_fragment_of(fragment, outcome),
{
    match outcome {
        Ok(output) => match string_from_utf8(output) {
            Some(css) => Ok(css),
            None => Err(StylePreprocessError::OutputNotUtf8),
        },
        Err(message) => Err(StylePreprocessError::Rejected { message }),
    }
}

/// A fragment is the preprocessor's output, byte for byte: where the output
/// is text, the bytes of that text are the output, with nothing added,
/// removed or reordered; and whatever text the preprocessor writes out is
/// the text of its bytes.
pub proof fn lemma_fragment_is_the_output(output: Seq<u8>, written: Seq<char>)
    ensures
        output_text(output) matches Some(text) ==> vstd::utf8::encode_utf8(text) == output,
        output_text(vstd::utf8::encode_utf8(written)) == Some(written),
{
    if vstd::utf8::valid_utf8(output) {
        vstd::utf8::decode_utf8_encode_utf8(output);
    }
    vstd::utf8::encode_utf8_valid_utf8(written);
    vstd::utf8::encode_utf8_decode_utf8(written);
}

/// The replacement of a scoped declaration: class name and fragment.
pub fn quote_output_tuple(class: &str, css: &str) -> (output: MacroOutput)
    ensures
        output matches MacroOutput::ClassAndCss { class: quoted_class, css: quoted_css }
            && quoted_class@ == class@ && quoted_css@ == css@,
{
    MacroOutput::ClassAndCss { class: class.to_owned(), css: css.to_owned() }
}

/// The replacement of a global declaration: the fragment alone.
pub fn quote_string_literal(css: &str) -> (output: MacroOutput)
    ensures
        output matches MacroOutput::Css { css: quoted_css } && quoted_css@ == css@,
{
    MacroOutput::Css { css: css.to_owned() }
}

/// Whether `expansion` is what a scoped declaration for the class `class`
/// expands to, given how the compilation of its body ended: the pair of
/// `class` and the fragment, or the failure of the compilation, which is
/// the failure of the expansion.
pub open spec fn is_scoped_expansion_of(
    expansion: Result<MacroOutput, StylePreprocessError>,
    class: Seq<char>,
    fragment: Result<String, StylePreprocessError>,
) -> bool {
    match fragment {
        Ok(css) => expansion matches Ok(
            MacroOutput::ClassAndCss { class: quoted_class, css: quoted_css },
        ) && quoted_class@ == class && quoted_css@ == css@,
        Err(error) => expansion == Err::<MacroOutput, StylePreprocessError>(error),
    }
}

/// What a scoped declaration for the class `class` expands to, given how
/// the compilation of its body ended.
pub fn scoped_expansion(class: &str, fragment: Result<String, StylePreprocessError>) -> (expansion:
    Result<MacroOutput, StylePreprocessError>)
    ensures
        is_scoped_expansion_of(expansion, class@, fragment),
{
    match fragment {
        Ok(css) => Ok(quote_output_tuple(class, css.as_str())),
        Err(error) => Err(error),
    }
}

/// Whether `expansion` is what a global declaration expands to, given how
/// the compilation of its body ended: the fragment, or the failure of the
/// compilation, which is the failure of the expansion.
pub open spec fn is_global_expansion_of(
    expansion: Result<MacroOutput, StylePreprocessError>,
    fragment: Result<String, StylePreprocessError>,
) -> bool {
    match fragment {
        Ok(css) => expansion matches Ok(MacroOutput::Css { css: quoted_css }) && quoted_css@
            == css@,
        Err(error) => expansion == Err::<MacroOutput, StylePreprocessError>(error),
    }
}

/// What a global declaration expands to, given how the compilation of its
/// body ended.
pub fn global_expansion(fragment: Result<String, StylePreprocessError>) -> (expansion: Result<
    MacroOutput,
    StylePreprocessError,
>)
    ensures
        is_global_expansion_of(expansion, fragment),
{
    match fragment {
        Ok(css) => Ok(quote_string_literal(css.as_str())),
        Err(error) => Err(error),
    }
}

/// Compiles nested-rule source text into flat stylesheet text: runs
/// `preprocess` on `scss`, once, and gives the fragment for its outcome.
pub fn compile_scss<F: FnOnce(&str) -> Result<Vec<u8>, String>>(scss: &str, preprocess: F) -> (fragment:
    Result<String, StylePreprocessError>)
    requires
        call_requires(preprocess, (scss,)),
    ensures
        exists|outcome: Result<Vec<u8>, String>|
            call_ensures(preprocess, (scss,), outcome) && is_fragment_of(fragment, outcome),
{
    let outcome = preprocess(scss);
    let fragment = fragment_from_outcome(outcome);
    assert(call_ensures(preprocess, (scss,), outcome) && is_fragment_of(fragment, outcome));
    fragment
}

/// Compiles the rule body `body`, scoped to the class `class`, into flat
/// stylesheet text: runs `preprocess` on the body wrapped in the block of
/// `.class`, once, and gives the fragment for its outcome.
pub fn compile_item<F: FnOnce(&str) -> Result<Vec<u8>, String>>(
    class: &str,
    body: &str,
    preprocess: F,
) -> (fragment: Result<String, StylePreprocessError>)
    requires
        forall|scss: &str|
            scss@ == scoped_source(class@, body@) ==> call_requires(preprocess, (scss,)),
    ensures
        exists|scss: &str, outcome: Result<Vec<u8>, String>|
            scss@ == scoped_source(class@, body@) && call_ensures(preprocess, (scss,), outcome)
                && is_fragment_of(fragment, outcome),
{
    let wrapped = scoped_scss(class, body);
    let scss = wrapped.as_str();
    let outcome = preprocess(scss);
    let fragment = fragment_from_outcome(outcome);
    assert(scss@ == scoped_source(class@, body@) && call_ensures(preprocess, (scss,), outcome)
        && is_fragment_of(fragment, outcome));
    fragment
}

/// Expands a scoped style declaration with the argument tokens `item`, for
/// the class name `class`.
///
/// A misused declaration expands to the compile error that says so, and the
/// preprocessor is not run. Otherwise `preprocess` is run, once, on the
/// declared body wrapped in the block of `.class`: the expansion pairs
/// `class` with the fragment for its outcome, and a failure of the
/// compilation is the failure of the expansion.
pub fn inner_compile_style_item<F: FnOnce(&str) -> Result<Vec<u8>, String>>(
    class: String,
    item: Vec<MacroToken>,
    preprocess: F,
) -> (output: Result<MacroOutput, StylePreprocessError>)
    requires
        forall|scss: &str|
            body_of(item@) matches Ok(body) && scss@ == scoped_source(class@, body)
                ==> call_requires(preprocess, (scss,)),
    ensures
        match body_of(item@) {
            Err(misuse) => output matches Ok(MacroOutput::CompileError { message }) && message@
                == misuse.message(),
            Ok(body) => exists|
                scss: &str,
                outcome: Result<Vec<u8>, String>,
                fragment: Result<String, StylePreprocessError>,
            |
                scss@ == scoped_source(class@, body) && call_ensures(preprocess, (scss,), outcome)
                    && is_fragment_of(fragment, outcome) && is_scoped_expansion_of(
                    output,
                    class@,
                    fragment,
                ),
        },
{
    match scoped_request(class.as_str(), item) {
        Ok(request) => {
            let scss = request.as_str();
            let outcome = preprocess(scss);
            let fragment = fragment_from_outcome(outcome);
            let output = scoped_expansion(class.as_str(), fragment);
            assert(scss@ == scoped_source(class@, body_of(item@)->Ok_0) && call_ensures(
                preprocess,
                (scss,),
                outcome,
            ) && is_fragment_of(fragment, outcome) && is_scoped_expansion_of(
                output,
                class@,
                fragment,
            ));
            output
        },
        Err(misuse) => Ok(misuse.to_compile_error()),
    }
}

/// Expands a global style declaration with the argument tokens `item`.
///
/// A misused declaration expands to the compile error that says so, and the
/// preprocessor is not run. Otherwise `preprocess` is run, once, on the
/// declared body as it stands: the expansion is the fragment for its
/// outcome, and a failure of the compilation is the failure of the
/// expansion.
pub fn inner_compile_global_style<F: FnOnce(&str) -> Result<Vec<u8>, String>>(
    item: Vec<MacroToken>,
    preprocess: F,
) -> (output: Result<MacroOutput, StylePreprocessError>)
    requires
        forall|scss: &str|
            body_of(item@) matches Ok(body) && scss@ == body ==> call_requires(
                preprocess,
                (scss,),
            ),
    ensures
        match body_of(item@) {
            Err(misuse) => output matches Ok(MacroOutput::CompileError { message }) && message@
                == misuse.message(),
            Ok(body) => exists|
                scss: &str,
                outcome: Result<Vec<u8>, String>,
                fragment: Result<String, StylePreprocessError>,
            |
                scss@ == body && call_ensures(preprocess, (scss,), outcome) && is_fragment_of(
                    fragment,
                    outcome,
                ) && is_global_expansion_of(output, fragment),
        },
{
    match global_request(item) {
        Ok(request) => {
            let scss = request.as_str();
            let outcome = preprocess(scss);
            let fragment = fragment_from_outcome(outcome);
            let output = global_expansion(fragment);
            assert(scss@ == body_of(item@)->Ok_0 && call_ensures(preprocess, (scss,), outcome)
                && is_fragment_of(fragment, outcome) && is_global_expansion_of(output, fragment));
            output
        },
        Err(misuse) => Ok(misuse.to_compile_error()),
    }
}

} // verus!
