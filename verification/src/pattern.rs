//! Compiled text patterns and the option bits they are built with.

use regex::RegexBuilder;
use vstd::prelude::*;

verus! {

/// The options a host can switch on when it compiles a pattern. Each one
/// occupies one bit of the mask handed to the pattern constructor.
#[derive(Clone, Copy, Debug, PartialEq, Eq)]
pub enum RegexFlags {
    CaseInsensitive,
    MultiLine,
    DotMatchesNewLine,
    IgnoreWhitespace,
    Unicode,
    Octal,
}

impl RegexFlags {
    /// The bit of the option mask that stands for this option.
    pub open spec fn spec_bit(self) -> u64 {
        match self {
            RegexFlags::CaseInsensitive => 1,
            RegexFlags::MultiLine => 2,
            RegexFlags::DotMatchesNewLine => 4,
            RegexFlags::IgnoreWhitespace => 8,
            RegexFlags::Unicode => 16,
            RegexFlags::Octal => 32,
        }
    }

    /// The bit of the option mask that stands for this option.
    #[verifier::when_used_as_spec(spec_bit)]
    pub fn bit(self) -> (mask: u64)
        ensures
            mask == self.spec_bit(),
    {
        match self {
            RegexFlags::CaseInsensitive => 1,
            RegexFlags::MultiLine => 2,
            RegexFlags::DotMatchesNewLine => 4,
            RegexFlags::IgnoreWhitespace => 8,
            RegexFlags::Unicode => 16,
            RegexFlags::Octal => 32,
        }
    }

    /// Whether the option is switched on in `mask`.
    pub open spec fn spec_is_set(self, mask: u64) -> bool {
        mask & self.spec_bit() == self.spec_bit()
    }

    /// Whether the option is switched on in `mask`.
    #[verifier::when_used_as_spec(spec_is_set)]
    pub fn is_set(self, mask: u64) -> (on: bool)
        ensures
            on == self.spec_is_set(mask),
    {
        let bit: u64 = self.bit();
        mask & bit == bit
    }
}

/// The six options of a pattern, decoded from an option mask.
#[derive(Clone, Copy, Debug, PartialEq, Eq, Structural)]
pub struct PatternOptions {
    pub case_insensitive: bool,
    pub multi_line: bool,
    pub dot_matches_new_line: bool,
    pub ignore_whitespace: bool,
    pub unicode: bool,
    pub octal: bool,
}

impl PatternOptions {
    /// The options that `mask` switches on. Bits that stand for no option
    /// are ignored.
    pub open spec fn spec_from_mask(mask: u64) -> PatternOptions {
        PatternOptions {
            case_insensitive: RegexFlags::CaseInsensitive.spec_is_set(mask),
            multi_line: RegexFlags::MultiLine.spec_is_set(mask),
            dot_matches_new_line: RegexFlags::DotMatchesNewLine.spec_is_set(mask),
            ignore_whitespace: RegexFlags::IgnoreWhitespace.spec_is_set(mask),
            unicode: RegexFlags::Unicode.spec_is_set(mask),
            octal: RegexFlags::Octal.spec_is_set(mask),
        }
    }

    /// Decodes an option mask.
    #[verifier::when_used_as_spec(spec_from_mask)]
    pub fn from_mask(mask: u64) -> (options: PatternOptions)
        ensures
            options == PatternOptions::spec_from_mask(mask),
    {
        PatternOptions {
            case_insensitive: RegexFlags::CaseInsensitive.is_set(mask),
            multi_line: RegexFlags::MultiLine.is_set(mask),
            dot_matches_new_line: RegexFlags::DotMatchesNewLine.is_set(mask),
            ignore_whitespace: RegexFlags::IgnoreWhitespace.is_set(mask),
            unicode: RegexFlags::Unicode.is_set(mask),
            octal: RegexFlags::Octal.is_set(mask),
        }
    }
}

/// `regex::Regex`, a compiled matcher. Nothing of its inside is visible to
/// proofs; it is only carried from where it is built to where it is asked.
#[verifier::external_type_specification]
#[verifier::external_body]
pub struct ExRegex(regex::Regex);

/// Whether `regex::RegexBuilder::build` accepts `source` under `options`,
/// every other setting of the builder left at its default.
pub uninterp spec fn pattern_accepted(source: Seq<char>, options: PatternOptions) -> bool;

/// What `regex::Regex::is_match` answers for `text` when asked of the
/// matcher built from `source` under `options`: whether the pattern matches
/// somewhere in the text.
pub uninterp spec fn pattern_matches(
    source: Seq<char>,
    options: PatternOptions,
    text: Seq<char>,
) -> bool;

/// A compiled pattern together with the text and options it was compiled
/// from. Immutable once built. Only `build_pattern` makes one, so the
/// matcher is always the one built from `source` under `options`.
pub struct Pattern {
    source: String,
    options: PatternOptions,
    matcher: regex::Regex,
}

/// What a pattern is, as far as contracts are concerned: its source text and
/// its options.
pub struct PatternModel {
    pub source: Seq<char>,
    pub options: PatternOptions,
}

impl View for Pattern {
    type V = PatternModel;

    closed spec fn view(&self) -> PatternModel {
        PatternModel { source: self.source@, options: self.options }
    }
}

/// Calls `regex::RegexBuilder::new`, its six option setters and `build`.
///
/// Trusted, not proved: the build succeeds exactly when `pattern_accepted`
/// says so, and the pattern returned holds the source and the options that
/// its matcher was built from.
#[verifier::external_body]
fn build_pattern(source: &str, options: PatternOptions) -> (built: Option<Pattern>)
    ensures
        built is Some <==> pattern_accepted(source@, options),
        built matches Some(p) ==> p@ == (PatternModel { source: source@, options }),
{
    match RegexBuilder::new(source)
        .case_insensitive(options.case_insensitive)
        .multi_line(options.multi_line)
        .dot_matches_new_line(options.dot_matches_new_line)
        .ignore_whitespace(options.ignore_whitespace)
        .unicode(options.unicode)
        .octal(options.octal)
        .build() {
        Ok(matcher) => Some(Pattern { source: source.to_string(), options, matcher }),
        Err(_) => None,
    }
}

/// Calls `regex::Regex::is_match` on the compiled matcher.
///
/// Trusted, not proved: the answer is the one that `pattern_matches` names
/// for the source and options the pattern was built from.
#[verifier::external_body]
pub(crate) fn pattern_is_match(pattern: &Pattern, text: &str) -> (found: bool)
    ensures
        found == pattern_matches(pattern@.source, pattern@.options, text@),
{
    pattern.matcher.is_match(text)
}

/// What compiling `source` under the options of `mask` yields: the model of
/// the pattern, or nothing where the text is not accepted.
pub open spec fn compile_outcome(source: Seq<char>, mask: u64) -> Option<PatternModel> {
    let options = PatternOptions::spec_from_mask(mask);
    if pattern_accepted(source, options) {
        Some(PatternModel { source, options })
    } else {
        None
    }
}

/// The model of what a compilation returned.
pub open spec fn model_of(compiled: Option<Pattern>) -> Option<PatternModel> {
    match compiled {
        Some(pattern) => Some(pattern@),
        None => None,
    }
}

impl Pattern {
    /// Compiles `source` under the options that `mask` switches on.
    pub fn compile(source: &str, mask: u64) -> (compiled: Option<Pattern>)
        ensures
            model_of(compiled) == compile_outcome(source@, mask),
    {
        build_pattern(source, PatternOptions::from_mask(mask))
    }

    /// The text the pattern was compiled from.
    pub fn source(&self) -> (source: &str)
        ensures
            source@ == self@.source,
    {
        self.source.as_str()
    }

    /// The options the pattern was compiled under.
    pub fn options(&self) -> (options: PatternOptions)
        ensures
            options == self@.options,
    {
        self.options
    }
}

} // verus!
