//! User settings: the ignore patterns and the key-bind style.
//!
//! A `Settings` value holds compiled matchers; `SerializableSettings` is the
//! form in which it is written down, with each pattern as text. Turning the
//! written form into settings compiles every pattern and fails on the first
//! that does not compile.

use crate::error::BookmarkError;
use crate::pattern::{
    compile_pattern, error_text, pattern_compiles, pattern_source, pattern_text, rejection,
};
use regex::Regex;
use vstd::prelude::*;

verus! {

/// The key-bind style of the interactive parts.
#[derive(Debug, Clone, Copy, PartialEq, Eq, Structural)]
pub enum KeyBinds {
    Default,
    Emacs,
    Vim,
}

/// The user's preferences, with every ignore pattern compiled.
#[derive(Debug)]
pub struct Settings {
    pub ignore: Vec<Regex>,
    pub key_binds: KeyBinds,
}

/// The user's preferences as they are written down: patterns as text.
#[derive(Debug, Clone, PartialEq, Eq)]
pub struct SerializableSettings {
    pub ignore: Vec<String>,
    pub key_binds: KeyBinds,
}

/// Whether every text of `texts` compiles as a pattern.
pub open spec fn all_compile(texts: Seq<Seq<char>>) -> bool {
    forall|i: int| 0 <= i < texts.len() ==> pattern_compiles(#[trigger] texts[i])
}

/// Whether `index` is the position of the earliest text that does not compile.
pub open spec fn is_first_invalid(texts: Seq<Seq<char>>, index: int) -> bool {
    &&& 0 <= index < texts.len()
    &&& !pattern_compiles(texts[index])
    &&& forall|j: int| 0 <= j < index ==> pattern_compiles(#[trigger] texts[j])
}

impl SerializableSettings {
    /// The pattern texts, in order.
    pub open spec fn texts(&self) -> Seq<Seq<char>> {
        self.ignore@.map_values(|text: String| text@)
    }

    /// Whether `self` writes down exactly what `settings` holds.
    pub open spec fn records(&self, settings: Settings) -> bool {
        &&& self.texts() == settings.patterns()
        &&& self.key_binds == settings.key_binds
    }

    /// The written form of `value`: each matcher gives back the text it was
    /// compiled from, in the same order, and the key-bind style is kept.
    pub fn from(value: Settings) -> (written: SerializableSettings)
        ensures
            written.records(value),
    {
        let mut ignore: Vec<String> = Vec::new();
        let mut index: usize = 0;
        while index < value.ignore.len()
            invariant
                index <= value.ignore.len(),
                ignore@.len() == index,
                forall|j: int| 0 <= j < index ==> (#[trigger] ignore@[j])@ == pattern_source(
                    value.ignore@[j],
                ),
            decreases value.ignore.len() - index,
        {
            ignore.push(pattern_text(&value.ignore[index]));
            index += 1;
        }
        let written = SerializableSettings { ignore, key_binds: value.key_binds };
        assert(written.texts() =~= value.patterns());
        written
    }
}

impl Settings {
    /// The texts that the matchers were compiled from, in order.
    pub open spec fn patterns(&self) -> Seq<Seq<char>> {
        self.ignore@.map_values(|matcher: Regex| pattern_source(matcher))
    }

    /// Every matcher stems from a text that compiles by itself.
    pub open spec fn wf(&self) -> bool {
        all_compile(self.patterns())
    }

    /// What turning `written` into settings has to give: the settings that
    /// `written` records if all its patterns compile, and otherwise a report
    /// of the earliest pattern that does not, with the compiler's message.
    pub open spec fn reads(outcome: Result<Settings, BookmarkError>, written: SerializableSettings)
        -> bool {
        match outcome {
            Ok(settings) => {
                &&& all_compile(written.texts())
                &&& settings.wf()
                &&& written.records(settings)
            },
            Err(error) => {
                &&& error matches BookmarkError::InvalidPattern(index, message)
                &&& is_first_invalid(written.texts(), index as int)
                &&& rejection(written.texts()[index as int]) == Some(message@)
            },
        }
    }

    /// The settings of a first run: no ignore patterns, default key binds.
    pub fn new() -> (settings: Settings)
        ensures
            settings.patterns() == Seq::<Seq<char>>::empty(),
            settings.key_binds == KeyBinds::Default,
            settings.wf(),
    {
        let settings = Settings { ignore: Vec::new(), key_binds: KeyBinds::Default };
        assert(settings.patterns() =~= Seq::<Seq<char>>::empty());
        settings
    }

    /// Takes the outcome of compiling one more pattern into account: a
    /// matcher joins those compiled so far, and a failure is reported under
    /// the position that the matcher would have taken, with its message.
    pub fn take_in(compiled: Vec<Regex>, outcome: Result<Regex, String>) -> (taken: Result<
        Vec<Regex>,
        BookmarkError,
    >)
        ensures
            match outcome {
                Ok(matcher) => taken matches Ok(longer) && longer@ == compiled@.push(matcher),
                Err(message) => {
                    &&& taken matches Err(BookmarkError::InvalidPattern(index, text))
                    &&& index == compiled@.len()
                    &&& text@ == message@
                },
            },
    {
        match outcome {
            Ok(matcher) => {
                let mut longer = compiled;
                longer.push(matcher);
                Ok(longer)
            },
            Err(message) => Err(BookmarkError::InvalidPattern(compiled.len(), message)),
        }
    }

    /// Compiles every pattern of `item`. Succeeds as a whole or not at all:
    /// the first pattern that does not compile ends the attempt, and its
    /// position is reported together with the compiler's message.
    pub fn try_from(item: SerializableSettings) -> (outcome: Result<Settings, BookmarkError>)
        ensures
            Settings::reads(outcome, item),
            outcome.is_ok() == all_compile(item.texts()),
    {
        let mut ignore: Vec<Regex> = Vec::new();
        let mut index: usize = 0;
        while index < item.ignore.len()
            invariant
                index <= item.ignore.len(),
                ignore@.len() == index,
                forall|j: int| 0 <= j < index ==> pattern_source(#[trigger] ignore@[j]) == item.texts()[j],
                forall|j: int| 0 <= j < index ==> pattern_compiles(#[trigger] item.texts()[j]),
            decreases item.ignore.len() - index,
        {
            let outcome = match compile_pattern(item.ignore[index].as_str()) {
                Ok(matcher) => Ok(matcher),
                Err(error) => Err(error_text(&error)),
            };
            match Settings::take_in(ignore, outcome) {
                Ok(longer) => {
                    ignore = longer;
                },
                Err(error) => {
                    assert(is_first_invalid(item.texts(), index as int));
                    return Err(error);
                },
            }
            index += 1;
        }
        let settings = Settings { ignore, key_binds: item.key_binds };
        assert(settings.patterns() =~= item.texts());
        Ok(settings)
    }
}

/// Writing valid settings down and reading them back succeeds, and gives
/// the same key-bind style and the same pattern texts in the same order.
pub proof fn lemma_settings_round_trip(
    settings: Settings,
    written: SerializableSettings,
    outcome: Result<Settings, BookmarkError>,
)
    requires
        settings.wf(),
        written.records(settings),
        Settings::reads(outcome, written),
    ensures
        outcome matches Ok(read) && read.key_binds == settings.key_binds && read.patterns()
            == settings.patterns(),
{
    if let Err(BookmarkError::InvalidPattern(index, _)) = outcome {
        assert(pattern_compiles(settings.patterns()[index as int]));
    }
}

/// Where exactly one pattern does not compile, reading fails and reports
/// the position of that pattern.
pub proof fn lemma_single_invalid_is_reported(
    written: SerializableSettings,
    outcome: Result<Settings, BookmarkError>,
    culprit: int,
)
    requires
        0 <= culprit < written.texts().len(),
        !pattern_compiles(written.texts()[culprit]),
        forall|j: int|
            0 <= j < written.texts().len() && j != culprit ==> pattern_compiles(
                #[trigger] written.texts()[j],
            ),
        Settings::reads(outcome, written),
    ensures
        outcome matches Err(BookmarkError::InvalidPattern(index, _)) && index == culprit,
{
}

} // verus!
