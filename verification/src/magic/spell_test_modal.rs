//! The spell testing modal: type words, test the spell they make, inscribe
//! it on a page of the tome, or make a page the active one.
use vstd::prelude::*;

use crate::command::KeyInput;
use crate::text::byte_len;
use crate::text::char_is_alphanumeric;
use crate::text::decimal;
use crate::text::is_alphanumeric;
use crate::text::pop_char;
use crate::text::push_char;
use crate::text::push_decimal;
use crate::text::push_str;
use crate::text::split_words;
use crate::text::string_views;
use crate::text::words_of;

verus! {

/// Most bytes of typed input.
pub const MAX_INPUT_LEN: usize = 50;
/// Pages of the tome (numbered 0 to 2 here, shown as 1 to 3).
pub const PAGE_COUNT: usize = 3;

/// The outcome of a spell test.
#[derive(Clone)]
pub enum SpellTestResult {
    Success { spell_name: String, description: String, is_backfire: bool },
    Fizzle { reason: String },
    ParseError { unknown: Vec<String> },
}

/// What the modal asks the game to do after a key.
#[derive(Debug, Clone, Copy, PartialEq, Eq, Structural)]
pub enum ModalAction {
    /// Make the highlighted page the active one.
    ActivatePage,
    /// Test the typed words as a spell.
    TestSpell,
    /// Inscribe the tested spell on the highlighted page.
    InscribeSpell,
}

/// The modal's state; `W` is the type of a known word.
pub struct SpellTestModal<W> {
    /// The typed text.
    pub input: String,
    /// The words of the last successful parse.
    pub parsed_words: Vec<W>,
    /// The words not understood in the last parse.
    pub unknown_words: Vec<String>,
    /// The last test's outcome.
    pub result: Option<SpellTestResult>,
    /// The highlighted page (0, 1 or 2).
    pub selected_page: usize,
    /// The message after an inscription or activation, and whether it
    /// reports a success.
    pub inscribe_message: Option<(String, bool)>,
}

/// All fields back to their empty values.
pub open spec fn is_reset<W>(m: &SpellTestModal<W>) -> bool {
    &&& m.input@ == Seq::<char>::empty()
    &&& m.parsed_words@ == Seq::<W>::empty()
    &&& m.unknown_words@ == Seq::<String>::empty()
    &&& m.result is None
    &&& m.selected_page == 0
    &&& m.inscribe_message is None
}

/// "Page N is now active!"
pub open spec fn page_active_text(page: nat) -> Seq<char> {
    seq!['P', 'a', 'g', 'e', ' '] + decimal(page + 1) + seq![
        ' ',
        'i',
        's',
        ' ',
        'n',
        'o',
        'w',
        ' ',
        'a',
        'c',
        't',
        'i',
        'v',
        'e',
        '!',
    ]
}

impl<W> SpellTestModal<W> {
    /// A closed modal with nothing typed.
    pub fn new() -> (m: Self)
        ensures
            is_reset(&m),
    {
        SpellTestModal {
            input: String::new(),
            parsed_words: Vec::new(),
            unknown_words: Vec::new(),
            result: None,
            selected_page: 0,
            inscribe_message: None,
        }
    }

    /// Clears everything when the modal opens.
    pub fn reset(&mut self)
        ensures
            is_reset(&*final(self)),
    {
        self.input = String::new();
        self.parsed_words.clear();
        self.unknown_words.clear();
        self.result = None;
        self.selected_page = 0;
        self.inscribe_message = None;
    }

    /// Handles a key; returns whether the modal closes, and an action for
    /// the game.  Esc closes; `A` asks to activate the page; letters, digits
    /// and spaces are typed while the input is under 50 bytes; Backspace
    /// deletes the last character and clears the result; Enter asks for a
    /// test; Tab asks for an inscription; Left and Right move between the
    /// three pages.
    pub fn handle_input(&mut self, key: KeyInput) -> (r: (bool, Option<ModalAction>))
        requires
            byte_len(old(self).input@) <= usize::MAX,
        ensures
            r.0 == (key == KeyInput::Esc),
            r.1 == (match key {
                KeyInput::Char(c) => if c == 'A' {
                    Some(ModalAction::ActivatePage)
                } else {
                    None
                },
                KeyInput::Enter => Some(ModalAction::TestSpell),
                KeyInput::Tab => Some(ModalAction::InscribeSpell),
                _ => None::<ModalAction>,
            }),
            final(self).input@ == (match key {
                KeyInput::Char(c) => if c != 'A' && (is_alphanumeric(c) || c == ' ')
                    && byte_len(old(self).input@) < MAX_INPUT_LEN {
                    old(self).input@.push(c)
                } else {
                    old(self).input@
                },
                KeyInput::Backspace => if old(self).input@.len() > 0 {
                    old(self).input@.drop_last()
                } else {
                    old(self).input@
                },
                _ => old(self).input@,
            }),
            final(self).selected_page == (match key {
                KeyInput::Left => if old(self).selected_page > 0 {
                    (old(self).selected_page - 1) as usize
                } else {
                    old(self).selected_page
                },
                KeyInput::Right => if old(self).selected_page < 2 {
                    (old(self).selected_page + 1) as usize
                } else {
                    old(self).selected_page
                },
                _ => old(self).selected_page,
            }),
            (key == KeyInput::Backspace) ==> final(self).result is None,
            (key != KeyInput::Backspace) ==> final(self).result == old(self).result,
            final(self).inscribe_message == (match key {
                KeyInput::Char(c) => if c != 'A' && (is_alphanumeric(c) || c == ' ')
                    && byte_len(old(self).input@) < MAX_INPUT_LEN {
                    None
                } else {
                    old(self).inscribe_message
                },
                KeyInput::Backspace | KeyInput::Enter => None,
                _ => old(self).inscribe_message,
            }),
            final(self).parsed_words == old(self).parsed_words,
            final(self).unknown_words == old(self).unknown_words,
    {
        match key {
            KeyInput::Esc => (true, None),
            KeyInput::Char(c) => {
                if c == 'A' {
                    (false, Some(ModalAction::ActivatePage))
                } else {
                    if char_is_alphanumeric(c) || c == ' ' {
                        if self.input.as_str().len() < MAX_INPUT_LEN {
                            push_char(&mut self.input, c);
                            self.inscribe_message = None;
                        }
                    }
                    (false, None)
                }
            },
            KeyInput::Backspace => {
                let _ = pop_char(&mut self.input);
                self.result = None;
                self.inscribe_message = None;
                (false, None)
            },
            KeyInput::Enter => {
                self.inscribe_message = None;
                (false, Some(ModalAction::TestSpell))
            },
            KeyInput::Tab => (false, Some(ModalAction::InscribeSpell)),
            KeyInput::Left => {
                if self.selected_page > 0 {
                    self.selected_page = self.selected_page - 1;
                }
                (false, None)
            },
            KeyInput::Right => {
                if self.selected_page < 2 {
                    self.selected_page = self.selected_page + 1;
                }
                (false, None)
            },
            _ => (false, None),
        }
    }

    /// Records the outcome of activating the highlighted page: `tome` is
    /// `None` without an equipped tome, else whether the tome accepted the
    /// page.
    pub fn activate_page(&mut self, tome: Option<bool>)
        requires
            old(self).selected_page < usize::MAX,
        ensures
            final(self).inscribe_message matches Some((m, ok)) && (match tome {
                None => m@ == seq![
                    'N',
                    'o',
                    ' ',
                    't',
                    'o',
                    'm',
                    'e',
                    ' ',
                    'e',
                    'q',
                    'u',
                    'i',
                    'p',
                    'p',
                    'e',
                    'd',
                    '!',
                ] && !ok,
                Some(false) => m@ == seq![
                    'I',
                    'n',
                    'v',
                    'a',
                    'l',
                    'i',
                    'd',
                    ' ',
                    'p',
                    'a',
                    'g',
                    'e',
                    '!',
                ] && !ok,
                Some(true) => m@ == page_active_text(old(self).selected_page as nat) && ok,
            }),
            final(self).selected_page == old(self).selected_page,
            final(self).input == old(self).input,
            final(self).parsed_words == old(self).parsed_words,
            final(self).unknown_words == old(self).unknown_words,
            final(self).result == old(self).result,
    {
        match tome {
            None => {
                let mut m = String::new();
                proof {
                    reveal_strlit("No tome equipped!");
                }
                push_str(&mut m, "No tome equipped!");
                self.inscribe_message = Some((m, false));
            },
            Some(false) => {
                let mut m = String::new();
                proof {
                    reveal_strlit("Invalid page!");
                }
                push_str(&mut m, "Invalid page!");
                self.inscribe_message = Some((m, false));
            },
            Some(true) => {
                let mut m = String::new();
                proof {
                    reveal_strlit("Page ");
                    reveal_strlit(" is now active!");
                }
                push_str(&mut m, "Page ");
                push_decimal(&mut m, (self.selected_page + 1) as u64);
                push_str(&mut m, " is now active!");
                assert(m@ =~= page_active_text(self.selected_page as nat));
                self.inscribe_message = Some((m, true));
            },
        }
    }

    /// The words of the typed text, to be looked up before a test.
    pub fn input_words(&self) -> (words: Vec<String>)
        ensures
            string_views(words@) == words_of(self.input@),
    {
        split_words(self.input.as_str())
    }

    /// Records the lookup of the typed words for a test: `parsed` are the
    /// known words, `unknown` the others.  Unknown words make the test a
    /// parse error; otherwise the known words are kept.  Returns whether the
    /// spell is to be computed (some words, all known).
    pub fn record_parse(&mut self, parsed: Vec<W>, unknown: Vec<String>) -> (compute: bool)
        ensures
            compute == (unknown@.len() == 0 && parsed@.len() > 0),
            unknown@.len() > 0 ==> final(self).parsed_words@ == Seq::<W>::empty(),
            unknown@.len() > 0 ==> (final(self).result matches Some(
                SpellTestResult::ParseError { unknown: u },
            ) && u == unknown),
            unknown@.len() == 0 && parsed@.len() > 0 ==> final(self).parsed_words == parsed
                && final(self).result == old(self).result,
            unknown@.len() == 0 && parsed@.len() == 0 ==> final(self).parsed_words
                == old(self).parsed_words && final(self).result == old(self).result,
            final(self).input == old(self).input,
            final(self).selected_page == old(self).selected_page,
            final(self).unknown_words == old(self).unknown_words,
            final(self).inscribe_message == old(self).inscribe_message,
    {
        if unknown.len() > 0 {
            self.parsed_words.clear();
            self.result = Some(SpellTestResult::ParseError { unknown });
            return false;
        }
        if parsed.len() == 0 {
            return false;
        }
        self.parsed_words = parsed;
        true
    }

    /// Whether there is a tested spell to inscribe (a success or a fizzle);
    /// when there is none, says so in the message.
    pub fn inscribe_ready(&mut self) -> (ready: bool)
        ensures
            ready == (old(self).result matches Some(SpellTestResult::Success { .. }) || old(
                self,
            ).result matches Some(SpellTestResult::Fizzle { .. })),
            !ready ==> (final(self).inscribe_message matches Some((m, ok)) && m@ == seq![
                'T',
                'e',
                's',
                't',
                ' ',
                'a',
                ' ',
                's',
                'p',
                'e',
                'l',
                'l',
                ' ',
                'f',
                'i',
                'r',
                's',
                't',
                '!',
            ] && !ok),
            ready ==> final(self).inscribe_message == old(self).inscribe_message,
            final(self).result == old(self).result,
            final(self).selected_page == old(self).selected_page,
            final(self).input == old(self).input,
            final(self).parsed_words == old(self).parsed_words,
            final(self).unknown_words == old(self).unknown_words,
    {
        let is_valid = match &self.result {
            Some(SpellTestResult::Success { .. }) => true,
            Some(SpellTestResult::Fizzle { .. }) => true,
            _ => false,
        };
        if !is_valid {
            let mut m = String::new();
            proof {
                reveal_strlit("Test a spell first!");
            }
            push_str(&mut m, "Test a spell first!");
            self.inscribe_message = Some((m, false));
        }
        is_valid
    }
}

/// A computed spell, as far as the test shows it.
pub enum ComputedSpell {
    Active { name: String, description: String },
    Passive { name: String, description: String },
    Hybrid { name: String, description: String },
    /// The words backfire: why, and the effect's description.
    Backfire { reason: String, effect: String },
    Fizzle { reason: String },
}

/// The test outcome for a computed spell: passive and hybrid spells are
/// marked in their names, a backfire is "Unstable Magic" described by its
/// reason and effect, a fizzle stays a fizzle.
pub fn result_of_spell(spell: ComputedSpell) -> (r: SpellTestResult)
    ensures
        match spell {
            ComputedSpell::Active { name, description } => r matches SpellTestResult::Success {
                spell_name: n,
                description: d,
                is_backfire: b,
            } && n@ == name@ && d == description && !b,
            ComputedSpell::Passive { name, description } => r matches SpellTestResult::Success {
                spell_name: n,
                description: d,
                is_backfire: b,
            } && n@ == name@ + seq![' ', '(', 'P', 'a', 's', 's', 'i', 'v', 'e', ')'] && d
                == description && !b,
            ComputedSpell::Hybrid { name, description } => r matches SpellTestResult::Success {
                spell_name: n,
                description: d,
                is_backfire: b,
            } && n@ == name@ + seq![' ', '(', 'H', 'y', 'b', 'r', 'i', 'd', ')'] && d
                == description && !b,
            ComputedSpell::Backfire { reason, effect } => r matches SpellTestResult::Success {
                spell_name: n,
                description: d,
                is_backfire: b,
            } && n@ == seq!['U', 'n', 's', 't', 'a', 'b', 'l', 'e', ' ', 'M', 'a', 'g', 'i', 'c']
                && d@ == reason@ + seq![':', ' '] + effect@ && b,
            ComputedSpell::Fizzle { reason } => r matches SpellTestResult::Fizzle { reason: f }
                && f == reason,
        },
{
    match spell {
        ComputedSpell::Active { name, description } => SpellTestResult::Success {
            spell_name: name,
            description,
            is_backfire: false,
        },
        ComputedSpell::Passive { name, description } => {
            let mut n = name;
            proof {
                reveal_strlit(" (Passive)");
            }
            push_str(&mut n, " (Passive)");
            SpellTestResult::Success { spell_name: n, description, is_backfire: false }
        },
        ComputedSpell::Hybrid { name, description } => {
            let mut n = name;
            proof {
                reveal_strlit(" (Hybrid)");
            }
            push_str(&mut n, " (Hybrid)");
            SpellTestResult::Success { spell_name: n, description, is_backfire: false }
        },
        ComputedSpell::Backfire { reason, effect } => {
            let mut n = String::new();
            proof {
                reveal_strlit("Unstable Magic");
                reveal_strlit(": ");
            }
            push_str(&mut n, "Unstable Magic");
            let mut d = reason;
            push_str(&mut d, ": ");
            push_str(&mut d, effect.as_str());
            SpellTestResult::Success { spell_name: n, description: d, is_backfire: true }
        },
        ComputedSpell::Fizzle { reason } => SpellTestResult::Fizzle { reason },
    }
}

/// "Inscribed 'NAME' to page N!"
pub open spec fn inscribed_text(name: Seq<char>, page: nat) -> Seq<char> {
    seq!['I', 'n', 's', 'c', 'r', 'i', 'b', 'e', 'd', ' ', '\''] + name + seq![
        '\'',
        ' ',
        't',
        'o',
        ' ',
        'p',
        'a',
        'g',
        'e',
        ' ',
    ] + decimal(page + 1) + seq!['!']
}

impl<W> SpellTestModal<W> {
    /// Whether there are words to inscribe; when there are none, says so in
    /// the message.
    pub fn inscribe_words_ready(&mut self) -> (ready: bool)
        ensures
            ready == (old(self).parsed_words@.len() > 0),
            !ready ==> (final(self).inscribe_message matches Some((m, ok)) && m@ == seq![
                'N',
                'o',
                ' ',
                'v',
                'a',
                'l',
                'i',
                'd',
                ' ',
                'w',
                'o',
                'r',
                'd',
                's',
                ' ',
                't',
                'o',
                ' ',
                'i',
                'n',
                's',
                'c',
                'r',
                'i',
                'b',
                'e',
                '!',
            ] && !ok),
            ready ==> final(self).inscribe_message == old(self).inscribe_message,
            final(self).parsed_words == old(self).parsed_words,
            final(self).result == old(self).result,
            final(self).selected_page == old(self).selected_page,
            final(self).input == old(self).input,
            final(self).unknown_words == old(self).unknown_words,
    {
        if self.parsed_words.len() == 0 {
            let mut m = String::new();
            proof {
                reveal_strlit("No valid words to inscribe!");
            }
            push_str(&mut m, "No valid words to inscribe!");
            self.inscribe_message = Some((m, false));
            false
        } else {
            true
        }
    }

    /// Records the outcome of writing the page on the tome: `tome` is `None`
    /// without an equipped tome, else whether the tome took the page.  On
    /// success the message names the tested spell ("Fizzle" for a fizzle).
    pub fn finish_inscription(&mut self, tome: Option<bool>)
        requires
            old(self).selected_page < usize::MAX,
        ensures
            final(self).inscribe_message matches Some((m, ok)) && (match tome {
                None => m@ == seq![
                    'N',
                    'o',
                    ' ',
                    't',
                    'o',
                    'm',
                    'e',
                    ' ',
                    'e',
                    'q',
                    'u',
                    'i',
                    'p',
                    'p',
                    'e',
                    'd',
                    '!',
                ] && !ok,
                Some(false) => m@ == seq![
                    'F',
                    'a',
                    'i',
                    'l',
                    'e',
                    'd',
                    ' ',
                    't',
                    'o',
                    ' ',
                    's',
                    'e',
                    't',
                    ' ',
                    'p',
                    'a',
                    'g',
                    'e',
                    '!',
                ] && !ok,
                Some(true) => ok && m@ == inscribed_text(
                    match old(self).result {
                        Some(SpellTestResult::Success { spell_name, .. }) => spell_name@,
                        Some(SpellTestResult::Fizzle { .. }) => seq!['F', 'i', 'z', 'z', 'l', 'e'],
                        _ => seq!['U', 'n', 'k', 'n', 'o', 'w', 'n'],
                    },
                    old(self).selected_page as nat,
                ),
            }),
            final(self).selected_page == old(self).selected_page,
            final(self).result == old(self).result,
            final(self).input == old(self).input,
            final(self).parsed_words == old(self).parsed_words,
            final(self).unknown_words == old(self).unknown_words,
    {
        match tome {
            None => {
                let mut m = String::new();
                proof {
                    reveal_strlit("No tome equipped!");
                }
                push_str(&mut m, "No tome equipped!");
                self.inscribe_message = Some((m, false));
            },
            Some(false) => {
                let mut m = String::new();
                proof {
                    reveal_strlit("Failed to set page!");
                }
                push_str(&mut m, "Failed to set page!");
                self.inscribe_message = Some((m, false));
            },
            Some(true) => {
                let mut m = String::new();
                proof {
                    reveal_strlit("Inscribed '");
                    reveal_strlit("' to page ");
                    reveal_strlit("Fizzle");
                    reveal_strlit("Unknown");
                }
                push_str(&mut m, "Inscribed '");
                match &self.result {
                    Some(SpellTestResult::Success { spell_name, .. }) => push_str(&mut m, spell_name.as_str()),
                    Some(SpellTestResult::Fizzle { .. }) => push_str(&mut m, "Fizzle"),
                    _ => push_str(&mut m, "Unknown"),
                }
                push_str(&mut m, "' to page ");
                push_decimal(&mut m, (self.selected_page + 1) as u64);
                push_char(&mut m, '!');
                assert(m@ =~= inscribed_text(
                    match old(self).result {
                        Some(SpellTestResult::Success { spell_name, .. }) => spell_name@,
                        Some(SpellTestResult::Fizzle { .. }) => seq!['F', 'i', 'z', 'z', 'l', 'e'],
                        _ => seq!['U', 'n', 'k', 'n', 'o', 'w', 'n'],
                    },
                    old(self).selected_page as nat,
                ));
                self.inscribe_message = Some((m, true));
            },
        }
    }

    /// Records the outcome of a test.
    pub fn record_result(&mut self, result: SpellTestResult)
        ensures
            final(self).result == Some(result),
            final(self).input == old(self).input,
            final(self).parsed_words == old(self).parsed_words,
            final(self).selected_page == old(self).selected_page,
            final(self).unknown_words == old(self).unknown_words,
            final(self).inscribe_message == old(self).inscribe_message,
    {
        self.result = Some(result);
    }
}

/// "fire bolt power...", shown in the empty input field.
pub open spec fn placeholder_text() -> Seq<char> {
    seq!['f', 'i', 'r', 'e', ' ', 'b', 'o', 'l', 't', ' ', 'p', 'o', 'w', 'e', 'r', '.', '.', '.']
}

impl<W> SpellTestModal<W> {
    /// The input field `input_width` columns wide: the text shown (the
    /// placeholder while nothing is typed), whether it is the placeholder,
    /// and the cursor's column, after the typed bytes but never past the
    /// last column.
    pub fn input_view(&self, input_width: u16) -> (v: (String, bool, usize))
        requires
            input_width >= 1,
            byte_len(self.input@) <= usize::MAX,
        ensures
            v.1 == (self.input@.len() == 0),
            v.0@ == (if v.1 {
                placeholder_text()
            } else {
                self.input@
            }),
            v.2 == (if byte_len(self.input@) < input_width - 1 {
                byte_len(self.input@)
            } else {
                (input_width - 1) as nat
            }),
    {
        let empty = self.input.as_str().is_empty();
        let mut text = String::new();
        if empty {
            proof {
                reveal_strlit("fire bolt power...");
            }
            push_str(&mut text, "fire bolt power...");
        } else {
            push_str(&mut text, self.input.as_str());
        }
        assert(text@ =~= (if empty {
            placeholder_text()
        } else {
            self.input@
        }));
        let len = self.input.as_str().len();
        let last = (input_width - 1) as usize;
        let cursor = if len < last {
            len
        } else {
            last
        };
        (text, empty, cursor)
    }
}

} // verus!
