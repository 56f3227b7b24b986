//! The validation/configuration descriptor handed to the generic
//! text-input component for the conversation-rename field, and the
//! rules an enforcing validator applies to it.

use vstd::prelude::*;

verus! {

/// What the explicit special-character list means: an allow-list that
/// exempts its characters from the alphanumeric-only rule, or a
/// block-list that rejects them outright.
#[derive(Clone, Copy, PartialEq, Eq, Structural, Debug)]
pub enum SpecialCharsAction {
    Allow,
    Block,
}

/// An immutable validation descriptor for a text input: length bounds,
/// an alphanumeric-only flag, a whitespace ban, a colon exemption, and
/// an optional explicit special-character list.
pub struct Validation {
    pub max_length: Option<i32>,
    pub min_length: Option<i32>,
    pub alpha_numeric_only: bool,
    pub no_whitespace: bool,
    pub ignore_colons: bool,
    pub special_chars: Option<(SpecialCharsAction, Vec<char>)>,
}

/// The mathematical value of a [`Validation`].
#[verifier::ext_equal]
pub struct ValidationView {
    pub max_length: Option<i32>,
    pub min_length: Option<i32>,
    pub alpha_numeric_only: bool,
    pub no_whitespace: bool,
    pub ignore_colons: bool,
    pub special_chars: Option<(SpecialCharsAction, Seq<char>)>,
}

impl View for Validation {
    type V = ValidationView;

    open spec fn view(&self) -> ValidationView {
        ValidationView {
            max_length: self.max_length,
            min_length: self.min_length,
            alpha_numeric_only: self.alpha_numeric_only,
            no_whitespace: self.no_whitespace,
            ignore_colons: self.ignore_colons,
            special_chars: match self.special_chars {
                Some((action, cs)) => Some((action, cs@)),
                None => None,
            },
        }
    }
}

/// Configuration handed to the generic text-input component: the
/// validation rules and the two submission-behavior flags.
pub struct Options {
    pub with_validation: Option<Validation>,
    pub clear_on_submit: bool,
    pub clear_validation_on_submit: bool,
}

/// The mathematical value of an [`Options`].
#[verifier::ext_equal]
pub struct OptionsView {
    pub with_validation: Option<ValidationView>,
    pub clear_on_submit: bool,
    pub clear_validation_on_submit: bool,
}

impl View for Options {
    type V = OptionsView;

    open spec fn view(&self) -> OptionsView {
        OptionsView {
            with_validation: match self.with_validation {
                Some(v) => Some(v@),
                None => None,
            },
            clear_on_submit: self.clear_on_submit,
            clear_validation_on_submit: self.clear_validation_on_submit,
        }
    }
}

/// A character is alphanumeric here when it is an ASCII letter or digit.
pub open spec fn spec_char_is_alphanumeric(c: char) -> bool {
    (97 <= c as int && c as int <= 122) || (65 <= c as int && c as int <= 90) || (48 <= c as int
        && c as int <= 57)
}

/// Whether a character counts as whitespace for the whitespace ban.
pub open spec fn spec_char_is_whitespace(c: char) -> bool {
    c == ' ' || c == '\t' || c == '\n' || c == '\r'
}

/// Whether the descriptor's special-character list is an allow-list
/// containing the character.
pub open spec fn spec_char_allow_listed(v: ValidationView, c: char) -> bool {
    v.special_chars matches Some((action, cs)) && action == SpecialCharsAction::Allow
        && cs.contains(c)
}

/// Whether the descriptor's special-character list is a block-list
/// containing the character.
pub open spec fn spec_char_block_listed(v: ValidationView, c: char) -> bool {
    v.special_chars matches Some((action, cs)) && action == SpecialCharsAction::Block
        && cs.contains(c)
}

/// A single character passes the descriptor when it is not banned
/// whitespace, not on a block-list, and — under the alphanumeric-only
/// rule — alphanumeric, allow-listed, or an exempted colon.
pub open spec fn spec_char_acceptable(v: ValidationView, c: char) -> bool {
    &&& !(v.no_whitespace && spec_char_is_whitespace(c))
    &&& (v.alpha_numeric_only ==> spec_char_is_alphanumeric(c) || spec_char_allow_listed(v, c) || (
    v.ignore_colons && c == ':'))
    &&& !spec_char_block_listed(v, c)
}

/// The input's length lies within the descriptor's bounds.
pub open spec fn spec_len_ok(v: ValidationView, n: nat) -> bool {
    &&& (v.max_length matches Some(m) ==> n <= m)
    &&& (v.min_length matches Some(m) ==> n >= m)
}

/// The whole input passes the descriptor: its length is in bounds and
/// every character is acceptable.
pub open spec fn spec_input_valid(v: ValidationView, s: Seq<char>) -> bool {
    &&& spec_len_ok(v, s.len())
    &&& forall|i: int| 0 <= i < s.len() ==> spec_char_acceptable(v, s[i])
}

/// Whether the character is an ASCII letter or digit.
pub fn char_is_alphanumeric(c: char) -> (r: bool)
    ensures
        r == spec_char_is_alphanumeric(c),
{
    let u = c as u32;
    (97 <= u && u <= 122) || (65 <= u && u <= 90) || (48 <= u && u <= 57)
}

/// Whether the character counts as whitespace for the whitespace ban.
pub fn char_is_whitespace(c: char) -> (r: bool)
    ensures
        r == spec_char_is_whitespace(c),
{
    c == ' ' || c == '\t' || c == '\n' || c == '\r'
}

/// Whether the character occurs in the list.
fn char_in_list(cs: &Vec<char>, c: char) -> (r: bool)
    ensures
        r == cs@.contains(c),
{
    let mut i: usize = 0;
    while i < cs.len()
        invariant
            i <= cs.len(),
            forall|j: int| 0 <= j < i ==> cs@[j] != c,
        decreases cs.len() - i,
    {
        if cs[i] == c {
            assert(cs@[i as int] == c);
            return true;
        }
        i = i + 1;
    }
    false
}

impl Validation {
    /// Whether the descriptor's special-character list is an allow-list
    /// containing the character.
    fn char_allow_listed(&self, c: char) -> (r: bool)
        ensures
            r == spec_char_allow_listed(self@, c),
    {
        match &self.special_chars {
            Some((action, cs)) => match action {
                SpecialCharsAction::Allow => char_in_list(cs, c),
                SpecialCharsAction::Block => false,
            },
            None => false,
        }
    }

    /// Whether the descriptor's special-character list is a block-list
    /// containing the character.
    fn char_block_listed(&self, c: char) -> (r: bool)
        ensures
            r == spec_char_block_listed(self@, c),
    {
        match &self.special_chars {
            Some((action, cs)) => match action {
                SpecialCharsAction::Allow => false,
                SpecialCharsAction::Block => char_in_list(cs, c),
            },
            None => false,
        }
    }

    /// Whether one character passes the descriptor's character rules.
    pub fn char_acceptable(&self, c: char) -> (r: bool)
        ensures
            r == spec_char_acceptable(self@, c),
    {
        if self.no_whitespace && char_is_whitespace(c) {
            return false;
        }
        if self.alpha_numeric_only {
            let exempt_colon = self.ignore_colons && c == ':';
            if !(char_is_alphanumeric(c) || self.char_allow_listed(c) || exempt_colon) {
                return false;
            }
        }
        if self.char_block_listed(c) {
            return false;
        }
        true
    }

    /// Enforces the descriptor on an input: true exactly when the
    /// length is within bounds and every character is acceptable.
    pub fn validate(&self, input: &str) -> (r: bool)
        ensures
            r == spec_input_valid(self@, input@),
    {
        let n = input.unicode_len();
        match self.max_length {
            Some(m) => {
                if m < 0 || n > m as usize {
                    return false;
                }
            },
            None => {},
        }
        match self.min_length {
            Some(m) => {
                if m >= 0 && n < m as usize {
                    return false;
                }
            },
            None => {},
        }
        let mut i: usize = 0;
        while i < n
            invariant
                i <= n,
                n == input@.len(),
                spec_len_ok(self@, input@.len()),
                forall|j: int| 0 <= j < i ==> spec_char_acceptable(self@, input@[j]),
            decreases n - i,
        {
            let c = input.get_char(i);
            if !self.char_acceptable(c) {
                return false;
            }
            i = i + 1;
        }
        true
    }
}

/// The fixed characters the rename field allows beside letters and
/// digits.
pub open spec fn allowed_special_chars() -> Seq<char> {
    seq![
        ' ',
        '.',
        ',',
        '!',
        '?',
        '_',
        '&',
        '+',
        '~',
        '(',
        ')',
        '{',
        '}',
        '[',
        ']',
        '+',
        '-',
        '/',
        '*',
    ]
}

/// The validation descriptor for the conversation-rename field: at most
/// 64 characters, no lower bound, alphanumeric-only with the fixed
/// allow-list, whitespace permitted, no colon exemption.
pub open spec fn spec_group_rename_validation() -> ValidationView {
    ValidationView {
        max_length: Some(64),
        min_length: Some(0),
        alpha_numeric_only: true,
        no_whitespace: false,
        ignore_colons: false,
        special_chars: Some((SpecialCharsAction::Allow, allowed_special_chars())),
    }
}

/// Builds the configuration for the conversation-rename input field:
/// the rename validation rules, field content kept on submit, and any
/// validation-error display cleared on submit.
pub fn get_input_options() -> (r: Options)
    ensures
        r@.with_validation matches Some(v) && v == spec_group_rename_validation(),
        r@.clear_on_submit == false,
        r@.clear_validation_on_submit == true,
{
    let mut cs: Vec<char> = Vec::new();
    cs.push(' ');
    cs.push('.');
    cs.push(',');
    cs.push('!');
    cs.push('?');
    cs.push('_');
    cs.push('&');
    cs.push('+');
    cs.push('~');
    cs.push('(');
    cs.push(')');
    cs.push('{');
    cs.push('}');
    cs.push('[');
    cs.push(']');
    cs.push('+');
    cs.push('-');
    cs.push('/');
    cs.push('*');
    proof {
        assert(cs@ =~= allowed_special_chars());
    }
    let group_name_validation_options = Validation {
        max_length: Some(64),
        min_length: Some(0),
        alpha_numeric_only: true,
        no_whitespace: false,
        ignore_colons: false,
        special_chars: Some((SpecialCharsAction::Allow, cs)),
    };
    Options {
        with_validation: Some(group_name_validation_options),
        clear_on_submit: false,
        clear_validation_on_submit: true,
    }
}

} // verus!
