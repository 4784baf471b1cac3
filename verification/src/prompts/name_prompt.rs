//! The resource-name prompt: its label and the validation of what is typed.
use vstd::prelude::*;

use crate::cli::schematic_kind::SchematicKind;
use crate::text::{is_white_space, white_space};

verus! {

/// The first index from which no white space leads.
pub open spec fn trim_start_index(s: Seq<char>, i: int) -> int
    decreases s.len() - i,
{
    if i < 0 || i >= s.len() {
        i
    } else if is_white_space(s[i]) {
        trim_start_index(s, i + 1)
    } else {
        i
    }
}

/// The index after the last character, at or before `j`, that is not white
/// space (never before `lo`).
pub open spec fn trim_end_index(s: Seq<char>, lo: int, j: int) -> int
    decreases j - lo,
{
    if j <= lo {
        lo
    } else if is_white_space(s[j - 1]) {
        trim_end_index(s, lo, j - 1)
    } else {
        j
    }
}

/// `s` without leading and trailing white space (what `str::trim` returns).
pub open spec fn spec_trim(s: Seq<char>) -> Seq<char> {
    let lo = trim_start_index(s, 0);
    s.subrange(lo, trim_end_index(s, lo, s.len() as int))
}


/// The text without leading and trailing white space.
pub fn trim(s: &str) -> (r: &str)
    ensures
        r@ == spec_trim(s@),
{
    let n = s.unicode_len();
    let mut lo: usize = 0;
    while lo < n && white_space(s.get_char(lo))
        invariant
            n == s@.len(),
            lo <= n,
            trim_start_index(s@, 0) == trim_start_index(s@, lo as int),
        decreases n - lo,
    {
        lo = lo + 1;
    }
    let mut hi: usize = n;
    while hi > lo && white_space(s.get_char(hi - 1))
        invariant
            n == s@.len(),
            lo <= hi <= n,
            trim_end_index(s@, lo as int, n as int) == trim_end_index(s@, lo as int, hi as int),
        decreases hi - lo,
    {
        hi = hi - 1;
    }
    s.substring_char(lo, hi)
}

/// Why a typed name was refused.
#[derive(Debug, Clone, Copy, PartialEq, Eq, Structural)]
pub enum NameError {
    Empty,
    InvalidCharacter,
    MustStartWithLetter,
}

pub open spec fn is_ascii_letter(c: char) -> bool {
    ('a' <= c && c <= 'z') || ('A' <= c && c <= 'Z')
}

pub open spec fn is_name_char(c: char) -> bool {
    is_ascii_letter(c) || ('0' <= c && c <= '9') || c == '-' || c == '_'
}

/// The verdict on a typed name, judged after trimming: it must not be empty,
/// may hold only ASCII letters, digits, `-` and `_`, and must start with a
/// letter.
pub open spec fn spec_validate_name(input: Seq<char>) -> Result<(), NameError> {
    let t = spec_trim(input);
    if t.len() == 0 {
        Err(NameError::Empty)
    } else if !(forall|i: int| 0 <= i < t.len() ==> is_name_char(#[trigger] t[i])) {
        Err(NameError::InvalidCharacter)
    } else if !is_ascii_letter(t[0]) {
        Err(NameError::MustStartWithLetter)
    } else {
        Ok(())
    }
}

pub fn validate_name(input: &str) -> (r: Result<(), NameError>)
    ensures
        r == spec_validate_name(input@),
{
    let t = trim(input);
    let n = t.unicode_len();
    if n == 0 {
        return Err(NameError::Empty);
    }
    let mut i: usize = 0;
    while i < n
        invariant
            n == t@.len(),
            t@ == spec_trim(input@),
            i <= n,
            forall|k: int| 0 <= k < i ==> is_name_char(#[trigger] t@[k]),
        decreases n - i,
    {
        let c = t.get_char(i);
        if !(('a' <= c && c <= 'z') || ('A' <= c && c <= 'Z') || ('0' <= c && c <= '9') || c
            == '-' || c == '_') {
            assert(!is_name_char(t@[i as int]));
            assert(!(forall|k: int| 0 <= k < t@.len() ==> is_name_char(#[trigger] t@[k])));
            return Err(NameError::InvalidCharacter);
        }
        i = i + 1;
    }
    let first = t.get_char(0);
    if !(('a' <= first && first <= 'z') || ('A' <= first && first <= 'Z')) {
        return Err(NameError::MustStartWithLetter);
    }
    Ok(())
}

impl NameError {
    pub open spec fn spec_message(self) -> Seq<char> {
        match self {
            NameError::Empty => "Name cannot be empty"@,
            NameError::InvalidCharacter => "Name may only contain letters, digits, '-' and '_'"@,
            NameError::MustStartWithLetter => "Name must start with a letter"@,
        }
    }

    /// The message shown under the prompt.
    pub fn message(&self) -> (r: &'static str)
        ensures
            r@ == self.spec_message(),
    {
        match self {
            NameError::Empty => "Name cannot be empty",
            NameError::InvalidCharacter => "Name may only contain letters, digits, '-' and '_'",
            NameError::MustStartWithLetter => "Name must start with a letter",
        }
    }
}

pub open spec fn spec_name_prompt_label(kind: SchematicKind) -> Seq<char> {
    match kind {
        SchematicKind::Resource => "Resource name"@,
        SchematicKind::Service => "Service name"@,
        SchematicKind::Controller => "Controller name"@,
        SchematicKind::Entity => "Entity name"@,
        SchematicKind::Repository => "Repository name"@,
        SchematicKind::Dto => "DTO name"@,
        SchematicKind::Mapper => "Mapper name"@,
    }
}

/// What the name prompt asks for, by schematic.
pub fn name_prompt_label(kind: SchematicKind) -> (r: &'static str)
    ensures
        r@ == spec_name_prompt_label(kind),
{
    match kind {
        SchematicKind::Resource => "Resource name",
        SchematicKind::Service => "Service name",
        SchematicKind::Controller => "Controller name",
        SchematicKind::Entity => "Entity name",
        SchematicKind::Repository => "Repository name",
        SchematicKind::Dto => "DTO name",
        SchematicKind::Mapper => "Mapper name",
    }
}

} // verus!
