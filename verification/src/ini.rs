//! The INI reader of the `configparser` crate, as far as the configuration
//! rules use it. What this module says of the reader is not proved: each
//! contract here is a reading of that crate's source, and the rules are
//! verified against them.

use configparser::ini::Ini;
use vstd::prelude::*;

verus! {

/// The reader, `configparser::ini::Ini`. Nothing inside it is visible here:
/// what it holds and how it is set up go by the names below.
#[verifier::external_type_specification]
#[verifier::external_body]
pub struct ExIni(configparser::ini::Ini);

/// The longest text, in characters, that is handed to the reader. The reader
/// numbers the lines of a text with an `i32`, which a text within this limit
/// cannot exhaust.
pub const MAX_TEXT_CHARS: usize = 0x4000_0000;

/// What an `Ini` holds: the value stored under each pair of a section and a
/// key that has a value. A key without a value has no entry.
pub uninterp spec fn ini_values(ini: Ini) -> Map<(Seq<char>, Seq<char>), Seq<char>>;

/// Whether an `Ini` has the settings that `Ini::new` gives it: `;` and `#`
/// start a comment, `=` and `:` part a key from its value, section names and
/// keys are stored in lower case, a value ends with its line, and a lookup
/// that finds nothing does not fall back on the default section.
pub uninterp spec fn ini_default_settings(ini: Ini) -> bool;

/// What `Ini::read` finds in a text when the settings are the default ones:
/// the values by section and key, or `None` where it refuses the text.
pub uninterp spec fn ini_text_values(text: Seq<char>) -> Option<
    Map<(Seq<char>, Seq<char>), Seq<char>>,
>;

/// Whether a section name or a key is written as a lookup stores it: in
/// ASCII, without capital letters. Such a name is looked up as it stands.
pub open spec fn folded(name: Seq<char>) -> bool {
    forall|i: int|
        0 <= i < name.len() ==> (#[trigger] name[i]) as u32 <= 0x7f && !(0x41 <= name[i] as u32
            <= 0x5a)
}

/// `c`, or the small letter for it where `c` is an ASCII capital.
pub open spec fn ascii_lower(c: char) -> char {
    if 0x41 <= c as u32 <= 0x5a {
        ((c as u32 + 0x20) as u32) as char
    } else {
        c
    }
}

/// Whether two texts are the same but for the case of their ASCII letters.
pub open spec fn same_ignoring_ascii_case(a: Seq<char>, b: Seq<char>) -> bool {
    &&& a.len() == b.len()
    &&& forall|i: int| 0 <= i < a.len() ==> ascii_lower(#[trigger] a[i]) == ascii_lower(b[i])
}

/// The truth value that a text stands for: `true` or `false`, in any mix of
/// capital and small letters. No other text stands for one.
pub open spec fn truth_value(word: Seq<char>) -> Option<bool> {
    if same_ignoring_ascii_case(word, "true"@) {
        Some(true)
    } else if same_ignoring_ascii_case(word, "false"@) {
        Some(false)
    } else {
        None
    }
}

/// The value under `section` and `key`, if there is one.
pub open spec fn value_at(
    values: Map<(Seq<char>, Seq<char>), Seq<char>>,
    section: Seq<char>,
    key: Seq<char>,
) -> Option<Seq<char>> {
    if values.contains_key((section, key)) {
        Some(values[(section, key)])
    } else {
        None
    }
}

/// Calls `Ini::new`: a reader with the default settings.
#[verifier::external_body]
pub(crate) fn ini_new() -> (ini: Ini)
    ensures
        ini_default_settings(ini),
{
    Ini::new()
}

/// Calls `Ini::read`, which parses `text` and, where it accepts it, replaces
/// what the reader held by what the text holds. It refuses a text with a
/// section header that is not closed or with a line that starts with a
/// delimiter. The settings stay as they were. The text has to be within
/// `MAX_TEXT_CHARS`, so that the line count stays in range.
#[verifier::external_body]
pub(crate) fn ini_read(ini: &mut Ini, text: &str) -> (res: Result<(), String>)
    requires
        ini_default_settings(*old(ini)),
        text@.len() <= MAX_TEXT_CHARS,
    ensures
        ini_default_settings(*final(ini)),
        match ini_text_values(text@) {
            Some(values) => res is Ok && ini_values(*final(ini)) == values,
            None => res is Err,
        },
{
    match ini.read(text.to_string()) {
        Ok(_) => Ok(()),
        Err(why) => Err(why),
    }
}

/// Calls `Ini::get`: a copy of the value stored under `section` and `key`,
/// or `None` where there is no such section, no such key, or no value.
#[verifier::external_body]
pub(crate) fn ini_get(ini: &Ini, section: &str, key: &str) -> (value: Option<String>)
    requires
        ini_default_settings(*ini),
        folded(section@),
        folded(key@),
    ensures
        match value {
            Some(found) => value_at(ini_values(*ini), section@, key@) == Some(found@),
            None => value_at(ini_values(*ini), section@, key@) is None,
        },
{
    ini.get(section, key)
}

/// Calls `Ini::getbool`: `Ok(None)` where `Ini::get` finds no value,
/// `Ok(Some(b))` where the value is `true` or `false` but for the case of
/// its letters, and an error message for any other value.
#[verifier::external_body]
pub(crate) fn ini_getbool(ini: &Ini, section: &str, key: &str) -> (res: Result<
    Option<bool>,
    String,
>)
    requires
        ini_default_settings(*ini),
        folded(section@),
        folded(key@),
    ensures
        match value_at(ini_values(*ini), section@, key@) {
            None => res is Ok && res->Ok_0 is None,
            Some(word) => match truth_value(word) {
                Some(b) => res is Ok && res->Ok_0 == Some(b),
                None => res is Err,
            },
        },
{
    ini.getbool(section, key)
}

} // verus!
