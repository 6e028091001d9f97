//! The persisted settings file: a flat key/value store read and written by
//! `configparser`.

use vstd::prelude::*;
use configparser::ini::Ini;
use crate::config::opt_view;

verus! {

#[verifier::external_type_specification]
#[verifier::external_body]
pub struct ExIni(configparser::ini::Ini);

/// The contents of a store: the value (possibly none) under each section
/// and key.
pub type Entries = Map<(Seq<char>, Seq<char>), Option<Seq<char>>>;

/// What a store holds: the value (possibly none) under each section and key.
pub uninterp spec fn ini_entries(ini: Ini) -> Entries;

/// What a fresh store with `#` as its only comment symbol holds after
/// reading `text`, or `None` where the text is not valid ini syntax.
pub uninterp spec fn parsed_ini(text: Seq<char>) -> Option<
    Entries,
>;

/// A section or key name that case folding leaves as it is.
pub open spec fn is_plain_name(s: Seq<char>) -> bool {
    forall|i: int| 0 <= i < s.len() ==> ('a' <= #[trigger] s[i] && s[i] <= 'z') || s[i] == '-'
}

/// The value stored under `section` and `key`, where there is one.
pub open spec fn stored_value(
    m: Entries,
    section: Seq<char>,
    key: Seq<char>,
) -> Option<Seq<char>> {
    if m.contains_key((section, key)) {
        m[(section, key)]
    } else {
        None
    }
}

/// Relies on `Ini::new`: the new store holds nothing.
#[verifier::external_body]
pub(crate) fn new_ini() -> (r: Ini)
    ensures
        ini_entries(r) == Entries::empty(),
{
    Ini::new()
}

/// Relies on `Ini::new`, `Ini::set_comment_symbols` and `Ini::read`: with `#`
/// as the only comment symbol, reading replaces the contents of the fresh
/// store with what the text gives, or fails on invalid syntax.
#[verifier::external_body]
pub(crate) fn read_ini(text: String) -> (r: Option<Ini>)
    ensures
        match r {
            Some(ini) => parsed_ini(text@) == Some(ini_entries(ini)),
            None => parsed_ini(text@) is None,
        },
{
    let mut ini = Ini::new();
    ini.set_comment_symbols(&['#']);
    match ini.read(text) {
        Ok(_) => Some(ini),
        Err(_) => None,
    }
}

/// Relies on `Ini::get`: the value stored under the case-folded section and
/// key, which plain names leave unchanged; a key stored without a value
/// reads as `None`.
#[verifier::external_body]
pub(crate) fn ini_get(ini: &Ini, section: &str, key: &str) -> (r: Option<String>)
    requires
        is_plain_name(section@),
        is_plain_name(key@),
    ensures
        opt_view(r) == stored_value(ini_entries(*ini), section@, key@),
{
    ini.get(section, key)
}

/// Relies on `Ini::set`: it stores the value under the case-folded section
/// and key, creating the section where it is missing.
#[verifier::external_body]
pub(crate) fn ini_set(ini: &mut Ini, section: &str, key: &str, value: Option<String>)
    requires
        is_plain_name(section@),
        is_plain_name(key@),
    ensures
        ini_entries(*final(ini)) == ini_entries(*old(ini)).insert((section@, key@), opt_view(value)),
{
    ini.set(section, key, value);
}

/// A value that a `key=value` line carries unchanged: printable ASCII
/// without `#`, not starting or ending with a space.
pub open spec fn is_plain_value(v: Seq<char>) -> bool {
    &&& forall|i: int| 0 <= i < v.len() ==> ' ' <= #[trigger] v[i] && v[i] <= '~' && v[i] != '#'
    &&& v.len() > 0 ==> v[0] != ' ' && v.last() != ' '
}

/// Contents that ini syntax writes and reads back unchanged: everything in
/// the default section, under non-empty plain keys, with plain values.
pub open spec fn is_writable(m: Entries) -> bool {
    forall|k: (Seq<char>, Seq<char>)|
        #[trigger] m.contains_key(k) ==> k.0 == "default"@ && k.1.len() > 0 && is_plain_name(k.1)
            && (m[k] matches Some(v) ==> is_plain_value(v))
}

/// Relies on `Ini::writes`: the store in ini syntax, the default section
/// first and without a header, one `key=value` line per key (`key` alone
/// for a key without a value); sections and keys come in the order of the
/// store's hash maps, so only what reading the text back gives is stated.
#[verifier::external_body]
pub(crate) fn ini_text(ini: &Ini) -> (r: String)
    ensures
        is_writable(ini_entries(*ini)) ==> parsed_ini(r@) == Some(ini_entries(*ini)),
{
    ini.writes()
}

} // verus!
