//! The character catalog: turning the text of character definition files
//! into validated records, all-or-nothing, and resolving a free-text name
//! against the three canonical identities.
//!
//! Name matching is data-driven: each identity accepts its bare alias and
//! one prefixed alias, case-insensitively over ASCII letters. The table of
//! aliases is closed; any other input is rejected.

use vstd::prelude::*;
use vstd::string::StrSliceExecFns;
use crate::chara::{CharaAttack, CharaBase, CharaConfig};
use crate::errors::CoreError;

verus! {

#[verifier::external_type_specification]
#[verifier::external_body]
pub struct ExTomlValue(toml::Value);

/// Whether a string is well-formed TOML text: a fact of the string alone,
/// decided by the parser of the toml crate.
pub uninterp spec fn toml_parses(s: Seq<char>) -> bool;

/// The TOML document a well-formed string parses to. Spoken of only where
/// `toml_parses` holds.
pub uninterp spec fn toml_value_of(s: Seq<char>) -> toml::Value;

/// What looking a key up in a TOML value yields: the entry of a table
/// under that key, None on a missing key or a non-table.
pub uninterp spec fn toml_get_of(v: toml::Value, key: Seq<char>) -> Option<toml::Value>;

/// The payload of a TOML string value, None for any other kind of value.
pub uninterp spec fn toml_str_of(v: toml::Value) -> Option<Seq<char>>;

/// The payload of a TOML integer value, None for any other kind of value.
pub uninterp spec fn toml_integer_of(v: toml::Value) -> Option<i64>;

/// The elements of a TOML array value, None for any other kind of value.
pub uninterp spec fn toml_array_of(v: toml::Value) -> Option<Seq<toml::Value>>;

/// Relies on toml::from_str, read at toml::Value: whether the text is a
/// well-formed TOML document, and which document it is, are decided on
/// the text alone.
#[verifier::external_body]
fn toml_from_str(s: &str) -> (r: Option<toml::Value>)
    ensures
        r is Some <==> toml_parses(s@),
        r matches Some(v) ==> v == toml_value_of(s@),
{
    toml::from_str::<toml::Value>(s).ok()
}

/// Relies on toml::Value::get: looks a key up in a TOML table, None when
/// the value is no table or lacks the key; a function of the value and
/// the key alone.
#[verifier::external_body]
fn toml_get<'a>(v: &'a toml::Value, key: &str) -> (r: Option<&'a toml::Value>)
    ensures
        r matches Some(x) ==> toml_get_of(*v, key@) == Some(*x),
        r is None ==> toml_get_of(*v, key@) is None,
{
    v.get(key)
}

/// Relies on toml::Value::as_str: the payload of a TOML string value,
/// None for any other kind of value.
#[verifier::external_body]
fn toml_as_str(v: &toml::Value) -> (r: Option<String>)
    ensures
        r matches Some(s) ==> toml_str_of(*v) == Some(s@),
        r is None ==> toml_str_of(*v) is None,
{
    match v.as_str() {
        Some(s) => Some(s.to_owned()),
        None => None,
    }
}

/// Relies on toml::Value::as_integer: the payload of a TOML integer
/// value, None for any other kind of value.
#[verifier::external_body]
fn toml_as_integer(v: &toml::Value) -> (r: Option<i64>)
    ensures
        r == toml_integer_of(*v),
{
    v.as_integer()
}

/// Relies on toml::Value::as_array: the elements of a TOML array value,
/// None for any other kind of value.
#[verifier::external_body]
fn toml_as_array<'a>(v: &'a toml::Value) -> (r: Option<&'a Vec<toml::Value>>)
    ensures
        r matches Some(a) ==> toml_array_of(*v) == Some(a@),
        r is None ==> toml_array_of(*v) is None,
{
    v.as_array()
}

/// The display name a character definition document carries: the string
/// under `name` in its `charabase` table.
pub open spec fn spec_name(v: toml::Value) -> Option<Seq<char>> {
    match toml_get_of(v, "charabase"@) {
        Some(b) => match toml_get_of(b, "name"@) {
            Some(n) => toml_str_of(n),
            None => None,
        },
        None => None,
    }
}

/// The hit points a character definition document carries.
pub open spec fn spec_hp(v: toml::Value) -> Option<i64> {
    match toml_get_of(v, "charabase"@) {
        Some(b) => match toml_get_of(b, "hp"@) {
            Some(h) => toml_integer_of(h),
            None => None,
        },
        None => None,
    }
}

/// The speed a character definition document carries.
pub open spec fn spec_speed(v: toml::Value) -> Option<i64> {
    match toml_get_of(v, "charabase"@) {
        Some(b) => match toml_get_of(b, "speed"@) {
            Some(sp) => toml_integer_of(sp),
            None => None,
        },
        None => None,
    }
}

/// The entries of the document's `attack` array.
pub open spec fn spec_entries(v: toml::Value) -> Option<Seq<toml::Value>> {
    match toml_get_of(v, "attack"@) {
        Some(a) => toml_array_of(a),
        None => None,
    }
}

/// The damage amount one attack entry carries.
pub open spec fn spec_entry_damage(e: toml::Value) -> Option<i64> {
    match toml_get_of(e, "damage"@) {
        Some(d) => toml_integer_of(d),
        None => None,
    }
}

/// The document has the shape of a valid character record: a string name,
/// integer hit points, a non-negative speed, and a non-empty attack array
/// whose every entry carries a damage amount in the unsigned 32-bit
/// range.
pub open spec fn valid_chara_value(v: toml::Value) -> bool {
    &&& spec_name(v) is Some
    &&& spec_hp(v) is Some
    &&& spec_speed(v) matches Some(sp) && 0 <= sp
    &&& spec_entries(v) matches Some(es) && es.len() >= 1 && (forall|i: int|
        0 <= i < es.len() ==> (#[trigger] spec_entry_damage(es[i]) matches Some(d) && 0 <= d
            <= u32::MAX))
}

/// The record carries exactly the data of the document: name, hit points,
/// speed, and the damage of each attack entry, in order.
pub open spec fn record_matches_value(c: CharaConfig, v: toml::Value) -> bool {
    &&& Some(c.charabase.name@) == spec_name(v)
    &&& Some(c.charabase.hp) == spec_hp(v)
    &&& Some(c.charabase.speed as i64) == spec_speed(v)
    &&& spec_entries(v) matches Some(es) && c.attack@.len() == es.len() && (forall|i: int|
        0 <= i < es.len() ==> Some(c.attack@[i].damage as i64) == #[trigger] spec_entry_damage(
            es[i],
        ))
}

/// The text is a well-formed TOML document of valid record shape.
pub open spec fn file_is_valid_record(s: Seq<char>) -> bool {
    toml_parses(s) && valid_chara_value(toml_value_of(s))
}

/// Every file text in the listing is a well-formed TOML document of
/// valid record shape.
pub open spec fn all_files_valid(files: Seq<String>) -> bool {
    forall|i: int| 0 <= i < files.len() ==> #[trigger] file_is_valid_record(files[i]@)
}

/// ASCII lowercasing of one character; anything outside 'A'..='Z' is left
/// alone.
pub open spec fn lower_char(c: char) -> char {
    if 65 <= c as u32 && c as u32 <= 90 {
        (c as u32 + 32) as char
    } else {
        c
    }
}

/// ASCII lowercasing of a whole character sequence.
pub open spec fn lower_seq(s: Seq<char>) -> Seq<char> {
    s.map_values(|c: char| lower_char(c))
}

fn lower_char_exec(c: char) -> (r: char)
    ensures
        r == lower_char(c),
{
    let u = c as u32;
    if 65 <= u && u <= 90 {
        ((u + 32) as u8) as char
    } else {
        c
    }
}

/// Case-insensitive match of `s` against the already-lowercase alias `t`:
/// true exactly when lowering `s` yields `t`.
fn eq_lower(s: &str, t: &str) -> (r: bool)
    ensures
        r == (lower_seq(s@) == t@),
{
    let n = s.unicode_len();
    let m = t.unicode_len();
    if n != m {
        proof {
            assert(lower_seq(s@).len() == s@.len());
        }
        return false;
    }
    let mut i: usize = 0;
    while i < n
        invariant
            i <= n,
            n == s@.len(),
            n == t@.len(),
            forall|j: int| 0 <= j < i ==> lower_char(s@[j]) == t@[j],
        decreases n - i,
    {
        let c = lower_char_exec(s.get_char(i));
        let d = t.get_char(i);
        if c != d {
            proof {
                assert(lower_seq(s@)[i as int] == lower_char(s@[i as int]));
            }
            return false;
        }
        i = i + 1;
    }
    proof {
        assert(lower_seq(s@) =~= t@);
    }
    true
}

/// The free-text name matches the first identity: its bare alias or its
/// prefixed alias, case-insensitively.
pub open spec fn matches_reimu(s: Seq<char>) -> bool {
    lower_seq(s) == "reimu"@ || lower_seq(s) == "hakureireimu"@
}

/// The free-text name matches the second identity.
pub open spec fn matches_sakuya(s: Seq<char>) -> bool {
    lower_seq(s) == "sakuya"@ || lower_seq(s) == "izayoisakuya"@
}

/// The free-text name matches the third identity.
pub open spec fn matches_marisa(s: Seq<char>) -> bool {
    lower_seq(s) == "marisa"@ || lower_seq(s) == "kirisamemarisa"@
}

/// The canonical display name that a free-text input resolves to, tested
/// in the fixed priority order, or None when no alias rule matches.
pub open spec fn resolved_name(s: Seq<char>) -> Option<Seq<char>> {
    if matches_reimu(s) {
        Some("博麗霊夢"@)
    } else if matches_sakuya(s) {
        Some("十六夜咲夜"@)
    } else if matches_marisa(s) {
        Some("霧雨魔理沙"@)
    } else {
        None
    }
}

/// The catalog holds some record with this display name.
pub open spec fn catalog_has(catalog: Seq<CharaConfig>, name: Seq<char>) -> bool {
    exists|i: int| 0 <= i < catalog.len() && catalog[i].charabase.name@ == name
}

/// `c` carries the data of the first record in the catalog with this
/// display name.
pub open spec fn resolves_to(catalog: Seq<CharaConfig>, name: Seq<char>, c: CharaConfig) -> bool {
    exists|i: int|
        0 <= i < catalog.len() && catalog[i].charabase.name@ == name && (forall|j: int|
            0 <= j < i ==> catalog[j].charabase.name@ != name) && c.eqv(catalog[i])
}

/// The index of the first record with this display name.
fn find_index(catalog: &Vec<CharaConfig>, target: &String) -> (r: Option<usize>)
    ensures
        match r {
            Some(i) => 0 <= i < catalog@.len() && catalog@[i as int].charabase.name@ == target@
                && forall|j: int| 0 <= j < i ==> catalog@[j].charabase.name@ != target@,
            None => !catalog_has(catalog@, target@),
        },
{
    let mut i: usize = 0;
    while i < catalog.len()
        invariant
            i <= catalog@.len(),
            forall|j: int| 0 <= j < i ==> catalog@[j].charabase.name@ != target@,
        decreases catalog@.len() - i,
    {
        if catalog[i].charabase.name.eq(target) {
            return Some(i);
        }
        i = i + 1;
    }
    None
}

impl CharaConfig {
    /// Resolves a free-text name to the record of one of the three
    /// canonical identities. The input is tested, in a fixed priority
    /// order, against each identity's bare and prefixed alias,
    /// case-insensitively; an input matching no rule is rejected as
    /// `NameNotRecognized`, and a matching input whose canonical record is
    /// missing from the catalog as `RecordNotFound`.
    pub fn chara_new_noasync(catalog: &Vec<CharaConfig>, name_arg: &str) -> (r: Result<
        CharaConfig,
        CoreError,
    >)
        ensures
            resolved_name(name_arg@) is None ==> r == Err::<CharaConfig, CoreError>(
                CoreError::NameNotRecognized,
            ),
            resolved_name(name_arg@) matches Some(canon) ==> (if catalog_has(catalog@, canon) {
                r matches Ok(c) && resolves_to(catalog@, canon, c)
            } else {
                r == Err::<CharaConfig, CoreError>(CoreError::RecordNotFound)
            }),
    {
        let canon: &str = if eq_lower(name_arg, "reimu") || eq_lower(name_arg, "hakureireimu") {
            "博麗霊夢"
        } else if eq_lower(name_arg, "sakuya") || eq_lower(name_arg, "izayoisakuya") {
            "十六夜咲夜"
        } else if eq_lower(name_arg, "marisa") || eq_lower(name_arg, "kirisamemarisa") {
            "霧雨魔理沙"
        } else {
            return Err(CoreError::NameNotRecognized);
        };
        let target = canon.to_owned();
        match find_index(catalog, &target) {
            Some(i) => Ok(catalog[i].clone()),
            None => Err(CoreError::RecordNotFound),
        }
    }
}

/// Builds one validated character record out of one parsed TOML value: a
/// `charabase` table with a string `name`, an integer `hp` and a
/// non-negative integer `speed`, and a non-empty `attack` array whose
/// entries carry a `damage` amount that fits an unsigned 32-bit integer.
/// It succeeds exactly on documents of that shape, returning their data;
/// any other shape is a malformed file.
pub fn chara_from_value(v: &toml::Value) -> (r: Result<CharaConfig, CoreError>)
    ensures
        r is Ok <==> valid_chara_value(*v),
        r matches Ok(c) ==> c.wf() && record_matches_value(c, *v),
        r matches Err(e) ==> e == CoreError::ConfigParseError,
{
    let base = match toml_get(v, "charabase") {
        Some(b) => b,
        None => { return Err(CoreError::ConfigParseError) },
    };
    let name = match toml_get(base, "name") {
        Some(n) => match toml_as_str(n) {
            Some(s) => s,
            None => { return Err(CoreError::ConfigParseError) },
        },
        None => { return Err(CoreError::ConfigParseError) },
    };
    let hp = match toml_get(base, "hp") {
        Some(h) => match toml_as_integer(h) {
            Some(x) => x,
            None => { return Err(CoreError::ConfigParseError) },
        },
        None => { return Err(CoreError::ConfigParseError) },
    };
    let speed_raw = match toml_get(base, "speed") {
        Some(sp) => match toml_as_integer(sp) {
            Some(x) => x,
            None => { return Err(CoreError::ConfigParseError) },
        },
        None => { return Err(CoreError::ConfigParseError) },
    };
    if speed_raw < 0 {
        return Err(CoreError::ConfigParseError);
    }
    let entries = match toml_get(v, "attack") {
        Some(a) => match toml_as_array(a) {
            Some(arr) => arr,
            None => { return Err(CoreError::ConfigParseError) },
        },
        None => { return Err(CoreError::ConfigParseError) },
    };
    proof {
        assert(spec_entries(*v) == Some(entries@));
    }
    let mut attack: Vec<CharaAttack> = Vec::new();
    let mut i: usize = 0;
    while i < entries.len()
        invariant
            spec_entries(*v) == Some(entries@),
            attack@.len() == i,
            i <= entries@.len(),
            forall|j: int|
                0 <= j < i ==> Some(attack@[j].damage as i64) == #[trigger] spec_entry_damage(
                    entries@[j],
                ),
        decreases entries@.len() - i,
    {
        let damage_raw = match toml_get(&entries[i], "damage") {
            Some(d) => match toml_as_integer(d) {
                Some(x) => x,
                None => {
                    proof {
                        assert(spec_entry_damage(entries@[i as int]) is None);
                        assert(!valid_chara_value(*v));
                    }
                    return Err(CoreError::ConfigParseError);
                },
            },
            None => {
                proof {
                    assert(spec_entry_damage(entries@[i as int]) is None);
                    assert(!valid_chara_value(*v));
                }
                return Err(CoreError::ConfigParseError);
            },
        };
        if damage_raw < 0 || damage_raw > u32::MAX as i64 {
            proof {
                assert(spec_entry_damage(entries@[i as int]) == Some(damage_raw));
                assert(!valid_chara_value(*v));
            }
            return Err(CoreError::ConfigParseError);
        }
        attack.push(CharaAttack { damage: damage_raw as u32 });
        i = i + 1;
    }
    match CharaConfig::new(CharaBase { name, hp, speed: speed_raw as u64 }, attack) {
        Ok(c) => Ok(c),
        Err(_) => Err(CoreError::ConfigParseError),
    }
}

/// Loads the whole catalog out of the texts of the files found in the
/// catalog directory. `listing` is None when the path was no directory at
/// all, as the filesystem layer reports it; the order of the texts is
/// whatever order the filesystem yielded, and is not significant. The
/// load succeeds exactly when every file is a well-formed TOML document
/// of valid record shape, and then returns one record per file carrying
/// that file's data; it is all-or-nothing: one malformed file fails the
/// whole load with `ConfigParseError` and no records.
#[verifier::rlimit(50)]
pub fn load_catalog(listing: Option<Vec<String>>) -> (r: Result<Vec<CharaConfig>, CoreError>)
    ensures
        listing is None <==> r == Err::<Vec<CharaConfig>, CoreError>(CoreError::NotADirectory),
        listing is Some && r is Err ==> r == Err::<Vec<CharaConfig>, CoreError>(
            CoreError::ConfigParseError,
        ),
        listing matches Some(files) ==> ((r is Ok) <==> all_files_valid(files@)),
        r matches Ok(cs) ==> (listing matches Some(files) && cs@.len() == files@.len() && (forall|
            i: int,
        |
            0 <= i < cs@.len() ==> (#[trigger] cs@[i]).wf() && record_matches_value(
                cs@[i],
                toml_value_of(files@[i]@),
            ))),
{
    let files = match listing {
        Some(fs) => fs,
        None => { return Err(CoreError::NotADirectory) },
    };
    let mut out: Vec<CharaConfig> = Vec::new();
    let mut i: usize = 0;
    while i < files.len()
        invariant
            listing == Some(files),
            out@.len() == i,
            i <= files@.len(),
            forall|j: int| 0 <= j < i ==> (#[trigger] out@[j]).wf(),
            forall|j: int| 0 <= j < i ==> #[trigger] file_is_valid_record(files@[j]@),
            forall|j: int|
                0 <= j < i ==> record_matches_value(
                    #[trigger] out@[j],
                    toml_value_of(files@[j]@),
                ),
        decreases files@.len() - i,
    {
        let value = match toml_from_str(files[i].as_str()) {
            Some(val) => val,
            None => {
                proof {
                    assert(!file_is_valid_record(files@[i as int]@));
                    assert(!all_files_valid(files@));
                }
                return Err(CoreError::ConfigParseError);
            },
        };
        let rec = match chara_from_value(&value) {
            Ok(c) => c,
            Err(_) => {
                proof {
                    assert(!file_is_valid_record(files@[i as int]@));
                    assert(!all_files_valid(files@));
                }
                return Err(CoreError::ConfigParseError);
            },
        };
        out.push(rec);
        i = i + 1;
    }
    proof {
        assert(all_files_valid(files@));
    }
    Ok(out)
}

/// Resolution is case-insensitive: a free-text name and its ASCII
/// lowercasing resolve to the same canonical identity, or both fail.
pub proof fn lemma_resolution_case_insensitive(s: Seq<char>)
    ensures
        resolved_name(lower_seq(s)) == resolved_name(s),
{
    assert forall|c: char| #[trigger] lower_char(lower_char(c)) == lower_char(c) by {
    }
    assert(lower_seq(lower_seq(s)) =~= lower_seq(s)) by {
        assert forall|i: int| 0 <= i < s.len() implies lower_seq(lower_seq(s))[i] == lower_seq(s)[i]
        by {
            assert(lower_seq(s)[i] == lower_char(s[i]));
            assert(lower_seq(lower_seq(s))[i] == lower_char(lower_seq(s)[i]));
        }
    }
}

} // verus!
