//! Names and paths that generated registration code is given.
//!
//! Every generated item needs a name that no other generated item has. The
//! name is a fixed prefix followed by the SHA-256 digest of the texts that
//! tell the item apart.

use vstd::prelude::*;
use vstd::string::StringExecFns;
use itertools::Itertools;

verus! {

/// The SHA-256 digest of a text's UTF-8 bytes, written in hexadecimal.
pub uninterp spec fn sha256_hex(text: Seq<char>) -> Seq<char>;

/// A text without the white space at its two ends.
pub uninterp spec fn trimmed(text: Seq<char>) -> Seq<char>;

/// `parts` one after another, with `sep` between each two of them.
pub open spec fn joined(parts: Seq<Seq<char>>, sep: Seq<char>) -> Seq<char>
    decreases parts.len(),
{
    if parts.len() == 0 {
        Seq::empty()
    } else if parts.len() == 1 {
        parts[0]
    } else {
        joined(parts.drop_last(), sep) + sep + parts.last()
    }
}

/// What each of `parts` reads.
pub open spec fn texts(parts: Seq<String>) -> Seq<Seq<char>> {
    parts.map_values(|part: String| part@)
}

/// Calls `sha256::digest` on `text`. That function hashes the bytes of the
/// text with SHA-256 and writes the hash in hexadecimal; the result depends
/// on the text alone.
#[verifier::external_body]
fn digest(text: &str) -> (hex: String)
    ensures
        hex@ == sha256_hex(text@),
{
    sha256::digest(text)
}

/// Calls `Itertools::join` on the items of `parts`. That method writes the
/// first item, then for every further item the separator and the item, each
/// item as its `Display` shows it, which for a `String` is its own text.
#[verifier::external_body]
fn join(parts: &[String], sep: &str) -> (text: String)
    ensures
        text@ == joined(texts(parts@), sep@),
{
    parts.iter().join(sep)
}

/// Calls `str::trim`, which returns the text without leading and trailing
/// white space.
#[verifier::external_body]
fn trim(text: &str) -> (inner: &str)
    ensures
        inner@ == trimmed(text@),
{
    text.trim()
}

/// A crate as it was looked up among the dependencies of the crate that is
/// being compiled.
#[derive(Debug)]
pub enum FoundCrate {
    /// The crate looked for is the one being compiled.
    Itself,
    /// The crate looked for is a dependency, under this name.
    Name(String),
}

/// `prefix` followed by `digest`.
pub fn prefixed(prefix: &str, digest: &str) -> (name: String)
    ensures
        name@ == prefix@ + digest@,
{
    let mut name = String::from_str(prefix);
    name.append(digest);
    name
}

/// The name of the item that registers a state for `plugin` with the generic
/// arguments `generics`, both as written in the source.
pub fn state_ident(plugin: &str, generics: &str) -> (name: String)
    ensures
        name@ == "_butler_state_"@ + sha256_hex(plugin@ + generics@),
{
    let mut told = String::from_str(plugin);
    told.append(generics);
    let hex = digest(told.as_str());
    prefixed("_butler_state_", hex.as_str())
}

/// The name of the item that registers the system set `set` with `plugin`
/// for `schedule`, all three as written in the source.
pub fn system_set_ident(plugin: &str, schedule: &str, set: &str) -> (name: String)
    ensures
        name@ == "_butler_sys_set_"@ + sha256_hex(plugin@ + schedule@ + set@),
{
    let mut told = String::from_str(plugin);
    told.append(schedule);
    told.append(set);
    let hex = digest(told.as_str());
    prefixed("_butler_sys_set_", hex.as_str())
}

/// The transforms of a system as one chain of calls, `a.b.c`. Where the
/// chain would read nothing there is none.
pub fn transform_chain(transforms: &[String]) -> (chain: Option<String>)
    ensures
        chain is None <==> joined(texts(transforms@), "."@).len() == 0,
        chain matches Some(text) ==> text@ == joined(texts(transforms@), "."@),
{
    let text = join(transforms, ".");
    chain_of(text)
}

/// The chain that the joined text `text` stands for: none where it is empty.
pub fn chain_of(text: String) -> (chain: Option<String>)
    ensures
        chain is None <==> text@.len() == 0,
        chain matches Some(kept) ==> kept == text,
{
    if text.as_str().is_empty() {
        None
    } else {
        Some(text)
    }
}

/// The path under which the part `supercrate` of the umbrella crate is
/// reached, where the umbrella crate was found as `found`.
pub fn path_in_umbrella(found: &FoundCrate, supercrate: &str) -> (path: String)
    ensures
        path@ == match *found {
            FoundCrate::Itself => "crate::"@ + supercrate@,
            FoundCrate::Name(name) => "::"@ + name@ + "::"@ + supercrate@,
        },
{
    match found {
        FoundCrate::Itself => prefixed("crate::", supercrate),
        FoundCrate::Name(name) => {
            let mut path = prefixed("::", name.as_str());
            path.append("::");
            path.append(supercrate);
            path
        },
    }
}

/// The path under which a crate is reached that was found as `found`.
pub fn path_of_crate(found: &FoundCrate) -> (path: String)
    ensures
        path@ == match *found {
            FoundCrate::Itself => "crate"@,
            FoundCrate::Name(name) => "::"@ + name@,
        },
{
    match found {
        FoundCrate::Itself => String::from_str("crate"),
        FoundCrate::Name(name) => prefixed("::", name.as_str()),
    }
}

/// The path under which a part of the umbrella crate is reached: through the
/// umbrella crate where that was found, else through the crate `subcrate`
/// that holds the part alone, where that was found. Where neither was found
/// there is no path.
pub fn find_bevy_crate(
    umbrella: Option<FoundCrate>,
    subcrate: Option<FoundCrate>,
    supercrate: &str,
) -> (path: Option<String>)
    ensures
        path is None <==> umbrella is None && subcrate is None,
        path matches Some(text) ==> text@ == match umbrella {
            Some(FoundCrate::Itself) => "crate::"@ + supercrate@,
            Some(FoundCrate::Name(name)) => "::"@ + name@ + "::"@ + supercrate@,
            None => match subcrate {
                Some(FoundCrate::Itself) => "crate"@,
                Some(FoundCrate::Name(name)) => "::"@ + name@,
                None => Seq::<char>::empty(),
            },
        },
{
    match umbrella {
        Some(found) => Some(path_in_umbrella(&found, supercrate)),
        None => match subcrate {
            Some(found) => Some(path_of_crate(&found)),
            None => None,
        },
    }
}

/// The path under which this runtime is reached from generated code.
pub fn find_bevy_butler(found: &FoundCrate) -> (path: String)
    ensures
        path@ == match *found {
            FoundCrate::Itself => "::bevy_butler"@,
            FoundCrate::Name(name) => "::"@ + trimmed(name@),
        },
{
    match found {
        FoundCrate::Itself => String::from_str("::bevy_butler"),
        FoundCrate::Name(name) => prefixed("::", trim(name.as_str())),
    }
}

} // verus!
