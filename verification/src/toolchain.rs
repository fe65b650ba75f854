//! The toolchain pin: the channel declared by a `rust-toolchain.toml`
//! document, used to override the toolchain-pinning environment variable of
//! spawned commands.

use vstd::prelude::*;

verus! {

/// The channel string under the `toolchain` table of a TOML document, if
/// any; the result of parsing the document, a function of its text alone.
pub uninterp spec fn toml_channel(s: Seq<char>) -> Option<Seq<char>>;

/// Relies on `toml::from_str`, `toml::map::Map::get`, `toml::Value::get`
/// and `toml::Value::as_str`: the channel under the `toolchain` table is a
/// function of the document alone.
#[verifier::external_body]
fn toml_toolchain_channel(data: &str) -> (r: Option<String>)
    ensures
        r is Some <==> toml_channel(data@) is Some,
        r matches Some(c) ==> toml_channel(data@) == Some(c@),
{
    let table: toml::Table = match toml::from_str(data) {
        Ok(t) => t,
        Err(_) => return None,
    };
    table.get("toolchain").and_then(|t| t.get("channel")).and_then(|c| c.as_str()).map(
        String::from,
    )
}

/// The name of the toolchain-pinning environment variable.
pub fn toolchain_env_var() -> (r: &'static str)
    ensures
        r@ == "RUSTUP_TOOLCHAIN"@,
{
    "RUSTUP_TOOLCHAIN"
}

/// A pinned toolchain channel.
pub struct Toolchain(pub String);

impl Toolchain {
    /// Read the channel out of a `rust-toolchain.toml` document.
    pub fn from_str(data: &str) -> (r: Option<Toolchain>)
        ensures
            r is Some <==> toml_channel(data@) is Some,
            r matches Some(t) ==> toml_channel(data@) == Some(t.0@),
    {
        match toml_toolchain_channel(data) {
            Some(channel) => Some(Toolchain(channel)),
            None => None,
        }
    }
}

} // verus!
