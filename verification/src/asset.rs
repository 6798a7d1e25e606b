//! The traits that asset types implement, and the formats that decode them.
use vstd::prelude::*;

use crate::error::Report;

verus! {

/// An asset type that can be built from a decoded representation.
pub trait Asset: Sized {
    /// Decoded representation of this asset.
    type Decoded;
    /// Decoding error.
    type DecodeError;
    /// Building error.
    type BuildError;

    /// Asset name.
    fn name() -> &'static str;
}

/// Asset building with a builder of type `B`.
pub trait AssetBuild<B>: Asset {
    /// Builds the asset instance from its decoded representation.
    fn build(decoded: Self::Decoded, builder: &mut B) -> Result<Self, Self::BuildError>;
}

/// Simple assets have no dependencies: they are decoded synchronously.
pub trait SimpleAsset: Asset {
    /// Decodes the asset synchronously.
    fn decode(bytes: Vec<u8>) -> Result<Self::Decoded, Self::DecodeError>;
}

/// Trivial assets have no dependencies and need no building: they are decoded
/// directly from bytes.
pub trait TrivialAsset: Sized {
    type Error;

    /// Asset name.
    fn name() -> &'static str;

    /// Decodes the asset directly.
    fn decode(bytes: Vec<u8>) -> Result<Self, Self::Error>;
}

/// Assets whose building takes no builder.
pub trait TrivialAssetBuild: AssetBuild<()> {

}

/// Shortcut for assets whose building is synchronous.
pub trait SyncAsset: Sized {
    /// Error that may occur during building.
    type Error;
    /// Context needed to build the asset.
    type Context;
    /// Intermediate representation produced by a format.
    type Repr;

    /// Builds the asset from its intermediate representation.
    fn build(repr: Self::Repr, ctx: &mut Self::Context) -> Result<Self, Self::Error>;
}

/// Context of assets that need none.
#[derive(Debug, Clone, Copy, Default)]
pub struct PhantomContext;

/// Format that decodes an asset directly from bytes.
pub trait SimpleFormat<A, K> {
    fn decode_simple(self, key: K, bytes: Vec<u8>) -> Result<A, Report>;
}

/// Default format of an asset type.
pub trait AssetDefaultFormat<K> {
    type DefaultFormat;
}

/// Format that passes the bytes through as they are.
#[derive(Clone, Copy, Debug, Default, PartialEq, Eq, Hash)]
pub struct PassthroughFormat;

impl<K> SimpleFormat<Vec<u8>, K> for PassthroughFormat {
    /// The asset is the bytes themselves; decoding never fails.
    fn decode_simple(self, key: K, bytes: Vec<u8>) -> (r: Result<Vec<u8>, Report>)
        ensures
            r matches Ok(v) && v@ == bytes@,
    {
        Ok(bytes)
    }
}

impl PassthroughFormat {
    /// The asset is the bytes themselves.
    pub fn decode(self, bytes: Vec<u8>) -> (r: Vec<u8>)
        ensures
            r@ == bytes@,
    {
        bytes
    }
}

/// Format that reads the bytes as a JSON document.
#[derive(Clone, Copy, Debug, Default, PartialEq, Eq, Hash)]
pub struct JsonFormat;

/// Format that reads the bytes as a YAML document.
#[derive(Clone, Copy, Debug, Default, PartialEq, Eq, Hash)]
pub struct YamlFormat;

/// Format that reads the bytes as a RON document.
#[derive(Clone, Copy, Debug, Default, PartialEq, Eq, Hash)]
pub struct RonFormat;

/// Encoding of the information an asset is decoded from.
#[derive(Clone, Copy, Debug, PartialEq, Eq, Structural)]
pub enum InfoEncoding {
    Json,
    Bincode,
}

/// What a derived asset decoder does next.
#[derive(Clone, Copy, Debug, PartialEq, Eq, Structural)]
pub enum InfoStep {
    /// Decode with this encoding.
    Decode(InfoEncoding),
    /// Give up with the JSON error.
    FailJson,
}

/// First encoding a derived asset decoder tries: empty bytes are certainly
/// bincode, anything else is tried as JSON first.
pub fn first_info_encoding(len: usize) -> (r: InfoEncoding)
    ensures
        r == (if len == 0 {
            InfoEncoding::Bincode
        } else {
            InfoEncoding::Json
        }),
{
    if len == 0 {
        InfoEncoding::Bincode
    } else {
        InfoEncoding::Json
    }
}

/// Step after JSON decoding failed: a syntax error means the bytes are not
/// JSON, so bincode is tried; any other JSON error is the decoding error.
pub fn after_json_error(syntax_error: bool) -> (r: InfoStep)
    ensures
        r == (if syntax_error {
            InfoStep::Decode(InfoEncoding::Bincode)
        } else {
            InfoStep::FailJson
        }),
{
    if syntax_error {
        InfoStep::Decode(InfoEncoding::Bincode)
    } else {
        InfoStep::FailJson
    }
}

/// Marker of sources whose reads can serve as local reads.
pub trait AutoLocalSource {

}

/// Keys by which assets are cached.
pub trait Key: Clone {

}

impl<T: Clone> Key for T {

}

/// Marker of types that may move between threads where the loader is
/// single-threaded.
pub trait Send {

}

impl<T> Send for T {

}

/// Marker of types that may be shared between threads where the loader is
/// single-threaded.
pub trait Sync {

}

impl<T> Sync for T {

}

/// Spawner for browsers.
#[derive(Clone, Copy, Debug, Default)]
pub struct WasmBindgen;

} // verus!
