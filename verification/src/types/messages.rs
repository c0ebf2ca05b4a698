//! Stickers and emoji.
use vstd::prelude::*;

use crate::types::snowflakes::Snowflake;
use crate::types::users::User;

verus! {

/// Who issues a sticker.
#[derive(Clone, Copy, PartialEq, Eq, Structural, Debug)]
pub enum StickerType {
    Standard,
    Guild,
}

/// The wire value of a sticker type.
pub open spec fn spec_sticker_type_code(t: StickerType) -> u64 {
    match t {
        StickerType::Standard => 1,
        StickerType::Guild => 2,
    }
}

impl StickerType {
    /// The wire value of this sticker type.
    pub fn code(&self) -> (r: u64)
        ensures
            r == spec_sticker_type_code(*self),
    {
        match self {
            StickerType::Standard => 1,
            StickerType::Guild => 2,
        }
    }
}

/// The media format of a sticker.
#[derive(Clone, Copy, PartialEq, Eq, Structural, Debug)]
pub enum StickerFormat {
    Png,
    Apng,
    Lottie,
}

/// The wire value of a sticker format.
pub open spec fn spec_sticker_format_code(f: StickerFormat) -> u64 {
    match f {
        StickerFormat::Png => 1,
        StickerFormat::Apng => 2,
        StickerFormat::Lottie => 3,
    }
}

impl StickerFormat {
    /// The wire value of this sticker format.
    pub fn code(&self) -> (r: u64)
        ensures
            r == spec_sticker_format_code(*self),
    {
        match self {
            StickerFormat::Png => 1,
            StickerFormat::Apng => 2,
            StickerFormat::Lottie => 3,
        }
    }
}

/// A sticker.
#[derive(Clone, Debug)]
pub struct Sticker {
    pub id: Snowflake,
    pub pack_id: Option<Snowflake>,
    pub name: String,
    pub description: Option<String>,
    pub tags: Option<String>,
    pub m_type: Option<StickerType>,
    pub format_type: StickerFormat,
    pub available: Option<bool>,
    pub guild_id: Option<Snowflake>,
    pub user: Option<User>,
    pub sort_value: Option<i32>,
}

/// A pack of standard stickers.
#[derive(Clone, Debug)]
pub struct StickerPack {
    pub id: Snowflake,
    pub name: String,
    pub sku_id: Snowflake,
    pub cover_sticker_id: Option<Snowflake>,
    pub description: String,
    pub stickers: Vec<Sticker>,
}

/// A custom emoji.
#[derive(Clone, Copy, PartialEq, Eq, Structural, Debug)]
pub struct Emoji {
    pub id: Snowflake,
}

} // verus!
