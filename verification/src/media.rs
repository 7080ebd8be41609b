//! Media types of modules.

use vstd::prelude::*;

verus! {

/// What kind of source a module is.
#[derive(Clone, Copy, Debug, PartialEq, Eq, Structural)]
pub enum MediaType {
    JavaScript,
    Jsx,
    Mjs,
    Cjs,
    TypeScript,
    Mts,
    Cts,
    Dts,
    Dmts,
    Dcts,
    Tsx,
    Css,
    Json,
    Jsonc,
    Json5,
    Html,
    Markdown,
    Sql,
    Wasm,
    SourceMap,
    Unknown,
}

impl MediaType {
    /// Whether sources of this type are turned into JavaScript.
    pub open spec fn emittable(self) -> bool {
        self is TypeScript || self is Mts || self is Cts || self is Jsx || self is Tsx
    }

    /// Whether sources of this type are turned into JavaScript.
    pub fn is_emittable(self) -> (emittable: bool)
        ensures
            emittable == self.emittable(),
    {
        match self {
            MediaType::TypeScript
            | MediaType::Mts
            | MediaType::Cts
            | MediaType::Jsx
            | MediaType::Tsx => true,
            _ => false,
        }
    }
}

/// The number by which JavaScript callers know a media type.
pub open spec fn media_type_number(media_type: MediaType) -> u8 {
    match media_type {
        MediaType::JavaScript => 0,
        MediaType::Jsx => 1,
        MediaType::Mjs => 2,
        MediaType::Cjs => 3,
        MediaType::TypeScript => 4,
        MediaType::Mts => 5,
        MediaType::Cts => 6,
        MediaType::Dts => 7,
        MediaType::Dmts => 8,
        MediaType::Dcts => 9,
        MediaType::Tsx => 10,
        MediaType::Css => 11,
        MediaType::Json => 12,
        MediaType::Jsonc => 13,
        MediaType::Json5 => 14,
        MediaType::Html => 15,
        MediaType::Markdown => 16,
        MediaType::Sql => 17,
        MediaType::Wasm => 18,
        MediaType::SourceMap => 19,
        MediaType::Unknown => 20,
    }
}

/// The number by which JavaScript callers know a media type.
pub fn media_type_to_u8(media_type: MediaType) -> (number: u8)
    ensures
        number == media_type_number(media_type),
{
    match media_type {
        MediaType::JavaScript => 0,
        MediaType::Jsx => 1,
        MediaType::Mjs => 2,
        MediaType::Cjs => 3,
        MediaType::TypeScript => 4,
        MediaType::Mts => 5,
        MediaType::Cts => 6,
        MediaType::Dts => 7,
        MediaType::Dmts => 8,
        MediaType::Dcts => 9,
        MediaType::Tsx => 10,
        MediaType::Css => 11,
        MediaType::Json => 12,
        MediaType::Jsonc => 13,
        MediaType::Json5 => 14,
        MediaType::Html => 15,
        MediaType::Markdown => 16,
        MediaType::Sql => 17,
        MediaType::Wasm => 18,
        MediaType::SourceMap => 19,
        MediaType::Unknown => 20,
    }
}

/// No two media types have the same number.
pub proof fn law_media_type_numbers_differ(a: MediaType, b: MediaType)
    ensures
        media_type_number(a) == media_type_number(b) <==> a == b,
{
}

/// The numbers run from 0 to 20 without a gap.
pub proof fn law_media_type_numbers_are_dense(number: u8)
    ensures
        (exists|m: MediaType| #[trigger] media_type_number(m) == number) <==> number <= 20,
{
    if number <= 20 {
        let m = if number == 0 {
            MediaType::JavaScript
        } else if number == 1 {
            MediaType::Jsx
        } else if number == 2 {
            MediaType::Mjs
        } else if number == 3 {
            MediaType::Cjs
        } else if number == 4 {
            MediaType::TypeScript
        } else if number == 5 {
            MediaType::Mts
        } else if number == 6 {
            MediaType::Cts
        } else if number == 7 {
            MediaType::Dts
        } else if number == 8 {
            MediaType::Dmts
        } else if number == 9 {
            MediaType::Dcts
        } else if number == 10 {
            MediaType::Tsx
        } else if number == 11 {
            MediaType::Css
        } else if number == 12 {
            MediaType::Json
        } else if number == 13 {
            MediaType::Jsonc
        } else if number == 14 {
            MediaType::Json5
        } else if number == 15 {
            MediaType::Html
        } else if number == 16 {
            MediaType::Markdown
        } else if number == 17 {
            MediaType::Sql
        } else if number == 18 {
            MediaType::Wasm
        } else if number == 19 {
            MediaType::SourceMap
        } else {
            MediaType::Unknown
        };
        assert(media_type_number(m) == number);
    }
}

/// The media types in the order of their numbers.
pub open spec fn media_types_in_order() -> Seq<MediaType> {
    seq![
        MediaType::JavaScript,
        MediaType::Jsx,
        MediaType::Mjs,
        MediaType::Cjs,
        MediaType::TypeScript,
        MediaType::Mts,
        MediaType::Cts,
        MediaType::Dts,
        MediaType::Dmts,
        MediaType::Dcts,
        MediaType::Tsx,
        MediaType::Css,
        MediaType::Json,
        MediaType::Jsonc,
        MediaType::Json5,
        MediaType::Html,
        MediaType::Markdown,
        MediaType::Sql,
        MediaType::Wasm,
        MediaType::SourceMap,
        MediaType::Unknown,
    ]
}

/// The number of a media type is its place in the order.
pub proof fn law_number_is_the_place_in_the_order(media_type: MediaType, number: u8)
    requires
        call_ensures(media_type_to_u8, (media_type,), number),
    ensures
        number < media_types_in_order().len(),
        media_types_in_order()[number as int] == media_type,
        media_type_number(media_type) == number,
{
}

/// The media types that are turned into JavaScript are TypeScript and JSX, in any
/// of their five forms. Declarations are not.
pub proof fn law_typescript_and_jsx_are_emittable(media_type: MediaType, emittable: bool)
    requires
        call_ensures(MediaType::is_emittable, (media_type,), emittable),
    ensures
        emittable <==> (media_type == MediaType::TypeScript || media_type == MediaType::Mts
            || media_type == MediaType::Cts || media_type == MediaType::Jsx || media_type
            == MediaType::Tsx),
{
}

} // verus!
