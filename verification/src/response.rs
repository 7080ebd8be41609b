//! What a load hands back to JavaScript.

use std::sync::Arc;

use vstd::prelude::*;
use vstd::slice::slice_to_vec;

use crate::media::media_type_to_u8;
use crate::media::MediaType;
use crate::source_map::extract_inline_source_map;

verus! {

/// A loaded module.
pub struct LoadResponse {
    pub specifier: String,
    pub media_type: u8,
    pub code: Arc<[u8]>,
}

/// A value that a property of a JavaScript object takes.
pub enum PropertyValue {
    Text(String),
    Number(u8),
    Flag(bool),
    Bytes(Vec<u8>),
}

/// What a [`PropertyValue`] holds.
pub enum PropertyContent {
    Text(Seq<char>),
    Number(u8),
    Flag(bool),
    Bytes(Seq<u8>),
}

impl View for PropertyValue {
    type V = PropertyContent;

    open spec fn view(&self) -> PropertyContent {
        match *self {
            PropertyValue::Text(text) => PropertyContent::Text(text@),
            PropertyValue::Number(number) => PropertyContent::Number(number),
            PropertyValue::Flag(flag) => PropertyContent::Flag(flag),
            PropertyValue::Bytes(bytes) => PropertyContent::Bytes(bytes@),
        }
    }
}

/// A property to set on a JavaScript object.
pub struct Property {
    pub key: &'static str,
    pub value: PropertyValue,
}

impl View for Property {
    type V = (Seq<char>, PropertyContent);

    open spec fn view(&self) -> (Seq<char>, PropertyContent) {
        (self.key@, self.value@)
    }
}

/// The properties, in the order in which they are set.
pub open spec fn properties_view(properties: Seq<Property>) -> Seq<(Seq<char>, PropertyContent)> {
    properties.map_values(|property: Property| property@)
}

/// The properties of a loaded module. Only a module that is turned into
/// JavaScript can come with a source map.
pub open spec fn module_response(
    url: Seq<char>,
    media_type: MediaType,
    source: Seq<u8>,
) -> Seq<(Seq<char>, PropertyContent)> {
    let always = seq![
        ("kind"@, PropertyContent::Text("module"@)),
        ("specifier"@, PropertyContent::Text(url)),
        ("mediaType"@, PropertyContent::Number(crate::media::media_type_number(media_type))),
        ("code"@, PropertyContent::Bytes(source)),
    ];
    if media_type.emittable() {
        match crate::source_map::inline_source_map(source) {
            Some(map) => always.push(("sourceMap"@, PropertyContent::Bytes(map))),
            None => always,
        }
    } else {
        always
    }
}

/// The properties of a module that the caller's own runtime provides.
pub open spec fn external_response(url: Seq<char>) -> Seq<(Seq<char>, PropertyContent)> {
    seq![("kind"@, PropertyContent::Text("external"@)), ("specifier"@, PropertyContent::Text(url))]
}

fn text_property(key: &'static str, text: &str) -> (property: Property)
    ensures
        property@ == (key@, PropertyContent::Text(text@)),
{
    Property { key, value: PropertyValue::Text(text.to_owned()) }
}

/// The properties of a loaded module.
pub fn create_module_response(url: &str, media_type: MediaType, source: &[u8]) -> (properties: Vec<
    Property,
>)
    ensures
        properties_view(properties@) == module_response(url@, media_type, source@),
{
    let source_map: Option<Vec<u8>> = if media_type.is_emittable() {
        extract_inline_source_map(source)
    } else {
        None
    };
    let mut properties: Vec<Property> = Vec::new();
    properties.push(text_property("kind", "module"));
    properties.push(text_property("specifier", url));
    properties.push(
        Property {
            key: "mediaType",
            value: PropertyValue::Number(media_type_to_u8(media_type)),
        },
    );
    properties.push(
        Property { key: "code", value: PropertyValue::Bytes(slice_to_vec(source)) },
    );
    if let Some(map) = source_map {
        properties.push(Property { key: "sourceMap", value: PropertyValue::Bytes(map) });
    }
    assert(properties_view(properties@) =~= module_response(url@, media_type, source@));
    properties
}

/// The properties of a module that the caller's own runtime provides.
pub fn create_external_repsonse(url: &str) -> (properties: Vec<Property>)
    ensures
        properties_view(properties@) == external_response(url@),
{
    let mut properties: Vec<Property> = Vec::new();
    properties.push(text_property("kind", "external"));
    properties.push(text_property("specifier", url));
    assert(properties_view(properties@) =~= external_response(url@));
    properties
}

/// A module that is not turned into JavaScript is handed back with its four
/// properties, whatever comments its source holds.
pub proof fn law_only_emitted_modules_have_source_maps(
    url: Seq<char>,
    media_type: MediaType,
    source: Seq<u8>,
)
    ensures
        module_response(url, media_type, source).len() == 5 <==> media_type.emittable()
            && crate::source_map::inline_source_map(source) is Some,
        !media_type.emittable() ==> module_response(url, media_type, source).len() == 4,
{
}

/// The code handed back is the source, byte for byte.
pub proof fn law_code_is_the_source(url: Seq<char>, media_type: MediaType, source: Seq<u8>)
    ensures
        module_response(url, media_type, source)[3] == ("code"@, PropertyContent::Bytes(source)),
{
}

/// A module is handed back with its kind, its URL, the number of its media type
/// and its code, in this order and byte for byte. A fifth property is the source
/// map: there is one exactly when the module is TypeScript or JSX, in any of their
/// five forms, and its source holds an inline one.
pub proof fn law_module_response_says_what_was_loaded(
    url: &str,
    media_type: MediaType,
    source: &[u8],
    properties: Vec<Property>,
)
    requires
        call_ensures(create_module_response, (url, media_type, source), properties),
    ensures
        4 <= properties@.len() <= 5,
        properties@[0].key@ == "kind"@,
        properties@[0].value matches PropertyValue::Text(kind) && kind@ == "module"@,
        properties@[1].key@ == "specifier"@,
        properties@[1].value matches PropertyValue::Text(specifier) && specifier@ == url@,
        properties@[2].key@ == "mediaType"@,
        properties@[2].value matches PropertyValue::Number(number) && number
            == crate::media::media_type_number(media_type),
        properties@[3].key@ == "code"@,
        properties@[3].value matches PropertyValue::Bytes(code) && code@ == source@,
        properties@.len() == 5 <==> (media_type == MediaType::TypeScript || media_type
            == MediaType::Mts || media_type == MediaType::Cts || media_type == MediaType::Jsx
            || media_type == MediaType::Tsx) && crate::source_map::inline_source_map(source@)
            is Some,
        properties@.len() == 5 ==> properties@[4].key@ == "sourceMap"@ && (properties@[4].value
            matches PropertyValue::Bytes(map) && crate::source_map::inline_source_map(source@)
            == Some(map@)),
{
    let view = properties_view(properties@);
    assert(view.len() == properties@.len());
    assert forall|i: int| 0 <= i < properties@.len() implies view[i] == (#[trigger] properties@[i])@
        by {}
    assert(view[0] == properties@[0]@ && view[1] == properties@[1]@);
    assert(view[2] == properties@[2]@ && view[3] == properties@[3]@);
    if properties@.len() == 5 {
        assert(view[4] == properties@[4]@);
    }
}

/// A module of the caller's own runtime is handed back with its kind and its URL,
/// and nothing else.
pub proof fn law_external_response_says_where_it_is(url: &str, properties: Vec<Property>)
    requires
        call_ensures(create_external_repsonse, (url,), properties),
    ensures
        properties@.len() == 2,
        properties@[0].key@ == "kind"@,
        properties@[0].value matches PropertyValue::Text(kind) && kind@ == "external"@,
        properties@[1].key@ == "specifier"@,
        properties@[1].value matches PropertyValue::Text(specifier) && specifier@ == url@,
{
    let view = properties_view(properties@);
    assert(view.len() == properties@.len());
    assert(view[0] == properties@[0]@ && view[1] == properties@[1]@);
}

/// The properties are seen as they are: each with its own key and value, in
/// order.
pub proof fn law_properties_are_seen_as_they_are(properties: Seq<Property>, i: int)
    requires
        0 <= i < properties.len(),
    ensures
        properties_view(properties).len() == properties.len(),
        properties_view(properties)[i].0 == properties[i].key@,
        properties[i].value matches PropertyValue::Text(text) ==> properties_view(properties)[i].1
            == PropertyContent::Text(text@),
        properties[i].value matches PropertyValue::Number(number) ==> properties_view(
            properties,
        )[i].1 == PropertyContent::Number(number),
        properties[i].value matches PropertyValue::Flag(flag) ==> properties_view(properties)[i].1
            == PropertyContent::Flag(flag),
        properties[i].value matches PropertyValue::Bytes(bytes) ==> properties_view(
            properties,
        )[i].1 == PropertyContent::Bytes(bytes@),
{
}

} // verus!
