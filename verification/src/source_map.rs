//! Inline source maps: the comment at the end of transpiled code that holds
//! the map as base64.

use vstd::prelude::*;
use vstd::utf8::*;

use crate::host::decode_base64;
use crate::host::utf8_text;
use crate::text::trim_end;

verus! {

/// What precedes the base64 text of an inline source map.
pub const SOURCE_MAP_PREFIX: &'static str = "//# sourceMappingURL=data:application/json;base64,";

/// The encoding of [`SOURCE_MAP_PREFIX`].
pub open spec fn prefix_bytes() -> Seq<u8> {
    encode_utf8(SOURCE_MAP_PREFIX@)
}

/// Whether `pattern` stands in `bytes` at index `i`.
pub open spec fn occurs_at(bytes: Seq<u8>, pattern: Seq<u8>, i: int) -> bool {
    &&& 0 <= i
    &&& i + pattern.len() <= bytes.len()
    &&& bytes.subrange(i, i + pattern.len()) == pattern
}

/// Whether `i` is the index of the last occurrence of `pattern` in `bytes`.
pub open spec fn is_last_occurrence(bytes: Seq<u8>, pattern: Seq<u8>, i: int) -> bool {
    &&& occurs_at(bytes, pattern, i)
    &&& forall|j: int| i < j ==> !occurs_at(bytes, pattern, j)
}

/// The index of the last occurrence of `pattern` in `bytes`, if there is one.
pub open spec fn last_occurrence(bytes: Seq<u8>, pattern: Seq<u8>) -> Option<int> {
    if exists|i: int| is_last_occurrence(bytes, pattern, i) {
        Some(choose|i: int| is_last_occurrence(bytes, pattern, i))
    } else {
        None
    }
}

/// The base64 text of the last inline source map in `source`: what follows the
/// last prefix, without trailing white space. There is none where `source` is
/// not UTF-8, or holds no prefix.
pub open spec fn source_map_text(source: Seq<u8>) -> Option<Seq<char>> {
    if !valid_utf8(source) {
        None
    } else {
        match last_occurrence(source, prefix_bytes()) {
            None => None,
            Some(i) => Some(
                crate::text::trimmed_end(decode_utf8(source.skip(i + prefix_bytes().len()))),
            ),
        }
    }
}

fn occurs(bytes: &[u8], pattern: &[u8], i: usize) -> (found: bool)
    requires
        i + pattern@.len() <= bytes@.len(),
    ensures
        found == occurs_at(bytes@, pattern@, i as int),
{
    let len: usize = pattern.len();
    let total: usize = bytes.len();
    for k in 0..len
        invariant
            len == pattern@.len(),
            total == bytes@.len(),
            i + len <= total,
            forall|j: int| 0 <= j < k ==> bytes@[i + j] == pattern@[j],
    {
        if bytes[i + k] != pattern[k] {
            assert(bytes@.subrange(i as int, i + pattern@.len())[k as int] == bytes@[i + k]);
            return false;
        }
    }
    assert(bytes@.subrange(i as int, i + pattern@.len()) =~= pattern@);
    true
}

/// Finds the last occurrence of `pattern` in `bytes`.
pub fn find_last(bytes: &[u8], pattern: &[u8]) -> (at: Option<usize>)
    ensures
        at matches Some(i) ==> last_occurrence(bytes@, pattern@) == Some(i as int)
            && is_last_occurrence(bytes@, pattern@, i as int),
        at is None ==> last_occurrence(bytes@, pattern@) is None,
{
    if bytes.len() < pattern.len() {
        return None;
    }
    let mut end: usize = bytes.len() - pattern.len();
    loop
        invariant
            end + pattern@.len() <= bytes@.len(),
            forall|j: int| end < j ==> !occurs_at(bytes@, pattern@, j),
        decreases end,
    {
        if occurs(bytes, pattern, end) {
            assert(is_last_occurrence(bytes@, pattern@, end as int));
            let ghost chosen = choose|i: int| is_last_occurrence(bytes@, pattern@, i);
            assert(chosen == end) by {
                if chosen < end {
                    assert(!occurs_at(bytes@, pattern@, end as int));
                }
            }
            return Some(end);
        }
        if end == 0 {
            return None;
        }
        end = end - 1;
    }
}

/// An index in valid UTF-8 that follows an ASCII byte is a character boundary.
proof fn lemma_boundary_after_ascii(bytes: Seq<u8>, i: int)
    requires
        valid_utf8(bytes),
        0 < i <= bytes.len(),
        bytes[i - 1] < 0x80,
    ensures
        is_char_boundary(bytes, i),
    decreases bytes.len(),
{
    let n = length_of_first_scalar(bytes);
    let rest = pop_first_scalar(bytes);
    if i == n {
        assert(is_char_boundary(rest, 0));
    } else if i < n {
        assert(bytes[i - 1] < 0x80);
        assert(valid_first_scalar(bytes));
        utf8_byte_ranges_bitwise(bytes[i - 1]);
        utf8_byte_ranges_bitwise(bytes[0]);
        assert(false);
    } else {
        assert(rest[i - n - 1] == bytes[i - 1]);
        lemma_boundary_after_ascii(rest, i - n);
    }
}

proof fn lemma_prefix_is_ascii()
    ensures
        prefix_bytes().len() == SOURCE_MAP_PREFIX@.len(),
        prefix_bytes().len() > 3,
        forall|i: int| 0 <= i < prefix_bytes().len() ==> #[trigger] prefix_bytes()[i] < 0x80,
        forall|i: int|
            0 <= i < prefix_bytes().len() ==> (#[trigger] prefix_bytes()[i] == 0x23u8 <==> i == 2),
        prefix_bytes()[0] == 0x2fu8,
        prefix_bytes()[prefix_bytes().len() - 2] == 0x34u8,
        prefix_bytes()[prefix_bytes().len() - 1] == 0x2cu8,
{
    reveal_strlit("//# sourceMappingURL=data:application/json;base64,");
    assert(is_ascii_chars(SOURCE_MAP_PREFIX@));
    is_ascii_chars_encode_utf8(SOURCE_MAP_PREFIX@);
    assert forall|i: int| 0 <= i < prefix_bytes().len() implies #[trigger] prefix_bytes()[i] < 0x80
        && (prefix_bytes()[i] == 0x23u8 <==> i == 2) by {
        assert(SOURCE_MAP_PREFIX@[i] as u8 == prefix_bytes()[i]);
    }
    let n = prefix_bytes().len() as int;
    assert(SOURCE_MAP_PREFIX@[0] as u8 == prefix_bytes()[0]);
    assert(SOURCE_MAP_PREFIX@[n - 2] as u8 == prefix_bytes()[n - 2]);
    assert(SOURCE_MAP_PREFIX@[n - 1] as u8 == prefix_bytes()[n - 1]);
}

/// Finds the base64 text of the last inline source map in `source`.
pub fn find_source_map_text(source: &[u8]) -> (found: Option<String>)
    ensures
        found is Some <==> source_map_text(source@) is Some,
        found matches Some(text) ==> source_map_text(source@) == Some(text@),
{
    let text: &str = match utf8_text(source) {
        Some(text) => text,
        None => return None,
    };
    let prefix: &[u8] = SOURCE_MAP_PREFIX.as_bytes();
    let total: usize = source.len();
    match find_last(source, prefix) {
        None => None,
        Some(i) => {
            assert(i + prefix@.len() <= total);
            let start: usize = i + prefix.len();
            proof {
                lemma_prefix_is_ascii();
                let n = prefix_bytes().len() as int;
                assert(source@.subrange(i as int, i + n)[n - 1] == source@[i + n - 1]);
                lemma_boundary_after_ascii(source@, start as int);
            }
            let (_, rest) = text.split_at(start);
            proof {
                assert(source@.subrange(start as int, source@.len() as int) =~= source@.skip(
                    start as int,
                ));
                encode_utf8_decode_utf8(rest@);
            }
            Some(trim_end(rest).to_owned())
        },
    }
}

/// Extracts an inline source map from transpiled source code.
/// Returns the decoded bytes of the map, if there is one.
pub fn extract_inline_source_map(source: &[u8]) -> (map: Option<Vec<u8>>)
    ensures
        crate::host::bytes_view(map) == inline_source_map(source@),
{
    match find_source_map_text(source) {
        None => None,
        Some(text) => {
            let map: Option<Vec<u8>> = decode_base64(text.as_str());
            proof {
                if map is Some {
                    crate::encoding::law_decoding_undoes_encoding(map->0@);
                }
            }
            map
        },
    }
}

/// The decoded bytes of the inline source map in `source`, if there is one.
pub open spec fn inline_source_map(source: Seq<u8>) -> Option<Seq<u8>> {
    match source_map_text(source) {
        None => None,
        Some(text) => crate::encoding::base64_decoded(text),
    }
}

/// An occurrence that nothing later equals is the last one.
proof fn lemma_last_occurrence(bytes: Seq<u8>, pattern: Seq<u8>, i: int)
    requires
        is_last_occurrence(bytes, pattern, i),
    ensures
        last_occurrence(bytes, pattern) == Some(i),
{
    let chosen = choose|k: int| is_last_occurrence(bytes, pattern, k);
    if chosen < i {
        assert(!occurs_at(bytes, pattern, i));
    }
}

/// A source map comment put at the end of any code is the one that is found,
/// whatever the code holds: the text found is what follows the prefix, up to
/// trailing white space, as long as no second prefix stands in it.
pub proof fn law_appended_source_map_is_found(code: Seq<u8>, rest: Seq<u8>)
    requires
        valid_utf8(code),
        valid_utf8(rest),
        forall|i: int| !occurs_at(rest, prefix_bytes(), i),
    ensures
        source_map_text(code + prefix_bytes() + rest) == Some(
            crate::text::trimmed_end(decode_utf8(rest)),
        ),
        inline_source_map(code + prefix_bytes() + rest) == crate::encoding::base64_decoded(
            crate::text::trimmed_end(decode_utf8(rest)),
        ),
{
    let pattern = prefix_bytes();
    let source = code + pattern + rest;
    let at = code.len() as int;
    let n = pattern.len() as int;
    lemma_prefix_is_ascii();
    encode_utf8_valid_utf8(SOURCE_MAP_PREFIX@);
    valid_utf8_concat(code, pattern);
    valid_utf8_concat(code + pattern, rest);
    assert(source.subrange(at, at + n) =~= pattern);
    assert forall|j: int| at < j implies !occurs_at(source, pattern, j) by {
        if occurs_at(source, pattern, j) {
            let found = source.subrange(j, j + n);
            if j + 2 < at + n {
                assert(found[2] == source[j + 2]);
                assert(source[j + 2] == pattern[j + 2 - at]);
            } else if j < at + n {
                assert(found[0] == source[j]);
                assert(source[j] == pattern[j - at]);
            } else {
                assert(rest.subrange(j - at - n, j - at) =~= found);
                assert(occurs_at(rest, pattern, j - at - n));
            }
        }
    }
    lemma_last_occurrence(source, pattern, at);
    assert(source.skip(at + n) =~= rest);
}

/// Texts one after the other are encoded one after the other.
proof fn lemma_encoded_in_turn(a: Seq<char>, b: Seq<char>)
    ensures
        encode_utf8(a + b) == encode_utf8(a) + encode_utf8(b),
    decreases a.len(),
{
    if a.len() == 0 {
        assert(a + b =~= b);
        assert(encode_utf8(a) + encode_utf8(b) =~= encode_utf8(b));
    } else {
        assert((a + b).drop_first() =~= a.drop_first() + b);
        lemma_encoded_in_turn(a.drop_first(), b);
        assert(encode_utf8(a + b) =~= encode_utf8(a) + encode_utf8(b));
    }
}

/// The encoding of white space holds no comma.
proof fn lemma_white_space_has_no_comma(space: Seq<char>)
    requires
        forall|i: int| 0 <= i < space.len() ==> crate::text::is_white_space(#[trigger] space[i]),
    ensures
        forall|i: int| 0 <= i < encode_utf8(space).len() ==> #[trigger] encode_utf8(space)[i] != 0x2c,
    decreases space.len(),
{
    if space.len() > 0 {
        let c = space[0] as u32;
        let rest = space.drop_first();
        assert(crate::text::is_white_space(space[0]));
        assert forall|i: int| 0 <= i < rest.len() implies crate::text::is_white_space(
            #[trigger] rest[i],
        ) by {
            assert(rest[i] == space[i + 1]);
        }
        lemma_white_space_has_no_comma(rest);
        assert(c < 0x80 && c != 0x2c ==> leading_byte_width_1(c) != 0x2c) by (bit_vector);
        assert(leading_byte_width_2(c) != 0x2c) by (bit_vector);
        assert(leading_byte_width_3(c) != 0x2c) by (bit_vector);
        assert(leading_byte_width_4(c) != 0x2c) by (bit_vector);
        assert(last_continuation_byte(c) != 0x2c) by (bit_vector);
        assert(second_last_continuation_byte(c) != 0x2c) by (bit_vector);
        assert(third_last_continuation_byte(c) != 0x2c) by (bit_vector);
        let first = encode_scalar(c);
        assert(encode_utf8(space) =~= first + encode_utf8(rest));
        assert forall|i: int| 0 <= i < encode_utf8(space).len() implies #[trigger] encode_utf8(
            space,
        )[i] != 0x2c by {
            if i < first.len() {
                assert(encode_utf8(space)[i] == first[i]);
            } else {
                assert(encode_utf8(space)[i] == encode_utf8(rest)[i - first.len()]);
            }
        }
    }
}

/// What precedes valid UTF-8 in valid UTF-8 is valid too.
proof fn lemma_valid_before(bytes: Seq<u8>, rest: Seq<u8>)
    requires
        valid_utf8(rest),
        valid_utf8(bytes + rest),
    ensures
        valid_utf8(bytes),
{
    let whole = bytes + rest;
    let at = bytes.len() as int;
    if rest.len() == 0 {
        assert(whole =~= bytes);
    } else {
        is_char_boundary_iff_not_is_continuation_byte(rest, 0);
        assert(whole[at] == rest[0]);
        is_char_boundary_iff_not_is_continuation_byte(whole, at);
        valid_utf8_split(whole, at);
        assert(whole.subrange(0, at) =~= bytes);
    }
}

/// White space put after a text does not change its source map.
proof fn lemma_white_space_after_text(source: Seq<u8>, space: Seq<char>)
    requires
        valid_utf8(source),
        forall|i: int| 0 <= i < space.len() ==> crate::text::is_white_space(#[trigger] space[i]),
    ensures
        source_map_text(source + encode_utf8(space)) == source_map_text(source),
{
    let pattern = prefix_bytes();
    let n = pattern.len() as int;
    let whole = source + encode_utf8(space);
    lemma_prefix_is_ascii();
    encode_utf8_valid_utf8(space);
    valid_utf8_concat(source, encode_utf8(space));
    assert forall|j: int| occurs_at(whole, pattern, j) <==> occurs_at(source, pattern, j) by {
        if occurs_at(source, pattern, j) {
            assert(whole.subrange(j, j + n) =~= source.subrange(j, j + n));
        }
        if occurs_at(whole, pattern, j) {
            if j + n <= source.len() {
                assert(whole.subrange(j, j + n) =~= source.subrange(j, j + n));
            } else {
                lemma_white_space_has_no_comma(space);
                assert(whole.subrange(j, j + n)[n - 1] == whole[j + n - 1]);
                assert(whole[j + n - 1] == encode_utf8(space)[j + n - 1 - source.len()]);
            }
        }
    }
    assert forall|i: int|
        is_last_occurrence(whole, pattern, i) <==> is_last_occurrence(source, pattern, i) by {}
    if exists|i: int| is_last_occurrence(source, pattern, i) {
        let i = choose|i: int| is_last_occurrence(source, pattern, i);
        lemma_last_occurrence(source, pattern, i);
        lemma_last_occurrence(whole, pattern, i);
        assert(source.subrange(i, i + n)[n - 1] == source[i + n - 1]);
        lemma_boundary_after_ascii(source, i + n);
        valid_utf8_split(source, i + n);
        let tail = source.skip(i + n);
        assert(source.subrange(i + n, source.len() as int) =~= tail);
        let text = decode_utf8(tail);
        decode_utf8_encode_utf8(tail);
        lemma_encoded_in_turn(text, space);
        encode_utf8_decode_utf8(text + space);
        assert(whole.skip(i + n) =~= tail + encode_utf8(space));
        crate::text::lemma_trimmed_end(text, space);
    }
}

/// White space put after a source does not change its source map.
pub proof fn law_trailing_white_space_is_ignored(source: Seq<u8>, space: Seq<char>)
    requires
        forall|i: int| 0 <= i < space.len() ==> crate::text::is_white_space(#[trigger] space[i]),
    ensures
        source_map_text(source + encode_utf8(space)) == source_map_text(source),
        inline_source_map(source + encode_utf8(space)) == inline_source_map(source),
{
    encode_utf8_valid_utf8(space);
    if valid_utf8(source) {
        lemma_white_space_after_text(source, space);
    } else if valid_utf8(source + encode_utf8(space)) {
        lemma_valid_before(source, encode_utf8(space));
    }
}

/// Base64 is found as it is: it holds neither a prefix nor white space.
proof fn lemma_base64_is_plain(bytes: Seq<u8>)
    ensures
        ({
            let text = crate::encoding::base64_encoded(bytes);
            &&& forall|i: int| !occurs_at(encode_utf8(text), prefix_bytes(), i)
            &&& crate::text::trimmed_end(text) == text
        }),
{
    let text = crate::encoding::base64_encoded(bytes);
    crate::encoding::lemma_base64_chars(bytes);
    lemma_prefix_is_ascii();
    assert(is_ascii_chars(text));
    is_ascii_chars_encode_utf8(text);
    assert forall|i: int| !occurs_at(encode_utf8(text), prefix_bytes(), i) by {
        if occurs_at(encode_utf8(text), prefix_bytes(), i) {
            let found = encode_utf8(text).subrange(i, i + prefix_bytes().len());
            assert(found[2] == encode_utf8(text)[i + 2]);
            assert(text[i + 2] as u8 == encode_utf8(text)[i + 2]);
            assert(crate::encoding::is_base64_char(text[i + 2]));
        }
    }
    if text.len() > 0 {
        assert(crate::encoding::is_base64_char(text[text.len() - 1]));
    }
}

/// A source map that was put in base64 at the end of some code, with or without
/// white space behind it, is given back byte for byte.
pub proof fn law_inlined_source_map_is_extracted(code: Seq<u8>, map: Seq<u8>, space: Seq<char>)
    requires
        valid_utf8(code),
        forall|i: int| 0 <= i < space.len() ==> crate::text::is_white_space(#[trigger] space[i]),
    ensures
        inline_source_map(
            code + prefix_bytes() + encode_utf8(crate::encoding::base64_encoded(map))
                + encode_utf8(space),
        ) == Some(map),
{
    let text = crate::encoding::base64_encoded(map);
    let source = code + prefix_bytes() + encode_utf8(text);
    lemma_base64_is_plain(map);
    encode_utf8_valid_utf8(text);
    encode_utf8_decode_utf8(text);
    law_appended_source_map_is_found(code, encode_utf8(text));
    law_trailing_white_space_is_ignored(source, space);
    crate::encoding::law_decoding_undoes_encoding(map);
}

/// Where no prefix stands in the code there is no source map.
pub proof fn law_no_prefix_no_source_map(source: Seq<u8>)
    requires
        forall|i: int| !occurs_at(source, prefix_bytes(), i),
    ensures
        source_map_text(source) is None,
        inline_source_map(source) is None,
{
}

/// What precedes an inline source map is the comment that JavaScript knows, up to
/// the comma behind `base64`.
pub proof fn law_prefix_is_the_known_comment()
    ensures
        SOURCE_MAP_PREFIX@ == "//# sourceMappingURL=data:application/json;base64,"@,
        prefix_bytes() == encode_utf8("//# sourceMappingURL=data:application/json;base64,"@),
{
}

/// The last occurrence is one, none comes after it, and there is none only where
/// the pattern does not occur at all.
pub proof fn law_last_occurrence_is_found(bytes: &[u8], pattern: &[u8], at: Option<usize>)
    requires
        call_ensures(find_last, (bytes, pattern), at),
    ensures
        at matches Some(i) ==> {
            &&& i + pattern@.len() <= bytes@.len()
            &&& bytes@.subrange(i as int, i + pattern@.len()) == pattern@
            &&& forall|j: int|
                i < j && j + pattern@.len() <= bytes@.len() ==> #[trigger] bytes@.subrange(
                    j,
                    j + pattern@.len(),
                ) != pattern@
        },
        at is None ==> forall|j: int|
            0 <= j && j + pattern@.len() <= bytes@.len() ==> #[trigger] bytes@.subrange(
                j,
                j + pattern@.len(),
            ) != pattern@,
{
    if let Some(i) = at {
        assert(is_last_occurrence(bytes@, pattern@, i as int));
        assert forall|j: int| i < j && j + pattern@.len() <= bytes@.len() implies #[trigger] bytes@.subrange(
            j,
            j + pattern@.len(),
        ) != pattern@ by {
            assert(!occurs_at(bytes@, pattern@, j));
        }
    } else {
        assert forall|j: int| 0 <= j && j + pattern@.len() <= bytes@.len() implies #[trigger] bytes@.subrange(
            j,
            j + pattern@.len(),
        ) != pattern@ by {
            if occurs_at(bytes@, pattern@, j) {
                lemma_some_last(bytes@, pattern@, j);
            }
        }
    }
}

/// Where a pattern occurs at all, it has a last occurrence.
proof fn lemma_some_last(bytes: Seq<u8>, pattern: Seq<u8>, j: int)
    requires
        occurs_at(bytes, pattern, j),
    ensures
        last_occurrence(bytes, pattern) is Some,
    decreases bytes.len() - j,
{
    if exists|k: int| j < k && occurs_at(bytes, pattern, k) {
        let k = choose|k: int| j < k && occurs_at(bytes, pattern, k);
        lemma_some_last(bytes, pattern, k);
    } else {
        assert(is_last_occurrence(bytes, pattern, j));
    }
}

/// A source map that was put in base64 behind the comment, at the end of some
/// code and with or without white space behind it, is extracted byte for byte.
pub proof fn law_source_map_is_extracted(
    source: &[u8],
    code: Seq<u8>,
    map: Seq<u8>,
    space: Seq<char>,
    extracted: Option<Vec<u8>>,
)
    requires
        call_ensures(extract_inline_source_map, (source,), extracted),
        valid_utf8(code),
        forall|i: int| 0 <= i < space.len() ==> crate::text::is_white_space(#[trigger] space[i]),
        source@ == code + encode_utf8("//# sourceMappingURL=data:application/json;base64,"@)
            + encode_utf8(crate::encoding::base64_encoded(map)) + encode_utf8(space),
    ensures
        extracted matches Some(bytes) && bytes@ == map,
{
    law_inlined_source_map_is_extracted(code, map, space);
}

/// What is extracted stands in the source: in base64 behind the comment, followed
/// by white space alone, with no second such comment behind it. What is not UTF-8
/// has no source map.
pub proof fn law_extracted_source_map_is_in_the_source(source: &[u8], extracted: Option<Vec<u8>>)
    requires
        call_ensures(extract_inline_source_map, (source,), extracted),
        extracted is Some,
    ensures
        valid_utf8(source@),
        exists|code: Seq<u8>, space: Seq<char>|
            {
                &&& source@ == code + encode_utf8(
                    "//# sourceMappingURL=data:application/json;base64,"@,
                ) + #[trigger] encode_utf8(
                    crate::encoding::base64_encoded(extracted->0@) + space,
                )
                &&& #[trigger] valid_utf8(code)
                &&& forall|i: int|
                    0 <= i < space.len() ==> crate::text::is_white_space(#[trigger] space[i])
            },
{
    let pattern = prefix_bytes();
    let n = pattern.len() as int;
    let i = last_occurrence(source@, pattern)->0;
    assert(is_last_occurrence(source@, pattern, i));
    lemma_prefix_is_ascii();
    assert(source@.subrange(i, i + n)[n - 1] == source@[i + n - 1]);
    lemma_boundary_after_ascii(source@, i + n);
    valid_utf8_split(source@, i + n);
    let tail = source@.skip(i + n);
    assert(source@.subrange(i + n, source@.len() as int) =~= tail);
    let text = decode_utf8(tail);
    decode_utf8_encode_utf8(tail);
    crate::text::lemma_trimmed_is_prefix(text);
    let trimmed = crate::text::trimmed_end(text);
    let space = text.skip(trimmed.len() as int);
    assert(text =~= trimmed + space);
    assert forall|k: int| 0 <= k < space.len() implies crate::text::is_white_space(
        #[trigger] space[k],
    ) by {
        assert(space[k] == text[k + trimmed.len()]);
    }
    let code = source@.take(i);
    let before = source@.take(i + n);
    assert(source@.subrange(0, i + n) =~= before);
    assert(before =~= code + pattern);
    encode_utf8_valid_utf8(SOURCE_MAP_PREFIX@);
    lemma_valid_before(code, pattern);
    assert(source@ =~= code + pattern + tail);
    assert(crate::encoding::base64_encoded(extracted->0@) == trimmed);
    assert(encode_utf8(trimmed + space) == tail);
}

/// The text of a source map is what stands behind the comment, up to the white
/// space at the end.
pub proof fn law_text_behind_the_comment_is_found(
    source: &[u8],
    code: Seq<u8>,
    rest: Seq<char>,
    found: Option<String>,
)
    requires
        call_ensures(find_source_map_text, (source,), found),
        valid_utf8(code),
        source@ == code + encode_utf8("//# sourceMappingURL=data:application/json;base64,"@)
            + encode_utf8(rest),
        forall|i: int|
            !#[trigger] occurs_at(
                encode_utf8(rest),
                encode_utf8("//# sourceMappingURL=data:application/json;base64,"@),
                i,
            ),
    ensures
        found matches Some(text) && {
            &&& text@.is_prefix_of(rest)
            &&& forall|k: int|
                text@.len() <= k < rest.len() ==> crate::text::is_white_space(#[trigger] rest[k])
            &&& text@.len() > 0 ==> !crate::text::is_white_space(text@.last())
        },
{
    encode_utf8_valid_utf8(rest);
    encode_utf8_decode_utf8(rest);
    law_appended_source_map_is_found(code, encode_utf8(rest));
    crate::text::lemma_trimmed_is_prefix(rest);
}

/// What is extracted is what the text that is found stands for.
pub proof fn law_found_text_is_decoded(
    source: &[u8],
    found: Option<String>,
    extracted: Option<Vec<u8>>,
)
    requires
        call_ensures(find_source_map_text, (source,), found),
        call_ensures(extract_inline_source_map, (source,), extracted),
    ensures
        found is None ==> extracted is None,
        found matches Some(text) ==> crate::host::bytes_view(extracted)
            == crate::encoding::base64_decoded(text@),
{
}

} // verus!
