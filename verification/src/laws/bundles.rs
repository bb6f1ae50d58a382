//! Which PKCS#12 bundles are handed on to be opened.

use vstd::prelude::*;
use crate::domain::der::{
    are_known_bags, attributes_fit, element_at, elements, elements_fit, first_in,
    is_encrypted_type, is_key_bag_type, is_known_bag, is_known_part, is_oid, is_readable_bundle,
    is_readable_content, is_readable_part, items, next_in, number_at, parameters_fit,
    password_bytes, utf16_bytes, utf16_text, ElementView,
};
use crate::domain::signer::{
    is_openable, is_openable_part, p12_outer_part, p12_part, p12_part_data,
};

verus! {

/// An element with a short length, of up to 127 bytes, is found where it lies inside
/// the bytes.
pub proof fn law_short_elements_are_found(bytes: Seq<u8>, pos: int, end: int)
    requires
        0 <= pos,
        pos + 2 <= end <= bytes.len(),
        bytes[pos] % 32 != 31,
        bytes[pos + 1] < 128,
    ensures
        pos + 2 + bytes[pos + 1] <= end ==> element_at(bytes, pos, end) == Some(
            ElementView { tag: bytes[pos], start: pos + 2, stop: pos + 2 + bytes[pos + 1] },
        ),
        pos + 2 + bytes[pos + 1] > end ==> element_at(bytes, pos, end) is None,
{
}

/// An element with a long length is found where it lies inside the bytes, however
/// many bytes write the length.
pub proof fn law_long_elements_are_found(bytes: Seq<u8>, pos: int, end: int, count: int)
    requires
        0 <= pos,
        1 <= count <= 127,
        pos + 2 + count <= end <= bytes.len(),
        bytes[pos] % 32 != 31,
        bytes[pos + 1] == 128 + count,
    ensures
        ({
            let length = number_at(bytes, pos + 2, count as nat);
            let start = pos + 2 + count;
            &&& length >= 0
            &&& start + length <= end ==> element_at(bytes, pos, end) == Some(
                ElementView { tag: bytes[pos], start, stop: start + length },
            )
            &&& start + length > end ==> element_at(bytes, pos, end) is None
        }),
{
    lemma_number_is_not_negative(bytes, pos + 2, count as nat);
}

proof fn lemma_number_is_not_negative(bytes: Seq<u8>, pos: int, count: nat)
    ensures
        number_at(bytes, pos, count) >= 0,
    decreases count,
{
    if count > 0 {
        lemma_number_is_not_negative(bytes, pos, (count - 1) as nat);
    }
}

/// Lengths are written with the highest byte first.
pub proof fn law_lengths_are_written_highest_byte_first(bytes: Seq<u8>, pos: int)
    requires
        0 <= pos,
        pos + 4 <= bytes.len(),
    ensures
        number_at(bytes, pos, 1) == bytes[pos],
        number_at(bytes, pos, 2) == bytes[pos] * 256 + bytes[pos + 1],
        number_at(bytes, pos, 3) == bytes[pos] * 65536 + bytes[pos + 1] * 256 + bytes[pos + 2],
        number_at(bytes, pos, 4) == bytes[pos] * 16777216 + bytes[pos + 1] * 65536 + bytes[pos + 2]
            * 256 + bytes[pos + 3],
{
    reveal_with_fuel(number_at, 5);
}

/// An identifier is the one that its bytes write out, all of them.
pub proof fn law_identifiers_are_told_by_all_bytes(
    bytes: Seq<u8>,
    element: ElementView,
    tail: Seq<u8>,
)
    ensures
        is_oid(bytes, element, tail) <==> element.tag == 0x06 && bytes.subrange(
            element.start,
            element.stop,
        ) == seq![0x2au8, 0x86u8, 0x48u8, 0x86u8, 0xf7u8, 0x0du8, 0x01u8] + tail,
        is_encrypted_type(bytes, element) <==> is_oid(bytes, element, seq![7u8, 6u8]),
        is_key_bag_type(bytes, element) <==> is_oid(bytes, element, seq![12u8, 10u8, 1u8, 2u8]),
{
}

/// A part that is not encrypted can be read as soon as what it wraps lies inside
/// it, whatever that is and however long.
pub proof fn law_plain_parts_are_readable(
    bytes: Seq<u8>,
    part: ElementView,
    kind: ElementView,
    wrapper: ElementView,
)
    requires
        first_in(bytes, part) == Some(kind),
        next_in(bytes, kind, part) == Some(wrapper),
        first_in(bytes, wrapper) is Some,
        !is_encrypted_type(bytes, kind),
    ensures
        is_known_part(bytes, part),
        element_at(bytes, 0, bytes.len() as int) == Some(part) ==> is_readable_part(bytes),
{
}

/// An encrypted part can be read where it has version zero, holds plain data, and
/// names an algorithm with a salt and a number of rounds of at most five bytes.
pub proof fn law_encrypted_parts_are_readable(
    bytes: Seq<u8>,
    part: ElementView,
    kind: ElementView,
    wrapper: ElementView,
    data: ElementView,
    version: ElementView,
    info: ElementView,
    content: ElementView,
    algorithm: ElementView,
    name: ElementView,
    parameters: ElementView,
    salt: ElementView,
    rounds: ElementView,
)
    requires
        first_in(bytes, part) == Some(kind),
        next_in(bytes, kind, part) == Some(wrapper),
        first_in(bytes, wrapper) == Some(data),
        first_in(bytes, data) == Some(version),
        version.tag == 0x02,
        version.stop == version.start + 1,
        bytes[version.start] == 0,
        next_in(bytes, version, data) == Some(info),
        first_in(bytes, info) == Some(content),
        is_oid(bytes, content, seq![7u8, 1u8]),
        next_in(bytes, content, info) == Some(algorithm),
        first_in(bytes, algorithm) == Some(name),
        next_in(bytes, name, algorithm) == Some(parameters),
        first_in(bytes, parameters) == Some(salt),
        next_in(bytes, salt, parameters) == Some(rounds),
        rounds.stop - rounds.start <= 5,
    ensures
        is_known_part(bytes, part),
        element_at(bytes, 0, bytes.len() as int) == Some(part) ==> is_readable_part(bytes),
{
}

/// A bundle is handed on where its outer part can be read, and where it has no
/// checksum, or one whose algorithm can be read; how many rounds the checksum asks
/// for does not matter. Bytes that do not start with an element are handed on too.
pub proof fn law_bundles_with_a_readable_part_are_readable(
    bytes: Seq<u8>,
    bundle: ElementView,
    version: ElementView,
    part: ElementView,
    checksum: ElementView,
    digest: ElementView,
    algorithm: ElementView,
)
    ensures
        element_at(bytes, 0, bytes.len() as int) is None ==> is_readable_bundle(bytes),
        element_at(bytes, 0, bytes.len() as int) == Some(bundle) && first_in(bytes, bundle) == Some(
            version,
        ) && next_in(bytes, version, bundle) == Some(part) && is_known_part(bytes, part) ==> {
            &&& next_in(bytes, part, bundle) is None ==> is_readable_bundle(bytes)
            &&& next_in(bytes, part, bundle) == Some(checksum) && first_in(bytes, checksum) == Some(
                digest,
            ) && first_in(bytes, digest) == Some(algorithm) && parameters_fit(bytes, algorithm)
                ==> is_readable_bundle(bytes)
        },
{
}

/// What an algorithm has for parameters can be read where there are none or they
/// lie inside it.
pub proof fn law_parameters_that_fit_are_readable(
    bytes: Seq<u8>,
    algorithm: ElementView,
    kind: ElementView,
)
    requires
        first_in(bytes, algorithm) == Some(kind),
    ensures
        kind.stop >= algorithm.stop ==> parameters_fit(bytes, algorithm),
        next_in(bytes, kind, algorithm) is Some ==> parameters_fit(bytes, algorithm),
{
}

/// A bag that is no encrypted key can be read as soon as what it wraps lies inside
/// it, whatever that is, and so do the values of its attributes. A bundle's content
/// can be read where all its bags can.
pub proof fn law_bags_are_readable(
    bytes: Seq<u8>,
    pos: int,
    end: int,
    bag: ElementView,
    kind: ElementView,
    wrapper: ElementView,
)
    requires
        element_at(bytes, pos, end) == Some(bag),
        first_in(bytes, bag) == Some(kind),
        next_in(bytes, kind, bag) == Some(wrapper),
        first_in(bytes, wrapper) is Some,
        pos < bag.stop,
    ensures
        !is_key_bag_type(bytes, kind) && next_in(bytes, wrapper, bag) is None ==> is_known_bag(
            bytes,
            bag,
        ),
        !is_key_bag_type(bytes, kind) && (next_in(bytes, wrapper, bag) matches Some(attributes)
            && attributes_fit(bytes, attributes.start, attributes.stop)) ==> is_known_bag(
            bytes,
            bag,
        ),
        is_known_bag(bytes, bag) && are_known_bags(bytes, bag.stop, end) ==> are_known_bags(
            bytes,
            pos,
            end,
        ),
        are_known_bags(bytes, end, end),
{
}

/// An encrypted key can be read where its algorithm has a salt and a number of
/// rounds of at most five bytes.
pub proof fn law_encrypted_keys_are_readable(
    bytes: Seq<u8>,
    bag: ElementView,
    kind: ElementView,
    wrapper: ElementView,
    key: ElementView,
    algorithm: ElementView,
    name: ElementView,
    parameters: ElementView,
    salt: ElementView,
    rounds: ElementView,
)
    requires
        first_in(bytes, bag) == Some(kind),
        next_in(bytes, kind, bag) == Some(wrapper),
        first_in(bytes, wrapper) == Some(key),
        first_in(bytes, key) == Some(algorithm),
        first_in(bytes, algorithm) == Some(name),
        next_in(bytes, name, algorithm) == Some(parameters),
        first_in(bytes, parameters) == Some(salt),
        next_in(bytes, salt, parameters) == Some(rounds),
        rounds.stop - rounds.start <= 5,
    ensures
        next_in(bytes, wrapper, bag) is None ==> is_known_bag(bytes, bag),
        next_in(bytes, wrapper, bag) matches Some(attributes) && attributes_fit(
            bytes,
            attributes.start,
            attributes.stop,
        ) ==> is_known_bag(bytes, bag),
{
}

/// A content can be read where its bags can.
pub proof fn law_contents_of_readable_bags_are_readable(bytes: Seq<u8>, bags: ElementView)
    requires
        element_at(bytes, 0, bytes.len() as int) == Some(bags),
    ensures
        are_known_bags(bytes, bags.start, bags.stop) ==> is_readable_content(bytes),
{
}

/// What stands first in an element, and what stands behind another in it, is found
/// there.
pub proof fn law_inner_elements_are_found_in_place(
    bytes: Seq<u8>,
    outer: ElementView,
    element: ElementView,
)
    ensures
        first_in(bytes, outer) == element_at(bytes, outer.start, outer.stop),
        next_in(bytes, element, outer) == element_at(bytes, element.stop, outer.stop),
{
}

/// A part whose wrapper holds something that is cut short is not handed on, nor is
/// an encrypted part of another version or with other content, or one whose
/// algorithm has parameters that are cut short or asks for too many rounds.
pub proof fn law_unreadable_parts_are_refused(
    bytes: Seq<u8>,
    part: ElementView,
    kind: ElementView,
    wrapper: ElementView,
    data: ElementView,
    version: ElementView,
    info: ElementView,
    content: ElementView,
    algorithm: ElementView,
)
    requires
        first_in(bytes, part) == Some(kind),
        next_in(bytes, kind, part) == Some(wrapper),
    ensures
        first_in(bytes, wrapper) is None ==> !is_known_part(bytes, part),
        is_encrypted_type(bytes, kind) && first_in(bytes, wrapper) == Some(data) && first_in(
            bytes,
            data,
        ) == Some(version) ==> {
            &&& !(version.tag == 0x02 && version.stop == version.start + 1 && bytes[version.start]
                == 0) ==> !is_known_part(bytes, part)
            &&& next_in(bytes, version, data) == Some(info) && first_in(bytes, info) == Some(content)
                ==> {
                &&& !is_oid(bytes, content, seq![7u8, 1u8]) ==> !is_known_part(bytes, part)
                &&& next_in(bytes, content, info) == Some(algorithm) && (cut_short(bytes, algorithm)
                    || asks_too_much(bytes, algorithm)) ==> !is_known_part(bytes, part)
            }
        },
{
}

/// Whether an algorithm has parameters that do not lie inside it.
pub open spec fn cut_short(bytes: Seq<u8>, algorithm: ElementView) -> bool {
    first_in(bytes, algorithm) matches Some(kind) && kind.stop < algorithm.stop && next_in(
        bytes,
        kind,
        algorithm,
    ) is None
}

/// Whether an algorithm that is carried out asks for a number of rounds of more than
/// five bytes.
pub open spec fn asks_too_much(bytes: Seq<u8>, algorithm: ElementView) -> bool {
    match first_in(bytes, algorithm) {
        Some(kind) if is_oid(bytes, kind, seq![12u8, 1u8, 3u8]) || is_oid(
            bytes,
            kind,
            seq![12u8, 1u8, 6u8],
        ) => match next_in(bytes, kind, algorithm) {
            Some(parameters) => match first_in(bytes, parameters) {
                Some(salt) => match next_in(bytes, salt, parameters) {
                    Some(rounds) => rounds.stop - rounds.start > 5,
                    None => false,
                },
                None => false,
            },
            None => false,
        },
        _ => false,
    }
}

/// A bundle is not handed on where its outer part is not, or where the algorithm of
/// its checksum has parameters that are cut short.
pub proof fn law_unreadable_bundles_are_refused(
    bytes: Seq<u8>,
    bundle: ElementView,
    version: ElementView,
    part: ElementView,
    checksum: ElementView,
    digest: ElementView,
    algorithm: ElementView,
)
    requires
        element_at(bytes, 0, bytes.len() as int) == Some(bundle),
        first_in(bytes, bundle) == Some(version),
        next_in(bytes, version, bundle) == Some(part),
    ensures
        !is_known_part(bytes, part) ==> !is_readable_bundle(bytes),
        next_in(bytes, part, bundle) == Some(checksum) && first_in(bytes, checksum) == Some(digest)
            && first_in(bytes, digest) == Some(algorithm) && cut_short(bytes, algorithm)
            ==> !is_readable_bundle(bytes),
{
}

/// A bag is not read whose wrapper holds something that is cut short, nor one with
/// an encrypted key whose algorithm is cut short or asks for too much; and a content
/// is not read in which such a bag stands.
pub proof fn law_unreadable_bags_are_refused(
    bytes: Seq<u8>,
    pos: int,
    end: int,
    bag: ElementView,
    kind: ElementView,
    wrapper: ElementView,
    key: ElementView,
    algorithm: ElementView,
)
    requires
        pos < end,
        element_at(bytes, pos, end) == Some(bag),
        first_in(bytes, bag) == Some(kind),
        next_in(bytes, kind, bag) == Some(wrapper),
    ensures
        first_in(bytes, wrapper) is None ==> !is_known_bag(bytes, bag),
        is_key_bag_type(bytes, kind) && first_in(bytes, wrapper) == Some(key) && first_in(bytes, key)
            == Some(algorithm) && (cut_short(bytes, algorithm) || asks_too_much(bytes, algorithm))
            ==> !is_known_bag(bytes, bag),
        next_in(bytes, wrapper, bag) matches Some(attributes) && !attributes_fit(
            bytes,
            attributes.start,
            attributes.stop,
        ) ==> !is_known_bag(bytes, bag),
        !is_known_bag(bytes, bag) ==> !are_known_bags(bytes, pos, end),
        !are_known_bags(bytes, bag.stop, end) ==> !are_known_bags(bytes, pos, end),
        element_at(bytes, 0, bytes.len() as int) matches Some(bags) && !are_known_bags(
            bytes,
            bags.start,
            bags.stop,
        ) ==> !is_readable_content(bytes),
{
}

/// Attributes whose values are cut short are not read, wherever they stand.
pub proof fn law_attributes_that_are_cut_short_are_refused(
    bytes: Seq<u8>,
    pos: int,
    end: int,
    attribute: ElementView,
    kind: ElementView,
    values: ElementView,
)
    requires
        pos < end,
        element_at(bytes, pos, end) == Some(attribute),
    ensures
        first_in(bytes, attribute) == Some(kind) && next_in(bytes, kind, attribute) == Some(values)
            && !elements_fit(bytes, values.start, values.stop) ==> !attributes_fit(bytes, pos, end),
        !attributes_fit(bytes, attribute.stop, end) ==> !attributes_fit(bytes, pos, end),
        first_in(bytes, attribute) == Some(kind) && next_in(bytes, kind, attribute) == Some(values)
            && elements_fit(bytes, values.start, values.stop) && pos < attribute.stop
            && attributes_fit(bytes, attribute.stop, end) ==> attributes_fit(bytes, pos, end),
        attributes_fit(bytes, end, end),
        elements_fit(bytes, end, end),
        !elements_fit(bytes, attribute.stop, end) ==> !elements_fit(bytes, pos, end),
        elements_fit(bytes, attribute.stop, end) && pos < attribute.stop ==> elements_fit(
            bytes,
            pos,
            end,
        ),
{
}

/// What is cut short is no element.
pub proof fn law_cut_short_is_no_element(bytes: Seq<u8>, pos: int, end: int)
    requires
        pos < end,
    ensures
        element_at(bytes, pos, end) is None ==> !elements_fit(bytes, pos, end),
        element_at(bytes, pos, end) matches Some(element) ==> element.stop <= end,
{
}

/// A bundle is not opened with a password where one of its inner parts cannot be
/// read, before or after it is decrypted.
pub proof fn law_bundles_with_an_unreadable_part_are_not_opened(
    pfx: p12::PFX,
    password: Seq<char>,
    data: Seq<u8>,
    i: int,
)
    requires
        p12_part_data(p12_outer_part(pfx), password_bytes(password)) == Some(data),
        0 <= i < items(data).len(),
        !is_readable_part(items(data)[i]) || (p12_part(items(data)[i]) matches Some(part) && (
        p12_part_data(part, password_bytes(password)) matches Some(content)
            && !is_readable_content(content))),
    ensures
        !is_openable(pfx, password),
{
    assert(!is_openable_part(items(data)[i], password_bytes(password)));
}

/// Where every inner part can be read, before and after it is decrypted, the bundle
/// is opened, however many parts it has and whatever the password is.
pub proof fn law_bundles_of_readable_parts_are_opened(
    pfx: p12::PFX,
    password: Seq<char>,
    data: Seq<u8>,
)
    requires
        p12_part_data(p12_outer_part(pfx), password_bytes(password)) == Some(data),
        forall|i: int|
            0 <= i < items(data).len() ==> is_readable_part(#[trigger] items(data)[i]) && (
            p12_part(items(data)[i]) is Some && p12_part_data(
                p12_part(items(data)[i])->0,
                password_bytes(password),
            ) is Some ==> is_readable_content(
                p12_part_data(p12_part(items(data)[i])->0, password_bytes(password))->0,
            )),
    ensures
        is_openable(pfx, password),
{
    assert forall|i: int| 0 <= i < items(data).len() implies is_openable_part(
        #[trigger] items(data)[i],
        password_bytes(password),
    ) by {}
}

/// A bundle whose outer part does not open with the password is left to fail.
pub proof fn law_bundles_that_do_not_open_are_left_to_fail(pfx: p12::PFX, password: Seq<char>)
    requires
        p12_part_data(p12_outer_part(pfx), password_bytes(password)) is None,
    ensures
        is_openable(pfx, password),
{
}

/// Taking elements apart loses nothing: one behind the other, they are what stood
/// there.
pub proof fn law_elements_make_up_the_whole(bytes: Seq<u8>, pos: int, end: int)
    requires
        0 <= pos <= end <= bytes.len(),
        elements_fit(bytes, pos, end),
    ensures
        elements(bytes, pos, end).flatten() == bytes.subrange(pos, end),
    decreases end - pos,
{
    if pos < end {
        let element = element_at(bytes, pos, end)->0;
        let first = bytes.subrange(pos, element.stop);
        let rest = elements(bytes, element.stop, end);
        law_elements_make_up_the_whole(bytes, element.stop, end);
        let all = seq![first] + rest;
        assert(all.first() == first);
        assert(all.drop_first() =~= rest);
        assert(all.flatten() == first + rest.flatten());
        assert(first + bytes.subrange(element.stop, end) =~= bytes.subrange(pos, end));
    } else {
        assert(bytes.subrange(pos, end) =~= seq![]);
    }
}

/// A character of a password is read back from its bytes: one unit, or two for a
/// character beyond the first 65536.
pub proof fn law_password_characters_are_utf16(c: char)
    ensures
        ({
            let code = c as u32 as int;
            let bytes = utf16_bytes(c);
            &&& code < 0x1_0000 ==> bytes.len() == 2 && bytes[0] * 256 + bytes[1] == code
            &&& code >= 0x1_0000 ==> bytes.len() == 4 && (bytes[0] * 256 + bytes[1] - 0xd800) * 1024
                + (bytes[2] * 256 + bytes[3] - 0xdc00) + 0x1_0000 == code
        }),
{
}

/// A password is written character by character, with a zero unit at the end.
pub proof fn law_passwords_are_written_whole(text: Seq<char>, c: char)
    ensures
        text.len() == 0 ==> utf16_text(text).len() == 0,
        utf16_text(text.push(c)) == utf16_text(text) + utf16_bytes(c),
        password_bytes(text) == utf16_text(text) + seq![0u8, 0u8],
{
    assert(text.push(c).drop_last() =~= text);
}

} // verus!
