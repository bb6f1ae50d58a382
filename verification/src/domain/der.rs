//! What has to be known of the DER of a PKCS#12 bundle before `p12` reads it.
//!
//! Where `p12` keeps a value as it came, a length that runs past the end can make
//! it panic; with debug assertions on, so does an encrypted part of an unknown
//! version or content; and it derives keys in as many rounds as the bundle asks
//! for. The checks here find these places by the way that `p12` takes through the
//! bytes. They look at nothing else: what does not have the form of a bundle is
//! left for `p12` to refuse.

use vstd::prelude::*;
use vstd::slice::{slice_subrange, slice_to_vec};

verus! {

pub const TAG_INTEGER: u8 = 0x02;

pub const TAG_OID: u8 = 0x06;

pub const TAG_SEQUENCE: u8 = 0x30;

/// The tag of an element that wraps another one, with the number zero.
pub const TAG_WRAPPED: u8 = 0xa0;

/// How many bytes the number of rounds of a key derivation may have. With five it
/// stays below 2^39, which takes about a day; with six it can take months.
pub const MAX_ROUNDS_BYTES: usize = 5;

/// An element: the first byte of its tag, and where its contents start and stop.
#[derive(Clone, Copy)]
pub struct Element {
    pub tag: u8,
    pub start: usize,
    pub stop: usize,
}

pub struct ElementView {
    pub tag: u8,
    pub start: int,
    pub stop: int,
}

impl View for Element {
    type V = ElementView;

    open spec fn view(&self) -> ElementView {
        ElementView { tag: self.tag, start: self.start as int, stop: self.stop as int }
    }
}

/// The element that was read, if there is one.
pub open spec fn element_view(element: Option<Element>) -> Option<ElementView> {
    match element {
        Some(e) => Some(e@),
        None => None,
    }
}

/// The number that `count` bytes from `pos` on write, the highest byte first.
pub open spec fn number_at(bytes: Seq<u8>, pos: int, count: nat) -> int
    decreases count,
{
    if count == 0 {
        0
    } else {
        number_at(bytes, pos, (count - 1) as nat) * 256 + bytes[pos + count - 1]
    }
}

/// Where a tag number of several bytes ends: behind the first byte below 128.
pub open spec fn tag_number_end(bytes: Seq<u8>, pos: int, end: int) -> Option<int>
    decreases end - pos,
{
    if pos >= end {
        None
    } else if bytes[pos] < 128 {
        Some(pos + 1)
    } else {
        tag_number_end(bytes, pos + 1, end)
    }
}

/// Where the tag that starts at `pos` ends.
pub open spec fn tag_end(bytes: Seq<u8>, pos: int, end: int) -> Option<int> {
    if pos >= end {
        None
    } else if bytes[pos] % 32 == 31 {
        tag_number_end(bytes, pos + 1, end)
    } else {
        Some(pos + 1)
    }
}

/// The element with the given tag whose length starts at `pos`, where all of it
/// lies before `end`. The length is a byte below 128, or the number of the bytes
/// that write it.
pub open spec fn sized_element(bytes: Seq<u8>, tag: u8, pos: int, end: int) -> Option<ElementView> {
    if pos >= end {
        None
    } else {
        let first = bytes[pos] as int;
        let more = if first < 128 {
            0
        } else {
            first - 128
        };
        let start = pos + 1 + more;
        if first == 128 || start > end {
            None
        } else {
            let length = if first < 128 {
                first
            } else {
                number_at(bytes, pos + 1, more as nat)
            };
            if length < 0 || start + length > end {
                None
            } else {
                Some(ElementView { tag, start, stop: start + length })
            }
        }
    }
}

/// The element that starts at `pos`, where all of it lies before `end`.
pub open spec fn element_at(bytes: Seq<u8>, pos: int, end: int) -> Option<ElementView> {
    match tag_end(bytes, pos, end) {
        None => None,
        Some(at) => sized_element(bytes, bytes[pos], at, end),
    }
}

/// The first element inside another.
pub open spec fn first_in(bytes: Seq<u8>, outer: ElementView) -> Option<ElementView> {
    element_at(bytes, outer.start, outer.stop)
}

/// The element behind another, in the one that encloses both.
pub open spec fn next_in(bytes: Seq<u8>, element: ElementView, outer: ElementView) -> Option<
    ElementView,
> {
    element_at(bytes, element.stop, outer.stop)
}

/// Whether the element is the identifier 1.2.840.113549.1 followed by `tail`.
pub open spec fn is_oid(bytes: Seq<u8>, element: ElementView, tail: Seq<u8>) -> bool {
    &&& element.tag == TAG_OID
    &&& bytes.subrange(element.start, element.stop) == seq![
        0x2au8,
        0x86u8,
        0x48u8,
        0x86u8,
        0xf7u8,
        0x0du8,
        0x01u8,
    ] + tail
}

/// Whether the identifier is that of plain data.
pub open spec fn is_plain_type(bytes: Seq<u8>, element: ElementView) -> bool {
    is_oid(bytes, element, seq![7u8, 1u8])
}

/// Whether the identifier is that of encrypted data.
pub open spec fn is_encrypted_type(bytes: Seq<u8>, element: ElementView) -> bool {
    is_oid(bytes, element, seq![7u8, 6u8])
}

/// Whether the identifier is that of a key bag that is encrypted.
pub open spec fn is_key_bag_type(bytes: Seq<u8>, element: ElementView) -> bool {
    is_oid(bytes, element, seq![12u8, 10u8, 1u8, 2u8])
}

/// Whether the identifier is one of the two ways of encryption that are
/// decrypted: SHA-1 with triple DES, and with RC2.
pub open spec fn is_decryptable(bytes: Seq<u8>, element: ElementView) -> bool {
    ||| is_oid(bytes, element, seq![12u8, 1u8, 3u8])
    ||| is_oid(bytes, element, seq![12u8, 1u8, 6u8])
}

/// Whether the element is the number zero.
pub open spec fn is_zero(bytes: Seq<u8>, element: ElementView) -> bool {
    &&& element.tag == TAG_INTEGER
    &&& element.stop == element.start + 1
    &&& bytes[element.start] == 0
}

/// Whether what an algorithm has for parameters, if anything, lies inside it.
pub open spec fn parameters_fit(bytes: Seq<u8>, algorithm: ElementView) -> bool {
    match first_in(bytes, algorithm) {
        None => true,
        Some(kind) => kind.stop < algorithm.stop ==> next_in(bytes, kind, algorithm) is Some,
    }
}

/// Whether an algorithm that is decrypted asks for a number of rounds of at most
/// `MAX_ROUNDS_BYTES` bytes. It stands in the parameters, behind the salt.
pub open spec fn rounds_fit(bytes: Seq<u8>, algorithm: ElementView) -> bool {
    match first_in(bytes, algorithm) {
        None => true,
        Some(kind) => is_decryptable(bytes, kind) ==> match next_in(bytes, kind, algorithm) {
            None => true,
            Some(parameters) => match first_in(bytes, parameters) {
                None => true,
                Some(salt) => match next_in(bytes, salt, parameters) {
                    None => true,
                    Some(rounds) => rounds.stop - rounds.start <= MAX_ROUNDS_BYTES,
                },
            },
        },
    }
}

/// Whether encrypted data have version zero, hold plain data once they are
/// decrypted, and name an algorithm that can be read and carried out.
pub open spec fn is_known_encryption(bytes: Seq<u8>, data: ElementView) -> bool {
    match first_in(bytes, data) {
        None => true,
        Some(version) => {
            &&& is_zero(bytes, version)
            &&& match next_in(bytes, version, data) {
                None => true,
                Some(info) => match first_in(bytes, info) {
                    None => true,
                    Some(kind) => {
                        &&& is_plain_type(bytes, kind)
                        &&& match next_in(bytes, kind, info) {
                            None => true,
                            Some(algorithm) => {
                                &&& parameters_fit(bytes, algorithm)
                                &&& rounds_fit(bytes, algorithm)
                            },
                        }
                    },
                },
            }
        },
    }
}

/// Whether the part of a bundle that `part` encloses can be read: what it wraps
/// lies inside it and, where it is encrypted, is known encryption.
pub open spec fn is_known_part(bytes: Seq<u8>, part: ElementView) -> bool {
    match first_in(bytes, part) {
        None => true,
        Some(kind) => match next_in(bytes, kind, part) {
            None => true,
            Some(wrapper) => match first_in(bytes, wrapper) {
                None => false,
                Some(content) => is_encrypted_type(bytes, kind) ==> is_known_encryption(
                    bytes,
                    content,
                ),
            },
        },
    }
}

/// Whether the bytes can be read as a part of a bundle.
pub open spec fn is_readable_part(bytes: Seq<u8>) -> bool {
    match element_at(bytes, 0, bytes.len() as int) {
        None => true,
        Some(part) => is_known_part(bytes, part),
    }
}

/// Whether the algorithm of a checksum can be read: it stands in the first element
/// of what the checksum is made of.
pub open spec fn is_known_checksum(bytes: Seq<u8>, checksum: ElementView) -> bool {
    match first_in(bytes, checksum) {
        None => true,
        Some(digest) => match first_in(bytes, digest) {
            None => true,
            Some(algorithm) => parameters_fit(bytes, algorithm),
        },
    }
}

/// Whether the bytes can be read as a bundle: a version, a part that encloses all
/// others, and perhaps a checksum.
pub open spec fn is_readable_bundle(bytes: Seq<u8>) -> bool {
    match element_at(bytes, 0, bytes.len() as int) {
        None => true,
        Some(bundle) => match first_in(bytes, bundle) {
            None => true,
            Some(version) => match next_in(bytes, version, bundle) {
                None => true,
                Some(part) => {
                    &&& is_known_part(bytes, part)
                    &&& match next_in(bytes, part, bundle) {
                        None => true,
                        Some(checksum) => is_known_checksum(bytes, checksum),
                    }
                },
            },
        },
    }
}

/// Whether the bytes from `pos` up to `end` are elements.
pub open spec fn elements_fit(bytes: Seq<u8>, pos: int, end: int) -> bool
    decreases end - pos,
{
    if pos >= end {
        true
    } else {
        match element_at(bytes, pos, end) {
            None => false,
            Some(element) => pos < element.stop && elements_fit(bytes, element.stop, end),
        }
    }
}

/// Whether the values of the attributes from `pos` up to `end` lie inside them.
pub open spec fn attributes_fit(bytes: Seq<u8>, pos: int, end: int) -> bool
    decreases end - pos,
{
    if pos >= end {
        true
    } else {
        match element_at(bytes, pos, end) {
            None => true,
            Some(attribute) => {
                &&& match first_in(bytes, attribute) {
                    None => true,
                    Some(kind) => match next_in(bytes, kind, attribute) {
                        None => true,
                        Some(values) => elements_fit(bytes, values.start, values.stop),
                    },
                }
                &&& pos < attribute.stop && attributes_fit(bytes, attribute.stop, end)
            },
        }
    }
}

/// Whether a bag can be read: what it wraps lies inside it; where that is an
/// encrypted key, its algorithm can be read and carried out; and the values of
/// its attributes lie inside them.
pub open spec fn is_known_bag(bytes: Seq<u8>, bag: ElementView) -> bool {
    match first_in(bytes, bag) {
        None => true,
        Some(kind) => match next_in(bytes, kind, bag) {
            None => true,
            Some(wrapper) => {
                &&& match first_in(bytes, wrapper) {
                    None => false,
                    Some(key) => is_key_bag_type(bytes, kind) ==> match first_in(bytes, key) {
                        None => true,
                        Some(algorithm) => {
                            &&& parameters_fit(bytes, algorithm)
                            &&& rounds_fit(bytes, algorithm)
                        },
                    },
                }
                &&& match next_in(bytes, wrapper, bag) {
                    None => true,
                    Some(attributes) => attributes_fit(bytes, attributes.start, attributes.stop),
                }
            },
        },
    }
}

/// Whether the bags from `pos` up to `end` can be read.
pub open spec fn are_known_bags(bytes: Seq<u8>, pos: int, end: int) -> bool
    decreases end - pos,
{
    if pos >= end {
        true
    } else {
        match element_at(bytes, pos, end) {
            None => true,
            Some(bag) => is_known_bag(bytes, bag) && pos < bag.stop && are_known_bags(
                bytes,
                bag.stop,
                end,
            ),
        }
    }
}

/// Whether the bytes can be read as what a part holds, a sequence of bags.
pub open spec fn is_readable_content(bytes: Seq<u8>) -> bool {
    match element_at(bytes, 0, bytes.len() as int) {
        None => true,
        Some(bags) => are_known_bags(bytes, bags.start, bags.stop),
    }
}

/// The elements from `pos` up to `end`, each with its tag and length.
pub open spec fn elements(bytes: Seq<u8>, pos: int, end: int) -> Seq<Seq<u8>>
    decreases end - pos,
{
    if pos >= end {
        seq![]
    } else {
        match element_at(bytes, pos, end) {
            None => seq![],
            Some(element) => if pos < element.stop {
                seq![bytes.subrange(pos, element.stop)] + elements(bytes, element.stop, end)
            } else {
                seq![]
            },
        }
    }
}

/// The elements that a sequence holds.
pub open spec fn items(bytes: Seq<u8>) -> Seq<Seq<u8>> {
    match element_at(bytes, 0, bytes.len() as int) {
        None => seq![],
        Some(element) => elements(bytes, element.start, element.stop),
    }
}

/// Finds where the tag that starts at `pos` ends.
fn skip_tag(bytes: &[u8], pos: usize, end: usize) -> (at: Option<usize>)
    requires
        pos <= end <= bytes@.len(),
    ensures
        match at {
            Some(a) => tag_end(bytes@, pos as int, end as int) == Some(a as int) && pos < a <= end,
            None => tag_end(bytes@, pos as int, end as int) is None,
        },
{
    if pos >= end {
        return None;
    }
    if bytes[pos] % 32 != 31 {
        return Some(pos + 1);
    }
    let mut at: usize = pos + 1;
    while at < end
        invariant
            pos < at <= end <= bytes@.len(),
            tag_end(bytes@, pos as int, end as int) == tag_number_end(
                bytes@,
                at as int,
                end as int,
            ),
        decreases end - at,
    {
        if bytes[at] < 128 {
            return Some(at + 1);
        }
        at = at + 1;
    }
    None
}

/// Reads the length at `pos` and gives the element with the given tag.
fn read_sized(bytes: &[u8], tag: u8, pos: usize, end: usize) -> (element: Option<Element>)
    requires
        pos <= end <= bytes@.len(),
    ensures
        element_view(element) == sized_element(bytes@, tag, pos as int, end as int),
        element matches Some(e) ==> pos < e.start <= e.stop <= end,
{
    if pos >= end {
        return None;
    }
    let first: u8 = bytes[pos];
    if first < 128 {
        let length: usize = first as usize;
        if length > end - pos - 1 {
            return None;
        }
        return Some(Element { tag, start: pos + 1, stop: pos + 1 + length });
    }
    let more: usize = (first - 128) as usize;
    if more == 0 || more > end - pos - 1 {
        return None;
    }
    let mut length: usize = 0;
    let mut i: usize = 0;
    let mut too_long = false;
    while i < more
        invariant
            i <= more,
            pos + 1 + more <= end <= bytes@.len(),
            !too_long ==> length == number_at(bytes@, pos + 1, i as nat) && length <= end,
            too_long ==> number_at(bytes@, pos + 1, i as nat) > end,
        decreases more - i,
    {
        if !too_long {
            let longer: u128 = length as u128 * 256 + bytes[pos + 1 + i] as u128;
            if longer > end as u128 {
                too_long = true;
            } else {
                length = longer as usize;
            }
        }
        i = i + 1;
    }
    let start: usize = pos + 1 + more;
    if too_long || length > end - start {
        return None;
    }
    Some(Element { tag, start, stop: start + length })
}

/// Reads the element that starts at `pos`.
fn read_element(bytes: &[u8], pos: usize, end: usize) -> (element: Option<Element>)
    requires
        pos <= end <= bytes@.len(),
    ensures
        element_view(element) == element_at(bytes@, pos as int, end as int),
        element matches Some(e) ==> pos < e.start <= e.stop <= end,
{
    match skip_tag(bytes, pos, end) {
        Some(at) => read_sized(bytes, bytes[pos], at, end),
        None => None,
    }
}

/// Whether the element lies inside the bytes.
spec fn is_inside(bytes: Seq<u8>, element: Element) -> bool {
    element.start <= element.stop <= bytes.len()
}

fn read_first(bytes: &[u8], outer: Element) -> (element: Option<Element>)
    requires
        is_inside(bytes@, outer),
    ensures
        element_view(element) == first_in(bytes@, outer@),
        element matches Some(e) ==> is_inside(bytes@, e) && e.stop <= outer.stop,
{
    read_element(bytes, outer.start, outer.stop)
}

fn read_next(bytes: &[u8], element: Element, outer: Element) -> (next: Option<Element>)
    requires
        is_inside(bytes@, outer),
        element.stop <= outer.stop,
    ensures
        element_view(next) == next_in(bytes@, element@, outer@),
        next matches Some(e) ==> is_inside(bytes@, e) && e.stop <= outer.stop,
{
    read_element(bytes, element.stop, outer.stop)
}

fn has_oid(bytes: &[u8], element: Element, tail: Vec<u8>) -> (same: bool)
    requires
        is_inside(bytes@, element),
        tail@.len() <= 4,
    ensures
        same == is_oid(bytes@, element@, tail@),
{
    let ghost found = bytes@.subrange(element.start as int, element.stop as int);
    let ghost root = seq![0x2au8, 0x86u8, 0x48u8, 0x86u8, 0xf7u8, 0x0du8, 0x01u8];
    let ghost wanted = root + tail@;
    let mut oid: Vec<u8> = vec![0x2a, 0x86, 0x48, 0x86, 0xf7, 0x0d, 0x01];
    assert(oid@ =~= root);
    let mut rest = tail;
    oid.append(&mut rest);
    assert(oid@ =~= wanted);
    if element.tag != TAG_OID || element.stop - element.start != oid.len() {
        assert(found.len() == element.stop - element.start);
        return false;
    }
    let mut i: usize = 0;
    while i < oid.len()
        invariant
            i <= oid@.len(),
            oid@ == wanted,
            is_inside(bytes@, element),
            is_oid(bytes@, element@, tail@) == (found == wanted),
            element.stop - element.start == oid@.len(),
            found == bytes@.subrange(element.start as int, element.stop as int),
            forall|k: int| 0 <= k < i ==> #[trigger] found[k] == wanted[k],
        decreases oid@.len() - i,
    {
        assert(found[i as int] == bytes@[element.start + i]);
        if bytes[element.start + i] != oid[i] {
            assert(found[i as int] != wanted[i as int]);
            return false;
        }
        i = i + 1;
    }
    assert(found =~= wanted);
    true
}

fn check_zero(bytes: &[u8], element: Element) -> (zero: bool)
    requires
        is_inside(bytes@, element),
    ensures
        zero == is_zero(bytes@, element@),
{
    element.tag == TAG_INTEGER && element.stop - element.start == 1 && bytes[element.start] == 0
}

fn check_parameters(bytes: &[u8], algorithm: Element) -> (fit: bool)
    requires
        is_inside(bytes@, algorithm),
    ensures
        fit == parameters_fit(bytes@, algorithm@),
{
    match read_first(bytes, algorithm) {
        None => true,
        Some(kind) => kind.stop >= algorithm.stop || read_next(bytes, kind, algorithm).is_some(),
    }
}

fn check_rounds(bytes: &[u8], algorithm: Element) -> (fit: bool)
    requires
        is_inside(bytes@, algorithm),
    ensures
        fit == rounds_fit(bytes@, algorithm@),
{
    let kind = match read_first(bytes, algorithm) {
        Some(kind) => kind,
        None => {
            return true;
        },
    };
    let triple_des: Vec<u8> = vec![12, 1, 3];
    let rc2: Vec<u8> = vec![12, 1, 6];
    assert(triple_des@ =~= seq![12u8, 1u8, 3u8]);
    assert(rc2@ =~= seq![12u8, 1u8, 6u8]);
    if !has_oid(bytes, kind, triple_des) && !has_oid(bytes, kind, rc2) {
        return true;
    }
    let parameters = match read_next(bytes, kind, algorithm) {
        Some(parameters) => parameters,
        None => {
            return true;
        },
    };
    let salt = match read_first(bytes, parameters) {
        Some(salt) => salt,
        None => {
            return true;
        },
    };
    match read_next(bytes, salt, parameters) {
        Some(rounds) => rounds.stop - rounds.start <= MAX_ROUNDS_BYTES,
        None => true,
    }
}

fn check_known_encryption(bytes: &[u8], data: Element) -> (known: bool)
    requires
        is_inside(bytes@, data),
    ensures
        known == is_known_encryption(bytes@, data@),
{
    let version = match read_first(bytes, data) {
        Some(version) => version,
        None => {
            return true;
        },
    };
    if !check_zero(bytes, version) {
        return false;
    }
    let info = match read_next(bytes, version, data) {
        Some(info) => info,
        None => {
            return true;
        },
    };
    let kind = match read_first(bytes, info) {
        Some(kind) => kind,
        None => {
            return true;
        },
    };
    let plain: Vec<u8> = vec![7, 1];
    assert(plain@ =~= seq![7u8, 1u8]);
    if !has_oid(bytes, kind, plain) {
        return false;
    }
    match read_next(bytes, kind, info) {
        Some(algorithm) => check_parameters(bytes, algorithm) && check_rounds(bytes, algorithm),
        None => true,
    }
}

fn check_known_part(bytes: &[u8], part: Element) -> (known: bool)
    requires
        is_inside(bytes@, part),
    ensures
        known == is_known_part(bytes@, part@),
{
    let kind = match read_first(bytes, part) {
        Some(kind) => kind,
        None => {
            return true;
        },
    };
    let wrapper = match read_next(bytes, kind, part) {
        Some(wrapper) => wrapper,
        None => {
            return true;
        },
    };
    let encrypted: Vec<u8> = vec![7, 6];
    assert(encrypted@ =~= seq![7u8, 6u8]);
    match read_first(bytes, wrapper) {
        Some(content) => !has_oid(bytes, kind, encrypted) || check_known_encryption(bytes, content),
        None => false,
    }
}

/// Checks that the bytes can be read as a part of a bundle.
pub fn check_part(bytes: &[u8]) -> (readable: bool)
    ensures
        readable == is_readable_part(bytes@),
{
    match read_element(bytes, 0, bytes.len()) {
        None => true,
        Some(part) => check_known_part(bytes, part),
    }
}

fn check_checksum(bytes: &[u8], checksum: Element) -> (known: bool)
    requires
        is_inside(bytes@, checksum),
    ensures
        known == is_known_checksum(bytes@, checksum@),
{
    match read_first(bytes, checksum) {
        None => true,
        Some(digest) => match read_first(bytes, digest) {
            None => true,
            Some(algorithm) => check_parameters(bytes, algorithm),
        },
    }
}

/// Checks that the bytes can be read as a bundle.
pub fn check_bundle(bytes: &[u8]) -> (readable: bool)
    ensures
        readable == is_readable_bundle(bytes@),
{
    let bundle = match read_element(bytes, 0, bytes.len()) {
        Some(bundle) => bundle,
        None => {
            return true;
        },
    };
    let version = match read_first(bytes, bundle) {
        Some(version) => version,
        None => {
            return true;
        },
    };
    let part = match read_next(bytes, version, bundle) {
        Some(part) => part,
        None => {
            return true;
        },
    };
    if !check_known_part(bytes, part) {
        return false;
    }
    match read_next(bytes, part, bundle) {
        Some(checksum) => check_checksum(bytes, checksum),
        None => true,
    }
}

fn check_elements(bytes: &[u8], outer: Element) -> (fit: bool)
    requires
        is_inside(bytes@, outer),
    ensures
        fit == elements_fit(bytes@, outer.start as int, outer.stop as int),
{
    let mut at: usize = outer.start;
    while at < outer.stop
        invariant
            at <= outer.stop <= bytes@.len(),
            elements_fit(bytes@, outer.start as int, outer.stop as int) == elements_fit(
                bytes@,
                at as int,
                outer.stop as int,
            ),
        decreases outer.stop - at,
    {
        match read_element(bytes, at, outer.stop) {
            Some(element) => {
                at = element.stop;
            },
            None => {
                return false;
            },
        }
    }
    true
}

fn check_attributes(bytes: &[u8], outer: Element) -> (fit: bool)
    requires
        is_inside(bytes@, outer),
    ensures
        fit == attributes_fit(bytes@, outer.start as int, outer.stop as int),
{
    let mut at: usize = outer.start;
    while at < outer.stop
        invariant
            at <= outer.stop <= bytes@.len(),
            attributes_fit(bytes@, outer.start as int, outer.stop as int) == attributes_fit(
                bytes@,
                at as int,
                outer.stop as int,
            ),
        decreases outer.stop - at,
    {
        let attribute = match read_element(bytes, at, outer.stop) {
            Some(attribute) => attribute,
            None => {
                return true;
            },
        };
        if let Some(kind) = read_first(bytes, attribute) {
            if let Some(values) = read_next(bytes, kind, attribute) {
                if !check_elements(bytes, values) {
                    return false;
                }
            }
        }
        at = attribute.stop;
    }
    true
}

fn check_bag(bytes: &[u8], bag: Element) -> (known: bool)
    requires
        is_inside(bytes@, bag),
    ensures
        known == is_known_bag(bytes@, bag@),
{
    let kind = match read_first(bytes, bag) {
        Some(kind) => kind,
        None => {
            return true;
        },
    };
    let wrapper = match read_next(bytes, kind, bag) {
        Some(wrapper) => wrapper,
        None => {
            return true;
        },
    };
    let key = match read_first(bytes, wrapper) {
        Some(key) => key,
        None => {
            return false;
        },
    };
    let key_bag: Vec<u8> = vec![12, 10, 1, 2];
    assert(key_bag@ =~= seq![12u8, 10u8, 1u8, 2u8]);
    if has_oid(bytes, kind, key_bag) {
        if let Some(algorithm) = read_first(bytes, key) {
            if !check_parameters(bytes, algorithm) || !check_rounds(bytes, algorithm) {
                return false;
            }
        }
    }
    match read_next(bytes, wrapper, bag) {
        Some(attributes) => check_attributes(bytes, attributes),
        None => true,
    }
}

/// Checks that the bytes can be read as what a part holds.
pub fn check_content(bytes: &[u8]) -> (readable: bool)
    ensures
        readable == is_readable_content(bytes@),
{
    let bags = match read_element(bytes, 0, bytes.len()) {
        Some(bags) => bags,
        None => {
            return true;
        },
    };
    let mut at: usize = bags.start;
    while at < bags.stop
        invariant
            at <= bags.stop <= bytes@.len(),
            is_readable_content(bytes@) == are_known_bags(bytes@, at as int, bags.stop as int),
        decreases bags.stop - at,
    {
        let bag = match read_element(bytes, at, bags.stop) {
            Some(bag) => bag,
            None => {
                return true;
            },
        };
        if !check_bag(bytes, bag) {
            return false;
        }
        at = bag.stop;
    }
    true
}

/// The bytes of each item.
pub open spec fn item_bytes(items: Seq<Vec<u8>>) -> Seq<Seq<u8>> {
    items.map_values(|item: Vec<u8>| item@)
}

/// Takes a sequence apart into its elements.
pub fn split_items(bytes: &[u8]) -> (parts: Vec<Vec<u8>>)
    ensures
        item_bytes(parts@) == items(bytes@),
{
    let mut parts: Vec<Vec<u8>> = Vec::new();
    let sequence = match read_element(bytes, 0, bytes.len()) {
        Some(sequence) => sequence,
        None => {
            assert(item_bytes(parts@) =~= items(bytes@));
            return parts;
        },
    };
    let mut at: usize = sequence.start;
    let end: usize = sequence.stop;
    assert(item_bytes(parts@) =~= seq![]);
    assert(seq![] + items(bytes@) =~= items(bytes@));
    while at < end
        invariant
            at <= end <= bytes@.len(),
            items(bytes@) == item_bytes(parts@) + elements(bytes@, at as int, end as int),
        decreases end - at,
    {
        let element = match read_element(bytes, at, end) {
            Some(element) => element,
            None => {
                assert(item_bytes(parts@) =~= items(bytes@));
                return parts;
            },
        };
        let ghost before = parts@;
        let ghost rest = elements(bytes@, element.stop as int, end as int);
        let part = slice_to_vec(slice_subrange(bytes, at, element.stop));
        parts.push(part);
        assert(part@ =~= bytes@.subrange(at as int, element.stop as int));
        assert(item_bytes(parts@) =~= item_bytes(before).push(part@));
        assert(item_bytes(before) + (seq![part@] + rest) =~= item_bytes(parts@) + rest);
        at = element.stop;
    }
    assert(item_bytes(parts@) =~= items(bytes@));
    parts
}

/// The bytes of a character in UTF-16, the higher byte of each unit first.
pub open spec fn utf16_bytes(c: char) -> Seq<u8> {
    let code = c as u32 as int;
    if code < 0x1_0000 {
        seq![(code / 256) as u8, (code % 256) as u8]
    } else {
        let high = 0xd800 + (code - 0x1_0000) / 1024;
        let low = 0xdc00 + (code - 0x1_0000) % 1024;
        seq![(high / 256) as u8, (high % 256) as u8, (low / 256) as u8, (low % 256) as u8]
    }
}

/// The bytes of a text in UTF-16.
pub open spec fn utf16_text(text: Seq<char>) -> Seq<u8>
    decreases text.len(),
{
    if text.len() == 0 {
        seq![]
    } else {
        utf16_text(text.drop_last()) + utf16_bytes(text.last())
    }
}

/// A password as a bundle's keys are derived from it: in UTF-16, with a zero
/// unit at the end.
pub open spec fn password_bytes(text: Seq<char>) -> Seq<u8> {
    utf16_text(text) + seq![0u8, 0u8]
}

/// Encodes a password as a bundle's keys are derived from it.
pub fn encode_password(text: &str) -> (bytes: Vec<u8>)
    ensures
        bytes@ == password_bytes(text@),
{
    let mut bytes: Vec<u8> = Vec::new();
    let len: usize = text.unicode_len();
    let mut i: usize = 0;
    assert(text@.take(0) =~= seq![]);
    while i < len
        invariant
            i <= len,
            len == text@.len(),
            bytes@ == utf16_text(text@.take(i as int)),
        decreases len - i,
    {
        let c = text.get_char(i);
        let ghost before = bytes@;
        let code: u32 = c as u32;
        if code < 0x1_0000 {
            bytes.push((code / 256) as u8);
            bytes.push((code % 256) as u8);
        } else {
            let high: u32 = 0xd800 + (code - 0x1_0000) / 1024;
            let low: u32 = 0xdc00 + (code - 0x1_0000) % 1024;
            bytes.push((high / 256) as u8);
            bytes.push((high % 256) as u8);
            bytes.push((low / 256) as u8);
            bytes.push((low % 256) as u8);
        }
        proof {
            let next = text@.take(i + 1);
            assert(next.drop_last() =~= text@.take(i as int));
            assert(next.last() == c);
            assert(bytes@ =~= before + utf16_bytes(c));
        }
        i = i + 1;
    }
    assert(text@.take(len as int) =~= text@);
    bytes.push(0);
    bytes.push(0);
    assert(bytes@ =~= password_bytes(text@));
    bytes
}

} // verus!
