//! Extended display identification data: validation and the serial a display publishes in it.

use super::identity::MonitorIdentificationError;
use crate::bytes::same_bytes;
use crate::device::ReportedId;
use crate::text;
use crate::text::{a_decimal_spelling_reads_back, decimal_spelling, number_spelled_by};
use vstd::prelude::*;
use vstd::std_specs::cmp::PartialEqSpecImpl;
use vstd::utf8::encode_utf8;

verus! {

/// Bytes in one block.
pub const BLOCK_SIZE: usize = 128;

/// Where the four display descriptors of the base block start.
pub const DESCRIPTOR_START: usize = 54;

/// Bytes in one display descriptor.
pub const DESCRIPTOR_SIZE: usize = 18;

/// Where the base block says how many extension blocks follow.
pub const EXTENSION_COUNT_INDEX: usize = 126;

/// Format in which a window system must deliver the data: eight bits for each item.
pub const PROPERTY_FORMAT: u8 = 8;

/// Tag of a display descriptor that holds a text serial.
pub const SERIAL_DESCRIPTOR_TAG: u8 = 0xff;

/// Where the numeric serial starts.
pub const SERIAL_START: usize = 12;

/// Where the numeric serial ends.
pub const SERIAL_END: usize = 16;

/// Where the text of a serial descriptor starts.
pub const TEXT_SERIAL_START: usize = 5;

/// The eight bytes that every base block starts with.
pub open spec fn header() -> Seq<u8> {
    seq![0u8, 0xff, 0xff, 0xff, 0xff, 0xff, 0xff, 0]
}

/// The sum of all bytes.
pub open spec fn byte_sum(bytes: Seq<u8>) -> int
    decreases bytes.len(),
{
    if bytes.len() == 0 {
        0
    } else {
        byte_sum(bytes.drop_last()) + bytes.last()
    }
}

/// The bytes of one block.
pub open spec fn block(edid: Seq<u8>, index: int) -> Seq<u8> {
    edid.subrange(index * BLOCK_SIZE, (index + 1) * BLOCK_SIZE)
}

/// Whether the data is complete: the header, as many blocks as the base block declares, and in
/// each of them a checksum byte that brings the sum of the block to a multiple of 256.
pub open spec fn is_valid_edid(edid: Seq<u8>) -> bool {
    &&& edid.len() >= BLOCK_SIZE
    &&& edid.take(8) == header()
    &&& edid.len() == (edid[EXTENSION_COUNT_INDEX as int] + 1) * BLOCK_SIZE
    &&& forall|index: int|
        0 <= index <= edid[EXTENSION_COUNT_INDEX as int] ==> byte_sum(#[trigger] block(edid, index))
            % 256 == 0
}

/// The numeric serial, least significant byte first.
pub open spec fn numeric_serial(edid: Seq<u8>) -> nat {
    (edid[12] + 0x100 * edid[13] + 0x1_0000 * edid[14] + 0x100_0000 * edid[15]) as nat
}

/// Whether a byte only pads a text serial.
pub open spec fn is_padding(byte: u8) -> bool {
    byte == 0 || byte == 0x20 || byte == 0x09 || byte == 0x0a || byte == 0x0d
}

/// The bytes without the padding in front of them.
pub open spec fn trim_front(bytes: Seq<u8>) -> Seq<u8>
    decreases bytes.len(),
{
    if bytes.len() > 0 && is_padding(bytes.first()) {
        trim_front(bytes.drop_first())
    } else {
        bytes
    }
}

/// The bytes without the padding behind them.
pub open spec fn trim_back(bytes: Seq<u8>) -> Seq<u8>
    decreases bytes.len(),
{
    if bytes.len() > 0 && is_padding(bytes.last()) {
        trim_back(bytes.drop_last())
    } else {
        bytes
    }
}

/// The bytes without the padding around them.
pub open spec fn trimmed(bytes: Seq<u8>) -> Seq<u8> {
    trim_back(trim_front(bytes))
}

/// Whether a byte is a visible ASCII character or a space.
pub open spec fn is_printable(byte: u8) -> bool {
    0x20 <= byte <= 0x7e
}

/// The text that ASCII bytes spell.
pub open spec fn ascii_text(bytes: Seq<u8>) -> Seq<char> {
    bytes.map_values(|byte: u8| byte as char)
}

/// Whether a character is an ASCII letter or digit.
pub open spec fn is_alphanumeric(character: char) -> bool {
    ('0' <= character <= '9') || ('A' <= character <= 'Z') || ('a' <= character <= 'z')
}

/// The upper-case form of an ASCII letter; any other character is unchanged.
pub open spec fn upper_case(character: char) -> char {
    if 'a' <= character <= 'z' {
        (character as u32 - 0x20) as char
    } else {
        character
    }
}

/// The letters and digits of a serial, in upper case.
pub open spec fn placeholder_key(serial: Seq<char>) -> Seq<char>
    decreases serial.len(),
{
    if serial.len() == 0 {
        Seq::empty()
    } else if is_alphanumeric(serial.last()) {
        placeholder_key(serial.drop_last()).push(upper_case(serial.last()))
    } else {
        placeholder_key(serial.drop_last())
    }
}

/// Whether text consists of repetitions of one character, or of nothing.
pub open spec fn repeats_only(text: Seq<char>, character: char) -> bool {
    forall|i: int| 0 <= i < text.len() ==> text[i] == character
}

/// Whether a key stands for a missing serial rather than for a unit.
pub open spec fn is_placeholder_word(key: Seq<char>) -> bool {
    ||| key == "DEFAULT"@
    ||| key == "GENERIC"@
    ||| key == "NA"@
    ||| key == "NONE"@
    ||| key == "NOSERIAL"@
    ||| key == "NOTAVAILABLE"@
    ||| key == "NOTSPECIFIED"@
    ||| key == "SERIAL"@
    ||| key == "SERIALNUMBER"@
    ||| key == "UNKNOWN"@
    ||| key == "UNSPECIFIED"@
}

/// Whether text names a unit: it has letters or digits that are not all `0`, not all `F`, and not
/// a word for a missing serial.
pub open spec fn names_a_unit(serial: Seq<char>) -> bool {
    let key = placeholder_key(serial);
    &&& !repeats_only(key, '0')
    &&& !repeats_only(key, 'F')
    &&& !is_placeholder_word(key)
}

/// Whether a display descriptor holds a text serial.
pub open spec fn is_serial_descriptor(descriptor: Seq<u8>) -> bool {
    &&& descriptor[0] == 0
    &&& descriptor[1] == 0
    &&& descriptor[2] == 0
    &&& descriptor[3] == SERIAL_DESCRIPTOR_TAG
    &&& descriptor[4] == 0
}

/// The usable text serial of a display descriptor.
pub open spec fn text_serial(descriptor: Seq<u8>) -> Option<Seq<char>> {
    let serial = trimmed(descriptor.skip(TEXT_SERIAL_START as int));
    if is_serial_descriptor(descriptor) && (forall|i: int|
        0 <= i < serial.len() ==> is_printable(#[trigger] serial[i])) && names_a_unit(
        ascii_text(serial),
    ) {
        Some(ascii_text(serial))
    } else {
        None
    }
}

/// One of the four display descriptors of the base block.
pub open spec fn descriptor(edid: Seq<u8>, index: int) -> Seq<u8> {
    edid.subrange(
        DESCRIPTOR_START + index * DESCRIPTOR_SIZE,
        DESCRIPTOR_START + (index + 1) * DESCRIPTOR_SIZE,
    )
}

/// The first usable text serial among the display descriptors from `index` on.
pub open spec fn first_text_serial(edid: Seq<u8>, index: int) -> Option<Seq<char>>
    decreases 4 - index,
{
    if index >= 4 {
        None
    } else if text_serial(descriptor(edid, index)) is Some {
        text_serial(descriptor(edid, index))
    } else {
        first_text_serial(edid, index + 1)
    }
}

/// The serial that valid data publishes: the numeric one unless all its bits agree, else the first
/// usable text serial.
pub open spec fn published_serial(edid: Seq<u8>) -> Option<Seq<char>> {
    if numeric_serial(edid) != 0 && numeric_serial(edid) != u32::MAX {
        Some(decimal_spelling(numeric_serial(edid)))
    } else {
        first_text_serial(edid, 0)
    }
}

/// Durable display identity carried by structurally valid data.
#[derive(Debug, Hash)]
pub enum EdidIdentityEvidence {
    /// Serial value published by the display in either serial field.
    ReportedSerial(ReportedId),
    /// Complete validated data, used only when neither serial field supplies a usable value.
    Descriptor(Vec<u8>),
}

/// The contents of an [`EdidIdentityEvidence`].
pub enum EdidIdentityView {
    ReportedSerial(Seq<char>),
    Descriptor(Seq<u8>),
}

impl View for EdidIdentityEvidence {
    type V = EdidIdentityView;

    open spec fn view(&self) -> EdidIdentityView {
        match self {
            EdidIdentityEvidence::ReportedSerial(id) => EdidIdentityView::ReportedSerial(id@),
            EdidIdentityEvidence::Descriptor(edid) => EdidIdentityView::Descriptor(edid@),
        }
    }
}

impl EdidIdentityView {
    /// Bytes that identify the display.
    pub open spec fn stable_bytes(self) -> Seq<u8> {
        match self {
            EdidIdentityView::ReportedSerial(id) => encode_utf8(id),
            EdidIdentityView::Descriptor(edid) => edid,
        }
    }
}

impl EdidIdentityEvidence {
    /// Bytes that identify the display: the serial's text, or all of the data.
    pub fn stable_bytes(&self) -> (result: &[u8])
        ensures
            result@ == self@.stable_bytes(),
    {
        match self {
            EdidIdentityEvidence::ReportedSerial(reported_id) => reported_id.as_str().as_bytes(),
            EdidIdentityEvidence::Descriptor(edid) => edid.as_slice(),
        }
    }
}

impl Clone for EdidIdentityEvidence {
    fn clone(&self) -> (copy: Self)
        ensures
            copy@ == self@,
    {
        match self {
            EdidIdentityEvidence::ReportedSerial(id) => EdidIdentityEvidence::ReportedSerial(
                id.clone(),
            ),
            EdidIdentityEvidence::Descriptor(edid) => EdidIdentityEvidence::Descriptor(
                crate::bytes::copied(edid.as_slice()),
            ),
        }
    }
}

impl PartialEq for EdidIdentityEvidence {
    fn eq(&self, other: &Self) -> (same: bool) {
        match (self, other) {
            (
                EdidIdentityEvidence::ReportedSerial(id),
                EdidIdentityEvidence::ReportedSerial(other_id),
            ) => id == other_id,
            (
                EdidIdentityEvidence::Descriptor(edid),
                EdidIdentityEvidence::Descriptor(other_edid),
            ) => same_bytes(edid.as_slice(), other_edid.as_slice()),
            _ => false,
        }
    }
}

impl PartialEqSpecImpl for EdidIdentityEvidence {
    open spec fn obeys_eq_spec() -> bool {
        true
    }

    open spec fn eq_spec(&self, other: &Self) -> bool {
        self@ == other@
    }
}

impl Eq for EdidIdentityEvidence {

}

/// Reads identity out of extended display identification data.
pub struct EdidEvidence;

/// The identity that data carries, or `None` when it is not valid.
pub open spec fn edid_identity(edid: Seq<u8>) -> Option<EdidIdentityView> {
    if !is_valid_edid(edid) {
        None
    } else {
        match published_serial(edid) {
            Some(serial) => Some(EdidIdentityView::ReportedSerial(serial)),
            None => Some(EdidIdentityView::Descriptor(edid)),
        }
    }
}

proof fn decimal_spelling_is_not_empty(number: nat)
    ensures
        decimal_spelling(number).len() > 0,
{
}

proof fn byte_sum_of_prefix(bytes: Seq<u8>, length: int)
    requires
        0 <= length < bytes.len(),
    ensures
        byte_sum(bytes.take(length + 1)) == byte_sum(bytes.take(length)) + bytes[length],
{
    assert(bytes.take(length + 1).drop_last() =~= bytes.take(length));
}

proof fn placeholder_key_of_prefix(serial: Seq<char>, length: int)
    requires
        0 <= length < serial.len(),
    ensures
        placeholder_key(serial.take(length + 1)) == if is_alphanumeric(serial[length]) {
            placeholder_key(serial.take(length)).push(upper_case(serial[length]))
        } else {
            placeholder_key(serial.take(length))
        },
{
    assert(serial.take(length + 1).drop_last() =~= serial.take(length));
}

proof fn trim_front_skips_padding(bytes: Seq<u8>, start: int)
    requires
        0 <= start <= bytes.len(),
        forall|i: int| 0 <= i < start ==> is_padding(#[trigger] bytes[i]),
        start < bytes.len() ==> !is_padding(bytes[start]),
    ensures
        trim_front(bytes) == bytes.skip(start),
    decreases start,
{
    if start == 0 {
        assert(bytes.skip(0) =~= bytes);
    } else {
        let rest = bytes.drop_first();
        assert forall|i: int| 0 <= i < start - 1 implies is_padding(#[trigger] rest[i]) by {
            assert(rest[i] == bytes[i + 1]);
        }
        trim_front_skips_padding(rest, start - 1);
        assert(is_padding(bytes[0]));
        assert(rest.skip(start - 1) =~= bytes.skip(start));
    }
}

proof fn trim_back_skips_padding(bytes: Seq<u8>, end: int)
    requires
        0 <= end <= bytes.len(),
        forall|i: int| end <= i < bytes.len() ==> is_padding(#[trigger] bytes[i]),
        end > 0 ==> !is_padding(bytes[end - 1]),
    ensures
        trim_back(bytes) == bytes.take(end),
    decreases bytes.len() - end,
{
    if end == bytes.len() {
        assert(bytes.take(end) =~= bytes);
    } else {
        let rest = bytes.drop_last();
        assert forall|i: int| end <= i < rest.len() implies is_padding(#[trigger] rest[i]) by {
            assert(rest[i] == bytes[i]);
        }
        trim_back_skips_padding(rest, end);
        assert(is_padding(bytes[bytes.len() - 1]));
        assert(rest.take(end) =~= bytes.take(end));
    }
}

/// The part of a padded serial field that is not padding.
pub fn trim_serial_padding(serial: &[u8]) -> (result: &[u8])
    ensures
        result@ == trimmed(serial@),
{
    let mut start: usize = 0;
    while start < serial.len() && (serial[start] == 0 || serial[start] == 0x20 || serial[start]
        == 0x09 || serial[start] == 0x0a || serial[start] == 0x0d)
        invariant
            start <= serial.len(),
            forall|i: int| 0 <= i < start ==> is_padding(#[trigger] serial@[i]),
        decreases serial.len() - start,
    {
        start += 1;
    }
    let mut end: usize = serial.len();
    while end > start && (serial[end - 1] == 0 || serial[end - 1] == 0x20 || serial[end - 1]
        == 0x09 || serial[end - 1] == 0x0a || serial[end - 1] == 0x0d)
        invariant
            start <= end <= serial.len(),
            forall|i: int| end <= i < serial.len() ==> is_padding(#[trigger] serial@[i]),
        decreases end,
    {
        end -= 1;
    }
    proof {
        trim_front_skips_padding(serial@, start as int);
        let front = serial@.skip(start as int);
        assert forall|i: int| end - start <= i < front.len() implies is_padding(
            #[trigger] front[i],
        ) by {
            assert(front[i] == serial@[i + start]);
        }
        trim_back_skips_padding(front, end - start);
        assert(front.take(end - start) =~= serial@.subrange(start as int, end as int));
    }
    vstd::slice::slice_subrange(serial, start, end)
}

/// The letters and digits of `serial`, in upper case.
pub fn normalized_placeholder_key(serial: &str) -> (result: String)
    ensures
        result@ == placeholder_key(serial@),
{
    let characters = text::characters(serial);
    let mut result: String = String::new();
    let mut index: usize = 0;
    while index < characters.len()
        invariant
            index <= characters.len(),
            result@ == placeholder_key(characters@.take(index as int)),
        decreases characters.len() - index,
    {
        let character = characters[index];
        proof {
            placeholder_key_of_prefix(characters@, index as int);
        }
        if 'a' <= character && character <= 'z' {
            result.push(upper_letter(character));
        } else if ('0' <= character && character <= '9') || ('A' <= character && character <= 'Z') {
            result.push(character);
        }
        index += 1;
    }
    assert(characters@.take(index as int) =~= characters@);
    result
}

fn upper_letter(character: char) -> (result: char)
    requires
        'a' <= character <= 'z',
    ensures
        result == upper_case(character),
{
    (character as u8 - 0x20) as char
}

/// The text that printable bytes spell.
fn text_of_printable(bytes: &[u8]) -> (result: String)
    requires
        forall|i: int| 0 <= i < bytes@.len() ==> is_printable(#[trigger] bytes@[i]),
    ensures
        result@ == ascii_text(bytes@),
{
    let mut result: String = String::new();
    let mut index: usize = 0;
    while index < bytes.len()
        invariant
            index <= bytes.len(),
            result@ == ascii_text(bytes@.take(index as int)),
        decreases bytes.len() - index,
    {
        result.push(bytes[index] as char);
        assert(ascii_text(bytes@.take(index + 1)) =~= ascii_text(bytes@.take(index as int)).push(
            bytes@[index as int] as char,
        ));
        index += 1;
    }
    assert(bytes@.take(index as int) =~= bytes@);
    result
}

/// Whether every character of `text` is `character`.
fn consists_of(text: &str, character: char) -> (result: bool)
    ensures
        result == repeats_only(text@, character),
{
    let characters = text::characters(text);
    let mut index: usize = 0;
    while index < characters.len()
        invariant
            index <= characters.len(),
            characters@ == text@,
            forall|i: int| 0 <= i < index ==> text@[i] == character,
        decreases characters.len() - index,
    {
        if characters[index] != character {
            return false;
        }
        index += 1;
    }
    true
}

/// Whether `key` stands for a missing serial.
fn is_placeholder(key: &String) -> (result: bool)
    ensures
        result == is_placeholder_word(key@),
{
    *key == "DEFAULT".to_owned() || *key == "GENERIC".to_owned() || *key == "NA".to_owned() || *key
        == "NONE".to_owned() || *key == "NOSERIAL".to_owned() || *key == "NOTAVAILABLE".to_owned()
        || *key == "NOTSPECIFIED".to_owned() || *key == "SERIAL".to_owned() || *key
        == "SERIALNUMBER".to_owned() || *key == "UNKNOWN".to_owned() || *key
        == "UNSPECIFIED".to_owned()
}

/// The sum of `bytes`, reduced to one byte.
fn checksum(bytes: &[u8], start: usize, end: usize) -> (result: u8)
    requires
        start <= end <= bytes@.len(),
    ensures
        result as int == byte_sum(bytes@.subrange(start as int, end as int)) % 256,
{
    let mut sum: u8 = 0;
    let mut index: usize = start;
    let ghost part = bytes@.subrange(start as int, end as int);
    while index < end
        invariant
            start <= index <= end <= bytes@.len(),
            part == bytes@.subrange(start as int, end as int),
            sum as int == byte_sum(part.take(index - start)) % 256,
        decreases end - index,
    {
        proof {
            byte_sum_of_prefix(part, index - start);
        }
        sum = sum.wrapping_add(bytes[index]);
        index += 1;
    }
    assert(part.take(index - start) =~= part);
    sum
}

impl EdidEvidence {
    /// Validate complete data and extract the identity it carries.
    pub fn qualify(edid: Vec<u8>) -> (result: Result<
        EdidIdentityEvidence,
        MonitorIdentificationError,
    >)
        ensures
            match edid_identity(edid@) {
                Some(identity) => result matches Ok(evidence) && evidence@ == identity,
                None => result matches Err(error) && error
                    == MonitorIdentificationError::InvalidStableIdentity,
            },
    {
        let valid = Self::is_valid(edid.as_slice());
        if !valid {
            return Err(MonitorIdentificationError::InvalidStableIdentity);
        }
        match Self::serial_state(edid.as_slice()) {
            Some(reported_id) => Ok(EdidIdentityEvidence::ReportedSerial(reported_id)),
            None => Ok(EdidIdentityEvidence::Descriptor(edid)),
        }
    }

    /// Whether `edid` is complete and every block's checksum holds.
    fn is_valid(edid: &[u8]) -> (result: bool)
        ensures
            result == is_valid_edid(edid@),
    {
        if edid.len() < BLOCK_SIZE {
            return false;
        }
        let header_bytes: [u8; 8] = [0x00, 0xff, 0xff, 0xff, 0xff, 0xff, 0xff, 0x00];
        assert(header_bytes@ =~= header());
        let start = vstd::slice::slice_subrange(edid, 0, 8);
        assert(start@ =~= edid@.take(8));
        if !same_bytes(start, header_bytes.as_slice()) {
            return false;
        }
        let block_count: usize = edid[EXTENSION_COUNT_INDEX] as usize + 1;
        if edid.len() != block_count * BLOCK_SIZE {
            return false;
        }
        let mut index: usize = 0;
        while index < block_count
            invariant
                index <= block_count <= 256,
                block_count == edid@[EXTENSION_COUNT_INDEX as int] + 1,
                edid@.len() == block_count * BLOCK_SIZE,
                forall|i: int|
                    0 <= i < index ==> byte_sum(#[trigger] block(edid@, i)) % 256 == 0,
            decreases block_count - index,
        {
            if checksum(edid, index * BLOCK_SIZE, (index + 1) * BLOCK_SIZE) != 0 {
                assert(byte_sum(block(edid@, index as int)) % 256 != 0);
                return false;
            }
            index += 1;
        }
        true
    }

    /// The serial that valid data publishes.
    fn serial_state(edid: &[u8]) -> (result: Option<ReportedId>)
        requires
            edid@.len() >= BLOCK_SIZE,
        ensures
            match published_serial(edid@) {
                Some(serial) => result matches Some(id) && id@ == serial,
                None => result is None,
            },
    {
        let number: u32 = edid[12] as u32 + 0x100 * edid[13] as u32 + 0x1_0000 * edid[14] as u32
            + 0x100_0000 * edid[15] as u32;
        assert(number == numeric_serial(edid@));
        if number != 0 && number != u32::MAX {
            let spelling = text::decimal(number as u64);
            proof {
                decimal_spelling_is_not_empty(number as nat);
            }
            return match ReportedId::new(spelling.as_str()) {
                Ok(reported_id) => Some(reported_id),
                Err(_) => None,
            };
        }
        let mut index: usize = 0;
        while index < 4
            invariant
                index <= 4,
                edid@.len() >= BLOCK_SIZE,
                published_serial(edid@) == first_text_serial(edid@, index as int),
            decreases 4 - index,
        {
            let start: usize = DESCRIPTOR_START + index * DESCRIPTOR_SIZE;
            let candidate = vstd::slice::slice_subrange(edid, start, start + DESCRIPTOR_SIZE);
            assert(candidate@ =~= descriptor(edid@, index as int));
            let serial = Self::qualified_text_serial(candidate);
            if serial.is_some() {
                return serial;
            }
            index += 1;
        }
        None
    }

    /// The usable text serial of one display descriptor.
    fn qualified_text_serial(descriptor: &[u8]) -> (result: Option<ReportedId>)
        requires
            descriptor@.len() == DESCRIPTOR_SIZE,
        ensures
            match text_serial(descriptor@) {
                Some(serial) => result matches Some(id) && id@ == serial,
                None => result is None,
            },
    {
        if descriptor[0] != 0 || descriptor[1] != 0 || descriptor[2] != 0 || descriptor[3]
            != SERIAL_DESCRIPTOR_TAG || descriptor[4] != 0 {
            return None;
        }
        let field = vstd::slice::slice_subrange(descriptor, TEXT_SERIAL_START, DESCRIPTOR_SIZE);
        assert(field@ =~= descriptor@.skip(TEXT_SERIAL_START as int));
        let serial_bytes = trim_serial_padding(field);
        let mut index: usize = 0;
        while index < serial_bytes.len()
            invariant
                index <= serial_bytes.len(),
                descriptor@.len() == DESCRIPTOR_SIZE,
                serial_bytes@ == trimmed(descriptor@.skip(TEXT_SERIAL_START as int)),
                forall|i: int| 0 <= i < index ==> is_printable(#[trigger] serial_bytes@[i]),
            decreases serial_bytes.len() - index,
        {
            if serial_bytes[index] < 0x20 || serial_bytes[index] > 0x7e {
                assert(!is_printable(serial_bytes@[index as int]));
                return None;
            }
            index += 1;
        }
        let serial = text_of_printable(serial_bytes);
        let key = normalized_placeholder_key(serial.as_str());
        if consists_of(key.as_str(), '0') || consists_of(key.as_str(), 'F') {
            return None;
        }
        if is_placeholder(&key) {
            return None;
        }
        assert(serial@.len() > 0) by {
            if serial@.len() == 0 {
                assert(key@.len() == 0);
            }
        }
        match ReportedId::new(serial.as_str()) {
            Ok(reported_id) => Some(reported_id),
            Err(_) => None,
        }
    }
}

/// Changing exactly one byte of valid data makes it invalid.
pub proof fn one_changed_byte_is_rejected(edid: Seq<u8>, position: int, byte: u8)
    requires
        is_valid_edid(edid),
        0 <= position < edid.len(),
        byte != edid[position],
    ensures
        edid_identity(edid.update(position, byte)) is None,
{
    let changed = edid.update(position, byte);
    if is_valid_edid(changed) {
        if position != EXTENSION_COUNT_INDEX {
            let index = position / (BLOCK_SIZE as int);
            let offset = position - index * BLOCK_SIZE;
            let before = block(edid, index);
            assert(block(changed, index) =~= before.update(offset, byte));
            byte_sum_of_update(before, offset, byte);
            assert(byte_sum(block(edid, index)) % 256 == 0);
            assert(byte_sum(block(changed, index)) % 256 == 0);
        }
    }
}

/// Valid data with its end cut off is invalid.
pub proof fn truncated_data_is_rejected(edid: Seq<u8>, length: int)
    requires
        is_valid_edid(edid),
        0 <= length < edid.len(),
    ensures
        edid_identity(edid.take(length)) is None,
{
}

/// A text serial that is used has no padding at either end and names a unit.
pub proof fn used_text_serial_is_trimmed_and_names_a_unit(descriptor: Seq<u8>)
    requires
        descriptor.len() == DESCRIPTOR_SIZE,
        text_serial(descriptor) is Some,
    ensures
        text_serial(descriptor)->0.len() > 0,
        !is_padding(text_serial(descriptor)->0.first() as u8),
        !is_padding(text_serial(descriptor)->0.last() as u8),
        names_a_unit(text_serial(descriptor)->0),
{
    let field = descriptor.skip(TEXT_SERIAL_START as int);
    let serial = trimmed(field);
    assert(ascii_text(serial).len() == serial.len());
    if serial.len() == 0 {
        assert(ascii_text(serial) =~= Seq::<char>::empty());
        assert(repeats_only(placeholder_key(ascii_text(serial)), '0'));
    }
    trim_front_starts_with_text(field);
    trim_back_ends_with_text(trim_front(field));
    assert(is_printable(serial[0]));
    assert(is_printable(serial[serial.len() - 1]));
}

proof fn trim_front_starts_with_text(bytes: Seq<u8>)
    ensures
        trim_front(bytes).len() > 0 ==> !is_padding(trim_front(bytes).first()),
    decreases bytes.len(),
{
    if bytes.len() > 0 && is_padding(bytes.first()) {
        trim_front_starts_with_text(bytes.drop_first());
    }
}

proof fn trim_back_ends_with_text(bytes: Seq<u8>)
    ensures
        trim_back(bytes).len() > 0 ==> !is_padding(trim_back(bytes).last()) && trim_back(
            bytes,
        ).first() == bytes.first(),
    decreases bytes.len(),
{
    if bytes.len() > 0 && is_padding(bytes.last()) {
        trim_back_ends_with_text(bytes.drop_last());
    }
}

proof fn byte_sum_of_update(bytes: Seq<u8>, position: int, byte: u8)
    requires
        0 <= position < bytes.len(),
    ensures
        byte_sum(bytes.update(position, byte)) == byte_sum(bytes) - bytes[position] + byte,
    decreases bytes.len(),
{
    let changed = bytes.update(position, byte);
    if position == bytes.len() - 1 {
        assert(changed.drop_last() =~= bytes.drop_last());
    } else {
        byte_sum_of_update(bytes.drop_last(), position, byte);
        assert(changed.drop_last() =~= bytes.drop_last().update(position, byte));
    }
}

/// The sum of bytes is what its parts sum up to, in any partition.
pub proof fn a_byte_sum_adds_up(first: Seq<u8>, second: Seq<u8>, byte: u8)
    ensures
        byte_sum(Seq::<u8>::empty()) == 0,
        byte_sum(seq![byte]) == byte,
        byte_sum(first + second) == byte_sum(first) + byte_sum(second),
    decreases second.len(),
{
    assert(seq![byte].drop_last() =~= Seq::<u8>::empty());
    assert(byte_sum(seq![byte].drop_last()) == 0);
    if second.len() == 0 {
        assert(first + second =~= first);
    } else {
        a_byte_sum_adds_up(first, second.drop_last(), byte);
        assert((first + second).drop_last() =~= first + second.drop_last());
    }
}

/// Data is valid exactly where it starts with the eight bytes of the header, is as long as its 127th
/// byte says, in blocks of 128 bytes, and each block sums up to a multiple of 256.
pub proof fn valid_data_is_complete_and_sums_up(edid: Seq<u8>)
    ensures
        is_valid_edid(edid) <==> {
            &&& edid.len() >= 128
            &&& edid[0] == 0 && edid[7] == 0
            &&& forall|i: int| 1 <= i <= 6 ==> #[trigger] edid[i] == 0xff
            &&& edid.len() == 128 * (edid[126] + 1)
            &&& forall|start: int|
                0 <= start < edid.len() && start % 128 == 0 ==> byte_sum(
                    #[trigger] edid.subrange(start, start + 128),
                ) % 256 == 0
        },
{
    if edid.len() >= 128 {
        let start = edid.take(8);
        assert(edid.take(8) == header() <==> {
            &&& edid[0] == 0 && edid[7] == 0
            &&& forall|i: int| 1 <= i <= 6 ==> #[trigger] edid[i] == 0xff
        }) by {
            if edid.take(8) == header() {
                assert forall|i: int| 1 <= i <= 6 implies #[trigger] edid[i] == 0xff by {
                    assert(start[i] == edid[i]);
                    assert(header()[i] == 0xff);
                }
                assert(start[0] == edid[0] && start[7] == edid[7]);
            }
            if edid[0] == 0 && edid[7] == 0 && (forall|i: int| 1 <= i <= 6 ==> #[trigger] edid[i]
                == 0xff) {
                assert(edid[1] == 0xff && edid[2] == 0xff && edid[3] == 0xff && edid[4] == 0xff
                    && edid[5] == 0xff && edid[6] == 0xff);
                assert(start =~= header());
            }
        }
        if edid.len() == 128 * (edid[126] + 1) {
            if is_valid_edid(edid) {
                assert forall|start: int|
                    0 <= start < edid.len() && start % 128 == 0 implies byte_sum(
                    #[trigger] edid.subrange(start, start + 128),
                ) % 256 == 0 by {
                    let index = start / 128;
                    assert(block(edid, index) == edid.subrange(start, start + 128));
                }
            }
            if forall|start: int|
                0 <= start < edid.len() && start % 128 == 0 ==> byte_sum(
                    #[trigger] edid.subrange(start, start + 128),
                ) % 256 == 0 {
                assert forall|index: int| 0 <= index <= edid[126] implies byte_sum(
                    #[trigger] block(edid, index),
                ) % 256 == 0 by {
                    let start = index * 128;
                    assert(start % 128 == 0);
                    assert(block(edid, index) == edid.subrange(start, start + 128));
                }
            }
        }
    }
}

/// The numeric serial is the 32-bit number at the thirteenth byte, least significant byte first.
pub proof fn the_numeric_serial_is_little_endian(edid: Seq<u8>)
    requires
        edid.len() >= 16,
    ensures
        numeric_serial(edid) % 0x100 == edid[12],
        numeric_serial(edid) / 0x100 % 0x100 == edid[13],
        numeric_serial(edid) / 0x1_0000 % 0x100 == edid[14],
        numeric_serial(edid) / 0x100_0000 == edid[15],
{
}

/// A usable number is the serial, whatever the descriptors say, and is spelled in decimal.
pub proof fn a_numeric_serial_comes_first(edid: Seq<u8>)
    requires
        edid.len() >= 128,
    ensures
        edid[12] == 0 && edid[13] == 0 && edid[14] == 0 && edid[15] == 0 ==> published_serial(edid)
            == first_text_serial(edid, 0),
        edid[12] == 0xff && edid[13] == 0xff && edid[14] == 0xff && edid[15] == 0xff
            ==> published_serial(edid) == first_text_serial(edid, 0),
        !(edid[12] == 0 && edid[13] == 0 && edid[14] == 0 && edid[15] == 0) && !(edid[12] == 0xff
            && edid[13] == 0xff && edid[14] == 0xff && edid[15] == 0xff) ==> (published_serial(
            edid,
        ) matches Some(serial) && number_spelled_by(serial) == edid[12] + 0x100 * edid[13]
            + 0x1_0000 * edid[14] + 0x100_0000 * edid[15]),
{
    a_decimal_spelling_reads_back(numeric_serial(edid));
}

/// A text serial is that of the first of the four descriptors, of 18 bytes each from the 55th byte on,
/// that holds a usable one.
pub proof fn the_first_usable_text_serial_is_published(edid: Seq<u8>, from: int)
    requires
        0 <= from <= 4,
        edid.len() >= 128,
    ensures
        match first_text_serial(edid, from) {
            Some(serial) => exists|index: int|
                {
                    &&& from <= index < 4
                    &&& text_serial(#[trigger] edid.subrange(54 + 18 * index, 72 + 18 * index))
                        == Some(serial)
                    &&& forall|earlier: int|
                        from <= earlier < index ==> text_serial(
                            #[trigger] edid.subrange(54 + 18 * earlier, 72 + 18 * earlier),
                        ) is None
                },
            None => forall|index: int|
                from <= index < 4 ==> text_serial(
                    #[trigger] edid.subrange(54 + 18 * index, 72 + 18 * index),
                ) is None,
        },
    decreases 4 - from,
{
    if from < 4 {
        assert(descriptor(edid, from) == edid.subrange(54 + 18 * from, 72 + 18 * from));
        the_first_usable_text_serial_is_published(edid, from + 1);
        if text_serial(descriptor(edid, from)) is None {
            if let Some(serial) = first_text_serial(edid, from) {
                let index = choose|index: int|
                    {
                        &&& from + 1 <= index < 4
                        &&& text_serial(#[trigger] edid.subrange(54 + 18 * index, 72 + 18 * index))
                            == Some(serial)
                        &&& forall|earlier: int|
                            from + 1 <= earlier < index ==> text_serial(
                                #[trigger] edid.subrange(54 + 18 * earlier, 72 + 18 * earlier),
                            ) is None
                    };
                assert forall|earlier: int| from <= earlier < index implies text_serial(
                    #[trigger] edid.subrange(54 + 18 * earlier, 72 + 18 * earlier),
                ) is None by {
                    if earlier > from {
                        assert(from + 1 <= earlier < index);
                    }
                }
                assert(text_serial(edid.subrange(54 + 18 * index, 72 + 18 * index)) == Some(
                    serial,
                ));
            }
        }
    }
}

/// Padding is a zero byte, a space, a tab, a line feed or a carriage return, and whatever is printable
/// besides a space is no padding.
pub proof fn padding_is_blank(byte: u8)
    ensures
        is_padding(byte) <==> byte == 0 || byte as char == ' ' || byte as char == '\t' || byte as char
            == '\n' || byte as char == '\r',
        is_printable(byte) <==> ' ' <= byte as char <= '~',
{
}

/// Trimming takes padding off both ends and nothing else: what is taken off is padding, what is left
/// neither starts nor ends with it.
pub proof fn trimming_takes_off_padding_alone(bytes: Seq<u8>)
    ensures
        exists|start: int, end: int|
            {
                &&& 0 <= start <= end <= bytes.len()
                &&& trimmed(bytes) == #[trigger] bytes.subrange(start, end)
                &&& forall|i: int| 0 <= i < start ==> is_padding(#[trigger] bytes[i])
                &&& forall|i: int| end <= i < bytes.len() ==> is_padding(#[trigger] bytes[i])
                &&& start < end ==> !is_padding(bytes[start]) && !is_padding(bytes[end - 1])
            },
{
    let start = first_text_byte(bytes, 0);
    let front = bytes.skip(start);
    trim_front_skips_padding(bytes, start);
    let length = text_length(front, front.len() as int);
    trim_back_skips_padding(front, length);
    let end = start + length;
    assert(front.take(length) =~= bytes.subrange(start, end));
    assert forall|i: int| end <= i < bytes.len() implies is_padding(#[trigger] bytes[i]) by {
        assert(front[i - start] == bytes[i]);
    }
    if start < end {
        assert(front[length - 1] == bytes[end - 1]);
        assert(!is_padding(bytes[start]));
    }
    assert(trimmed(bytes) == bytes.subrange(start, end));
}

proof fn first_text_byte(bytes: Seq<u8>, from: int) -> (start: int)
    requires
        0 <= from <= bytes.len(),
        forall|i: int| 0 <= i < from ==> is_padding(#[trigger] bytes[i]),
    ensures
        from <= start <= bytes.len(),
        forall|i: int| 0 <= i < start ==> is_padding(#[trigger] bytes[i]),
        start < bytes.len() ==> !is_padding(bytes[start]),
    decreases bytes.len() - from,
{
    if from < bytes.len() && is_padding(bytes[from]) {
        first_text_byte(bytes, from + 1)
    } else {
        from
    }
}

proof fn text_length(bytes: Seq<u8>, from: int) -> (length: int)
    requires
        0 <= from <= bytes.len(),
        forall|i: int| from <= i < bytes.len() ==> is_padding(#[trigger] bytes[i]),
    ensures
        0 <= length <= from,
        forall|i: int| length <= i < bytes.len() ==> is_padding(#[trigger] bytes[i]),
        length > 0 ==> !is_padding(bytes[length - 1]),
    decreases from,
{
    if from > 0 && is_padding(bytes[from - 1]) {
        text_length(bytes, from - 1)
    } else {
        from
    }
}

/// The text of a serial is its bytes, one character each.
pub proof fn a_text_serial_is_its_bytes(bytes: Seq<u8>, i: int)
    requires
        0 <= i < bytes.len(),
    ensures
        ascii_text(bytes).len() == bytes.len(),
        ascii_text(bytes)[i] as int == bytes[i],
{
}

/// A descriptor publishes its text exactly where it is tagged as a serial, its text is printable, and
/// the text names a unit; the text is all that follows the first five bytes, without the padding.
pub proof fn a_text_serial_is_tagged_printable_and_names_a_unit(descriptor: Seq<u8>)
    requires
        descriptor.len() == 18,
    ensures
        ({
            let serial = trimmed(descriptor.subrange(5, 18));
            let usable = {
                &&& descriptor[0] == 0 && descriptor[1] == 0 && descriptor[2] == 0
                &&& descriptor[3] == 0xff
                &&& descriptor[4] == 0
                &&& forall|i: int| 0 <= i < serial.len() ==> 0x20 <= #[trigger] serial[i] <= 0x7e
                &&& names_a_unit(ascii_text(serial))
            };
            &&& usable ==> text_serial(descriptor) == Some(ascii_text(serial))
            &&& !usable ==> text_serial(descriptor) is None
        }),
{
    assert(descriptor.skip(5) =~= descriptor.subrange(5, 18));
    let serial = trimmed(descriptor.subrange(5, 18));
    if exists|i: int| 0 <= i < serial.len() && !(0x20 <= #[trigger] serial[i] <= 0x7e) {
        let i = choose|i: int| 0 <= i < serial.len() && !(0x20 <= #[trigger] serial[i] <= 0x7e);
        assert(!is_printable(serial[i]));
    } else {
        assert forall|i: int| 0 <= i < serial.len() implies is_printable(#[trigger] serial[i]) by {}
    }
}

/// Whether a serial names a unit depends on its letters and digits alone, whatever their case and
/// whatever stands between them: the key of joined texts is that of their parts joined, a character
/// that is neither adds nothing, and both cases of a letter add the same.
pub proof fn only_letters_and_digits_name_a_unit(
    first: Seq<char>,
    second: Seq<char>,
    character: char,
)
    ensures
        placeholder_key(first + second) == placeholder_key(first) + placeholder_key(second),
        !('0' <= character <= '9') && !('A' <= character <= 'Z') && !('a' <= character <= 'z')
            ==> placeholder_key(seq![character]) == Seq::<char>::empty(),
        '0' <= character <= '9' || 'A' <= character <= 'Z' ==> placeholder_key(seq![character])
            == seq![character],
        'a' <= character <= 'z' ==> (placeholder_key(seq![character]).len() == 1
            && placeholder_key(seq![character])[0] as int == character as int - 'a' as int
            + 'A' as int),
    decreases second.len(),
{
    assert(seq![character].drop_last() =~= Seq::<char>::empty());
    assert(placeholder_key(seq![character].drop_last()) =~= Seq::<char>::empty());
    assert(Seq::<char>::empty().push(character) =~= seq![character]);
    if second.len() == 0 {
        assert(first + second =~= first);
        assert(placeholder_key(first) + placeholder_key(second) =~= placeholder_key(first));
    } else {
        only_letters_and_digits_name_a_unit(first, second.drop_last(), character);
        assert((first + second).drop_last() =~= first + second.drop_last());
        assert((first + second).last() == second.last());
        let key = placeholder_key(first);
        let rest = placeholder_key(second.drop_last());
        assert((key + rest).push(upper_case(second.last())) =~= key + rest.push(
            upper_case(second.last()),
        ));
    }
}

/// Text without letters and digits, or with nothing but zeros or nothing but the letter F in them, names
/// no unit, and neither does a word for a missing serial. Any other text does.
pub proof fn a_placeholder_names_no_unit(serial: Seq<char>)
    ensures
        ({
            let key = placeholder_key(serial);
            names_a_unit(serial) <==> {
                &&& exists|i: int| 0 <= i < key.len() && #[trigger] key[i] != '0'
                &&& exists|i: int| 0 <= i < key.len() && #[trigger] key[i] != 'F'
                &&& key != "DEFAULT"@ && key != "GENERIC"@ && key != "NA"@ && key != "NONE"@
                &&& key != "NOSERIAL"@ && key != "NOTAVAILABLE"@ && key != "NOTSPECIFIED"@
                &&& key != "SERIAL"@ && key != "SERIALNUMBER"@
                &&& key != "UNKNOWN"@ && key != "UNSPECIFIED"@
            }
        }),
{
}

/// Valid data identifies its display by the published serial, or else by all of itself; other data
/// identifies nothing.
pub proof fn data_identifies_by_its_serial_or_by_itself(edid: Seq<u8>)
    ensures
        edid_identity(edid) is Some <==> is_valid_edid(edid),
        edid_identity(edid) matches Some(identity) ==> match published_serial(edid) {
            Some(serial) => identity == EdidIdentityView::ReportedSerial(serial)
                && identity.stable_bytes() == encode_utf8(serial),
            None => identity == EdidIdentityView::Descriptor(edid) && identity.stable_bytes()
                == edid,
        },
{
}

} // verus!
