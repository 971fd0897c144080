use local_encoding::utf16::{join_surrogates, scalar_char, utf16_units};
use local_encoding::utf8::{decode_utf8_all, decode_utf8_next};
use local_encoding::{ByteDecoder, DecodeError, DecodePhase, DecodeStep, LocalDecode};

/// A small stand-in for the system's codepage tables: single bytes and
/// double-byte sequences with the UTF-16 units they convert to.
struct Table {
    id: u32,
    default_character: u16,
    lead_bytes: Vec<u8>,
    entries: Vec<(Vec<u8>, Vec<u16>)>,
}

impl Table {
    fn convert(&self, run: &[u8]) -> Vec<u16> {
        if run.len() == 1 && run[0] < 0x80 {
            return vec![run[0] as u16];
        }
        for (bytes, units) in &self.entries {
            if bytes.as_slice() == run {
                return units.clone();
            }
        }
        Vec::new()
    }

    fn is_lead(&self, b: u8) -> bool {
        self.lead_bytes.contains(&b)
    }
}

fn single_byte(id: u32, pairs: &[(u8, u16)]) -> Table {
    Table {
        id,
        default_character: 0x3F,
        lead_bytes: Vec::new(),
        entries: pairs.iter().map(|&(b, u)| (vec![b], vec![u])).collect(),
    }
}

fn cp932() -> Table {
    Table {
        id: 932,
        default_character: 0x30FB,
        lead_bytes: vec![0x8C],
        entries: vec![(vec![140, 142], vec![0x6708])],
    }
}

fn decode_with(table: &Table, input: &[u8]) -> Vec<Result<char, DecodeError>> {
    let mut decoder = ByteDecoder::new(table.id, table.default_character);
    let mut source = input.iter().copied();
    let mut items = Vec::new();
    loop {
        let mut step = decoder.start();
        loop {
            step = match step {
                DecodeStep::Pull => decoder.feed(source.next()),
                DecodeStep::Convert => {
                    let units = table.convert(decoder.run());
                    decoder.converted(&units)
                }
                DecodeStep::CheckLeadByte(b) => decoder.lead_byte(table.is_lead(b)),
                DecodeStep::Item(item) => {
                    items.push(item);
                    break;
                }
                DecodeStep::End => return items,
            };
        }
    }
}

fn cleaned(items: Vec<Result<char, DecodeError>>) -> String {
    items.into_iter().map(|c| c.unwrap_or(char::REPLACEMENT_CHARACTER)).collect()
}

#[test]
fn test_basic_decode() {
    let items = (&b"Test"[..]).local_console_decode();
    let cleaned: Vec<char> = items.into_iter().map(|c| c.unwrap()).collect();
    assert_eq!(cleaned.into_iter().eq("Test".chars()), true);
}

#[test]
fn test_invalid_decode() {
    let items = (&b"Te\xc3\x28st"[..]).local_console_decode();
    let cleaned = items.into_iter().map(|c| c.unwrap_or(char::REPLACEMENT_CHARACTER));
    assert_eq!(cleaned.eq("Te\u{FFFD}st".chars()), true);
}

#[test]
fn test_cp708_decode() {
    let table = single_byte(708, &[(0x82, 0x00E9), (0xBF, 0x061F)]);
    let string = cleaned(decode_with(&table, b"T\x82st \xbf"));
    assert_eq!(string, "Tést ؟");
}

#[test]
fn test_cp866_decode() {
    let table = single_byte(866, &[(0x92, 0x0422), (0xA5, 0x0435), (0xE1, 0x0441), (0xE2, 0x0442)]);
    let string = cleaned(decode_with(&table, b"\x92\xA5\xE1\xE2"));
    assert_eq!(string, "Тест");
}

#[test]
fn test_cp932_decode() {
    let string = cleaned(decode_with(&cp932(), &[140, 142]));
    assert_eq!(string, "月");
}

#[test]
fn lib_test_invalid_decode() {
    let table = single_byte(857, &[]);
    let string = cleaned(decode_with(&table, b"Te\xd5st"));
    assert_eq!(string, "Te\u{FFFD}st");
}

#[test]
fn decode_cp857_undefined_byte_is_conversion_failure() {
    let table = single_byte(857, &[]);
    let items = decode_with(&table, b"Te\xd5st");
    assert_eq!(items, vec![Ok('T'), Ok('e'), Err(DecodeError::ConversionFailed), Ok('s'), Ok('t')]);
}

#[test]
fn decode_ascii_under_every_profile() {
    let expected = vec![Ok('T'), Ok('e'), Ok('s'), Ok('t')];
    assert_eq!((&b"Test"[..]).local_console_decode(), expected);
    assert_eq!((&b"Test"[..]).local_file_decode(), expected);
    assert_eq!(decode_with(&single_byte(866, &[]), b"Test"), expected);
    assert_eq!(decode_with(&cp932(), b"Test"), expected);
}

#[test]
fn decode_cp866_exact_items() {
    let table = single_byte(866, &[(0x92, 0x0422), (0xA5, 0x0435), (0xE1, 0x0441), (0xE2, 0x0442)]);
    let items = decode_with(&table, b"\x92\xA5\xE1\xE2");
    assert_eq!(items, vec![Ok('Т'), Ok('е'), Ok('с'), Ok('т')]);
}

#[test]
fn decode_utf8_malformed_items() {
    let items = decode_utf8_all(b"Te\xC3\x28st");
    assert_eq!(items, vec![Ok('T'), Ok('e'), Err(DecodeError::InvalidSequence), Ok('s'), Ok('t')]);
}

#[test]
fn decode_utf8_next_consumption() {
    assert_eq!(decode_utf8_next(b""), (None, 0));
    assert_eq!(decode_utf8_next(b"\xE6\x9C\x88x"), (Some(Ok('月')), 3));
    assert_eq!(decode_utf8_next(b"\xC3\x28"), (Some(Err(DecodeError::InvalidSequence)), 2));
    assert_eq!(decode_utf8_next(b"\xE6\x9C"), (Some(Err(DecodeError::Truncated)), 2));
    assert_eq!(decode_utf8_next(b"\xFFa"), (Some(Err(DecodeError::InvalidSequence)), 1));
    assert_eq!(decode_utf8_next(b"\x80a"), (Some(Err(DecodeError::InvalidSequence)), 1));
    assert_eq!(decode_utf8_next(b"\xED\xA0\x80"), (Some(Err(DecodeError::InvalidSequence)), 3));
    assert_eq!(decode_utf8_next("😀".as_bytes()), (Some(Ok('😀')), 4));
}

#[test]
fn decode_utf8_rejects_overlong() {
    assert_eq!(decode_utf8_next(b"\xC0\x80"), (Some(Err(DecodeError::InvalidSequence)), 2));
    assert_eq!(decode_utf8_next(b"\xC1\xBF"), (Some(Err(DecodeError::InvalidSequence)), 2));
    assert_eq!(decode_utf8_next(b"\xE0\x80\xAF"), (Some(Err(DecodeError::InvalidSequence)), 3));
    assert_eq!(decode_utf8_next(b"\xF0\x80\x80\xAF"), (Some(Err(DecodeError::InvalidSequence)), 4));
    assert_eq!(decode_utf8_next(b"\xF4\x90\x80\x80"), (Some(Err(DecodeError::InvalidSequence)), 4));
    assert_eq!(decode_utf8_next(b"\xC2\x80"), (Some(Ok('\u{80}')), 2));
    assert_eq!(decode_utf8_next(b"\xE0\xA0\x80"), (Some(Ok('\u{800}')), 3));
    assert_eq!(
        decode_utf8_all(b"a\xC0\x80b"),
        vec![Ok('a'), Err(DecodeError::InvalidSequence), Ok('b')]
    );
}

#[test]
fn decode_one_byte_run_is_never_pushed_back() {
    let table = Table {
        id: 1,
        default_character: 0x3F,
        lead_bytes: Vec::new(),
        entries: vec![(vec![0x97], vec![0x41, 0x42]), (vec![0x98], vec![0xDFFF, 0x41, 0x42])],
    };
    assert_eq!(decode_with(&table, &[0x97, b'z']), vec![Ok('A'), Ok('z')]);
    assert_eq!(decode_with(&table, &[0x98, 0x97]), vec![Err(DecodeError::InvalidSurrogate), Ok('A')]);
}

#[test]
fn decode_utf8_incremental_matches_whole() {
    let input = b"a\xE6\x9C\x88\xC3(\xF0\x9F\x98\x80\xE6";
    let whole = decode_utf8_all(input);
    let mut rest = &input[..];
    let mut one_by_one = Vec::new();
    while let (Some(item), used) = decode_utf8_next(rest) {
        one_by_one.push(item);
        rest = &rest[used..];
    }
    assert_eq!(whole, one_by_one);
    assert_eq!(whole.len(), 5);
    assert_eq!(whole[4], Err(DecodeError::Truncated));
}

#[test]
fn decode_truncated_double_byte() {
    let items = decode_with(&cp932(), &[b'a', 0x8C]);
    assert_eq!(items, vec![Ok('a'), Err(DecodeError::Truncated)]);
}

#[test]
fn decode_too_long_yields_one_error() {
    let table = Table { id: 1, default_character: 0x3F, lead_bytes: vec![0x81], entries: Vec::new() };
    let mut input = vec![0x81u8];
    input.extend(std::iter::repeat(0x81u8).take(7));
    input.push(b'z');
    let items = decode_with(&table, &input);
    assert_eq!(items, vec![Err(DecodeError::TooLong), Ok('z')]);
}

#[test]
fn decode_pushes_back_one_byte() {
    // [0x8C, 'A'] converts to the default character and 'A': the lead byte
    // had no valid trail, so 'A' starts the next item.
    let mut table = cp932();
    table.entries.push((vec![0x8C, b'A'], vec![0x30FB, 0x41]));
    table.entries.push((vec![0x8C, 0x41 + 1], vec![0x4E9C, 0x42]));
    let items = decode_with(&table, &[0x8C, b'A', b'x']);
    assert_eq!(items, vec![Err(DecodeError::InvalidSequence), Ok('A'), Ok('x')]);
    let items = decode_with(&table, &[0x8C, b'B']);
    assert_eq!(items, vec![Ok('\u{4E9C}'), Ok('B')]);
}

#[test]
fn decode_surrogate_pairs_and_errors() {
    let table = Table {
        id: 54936,
        default_character: 0x3F,
        lead_bytes: vec![0x95],
        entries: vec![
            (vec![0x95, 0x32], vec![0xD83D, 0xDE00]),
            (vec![0x95, 0x33], vec![0xDE00, 0x41]),
            (vec![0x95, 0x34], vec![0xDFFF, 0x41, 0x42]),
            (vec![0x96], vec![0xD800]),
        ],
    };
    assert_eq!(decode_with(&table, &[0x95, 0x32]), vec![Ok('😀')]);
    assert_eq!(decode_with(&table, &[0x95, 0x33]), vec![Err(DecodeError::InvalidSurrogate)]);
    assert_eq!(
        decode_with(&table, &[0x95, 0x34]),
        vec![Err(DecodeError::InvalidSurrogate), Ok('4')]
    );
    assert_eq!(decode_with(&table, &[0x96]), vec![Err(DecodeError::InvalidSurrogate)]);
}

#[test]
fn decoder_steps_and_phases() {
    let mut decoder = ByteDecoder::new(932, 0x30FB);
    assert_eq!(decoder.codepage(), 932);
    assert_eq!(decoder.default_character(), 0x30FB);
    assert_eq!(decoder.phase(), DecodePhase::Idle);
    assert!(matches!(decoder.start(), DecodeStep::Pull));
    assert_eq!(decoder.phase(), DecodePhase::AwaitByte);
    assert!(matches!(decoder.feed(Some(0x8C)), DecodeStep::Convert));
    assert_eq!(decoder.run(), &[0x8C]);
    assert!(matches!(decoder.converted(&[]), DecodeStep::CheckLeadByte(0x8C)));
    assert_eq!(decoder.phase(), DecodePhase::AwaitLeadByte);
    assert!(matches!(decoder.lead_byte(false), DecodeStep::Item(Err(DecodeError::ConversionFailed))));
    assert_eq!(decoder.phase(), DecodePhase::Idle);
    assert!(matches!(decoder.start(), DecodeStep::Pull));
    assert!(matches!(decoder.feed(None), DecodeStep::End));
}

#[test]
fn utf16_helpers() {
    assert_eq!(utf16_units('A'), vec![0x41]);
    assert_eq!(utf16_units('月'), vec![0x6708]);
    assert_eq!(utf16_units('😀'), vec![0xD83D, 0xDE00]);
    assert_eq!(join_surrogates(0xD83D, 0xDE00), '😀');
    assert_eq!(join_surrogates(0xDBFF, 0xDFFF), '\u{10FFFF}');
    assert_eq!(scalar_char(0x41), Some('A'));
    assert_eq!(scalar_char(0xD800), None);
    assert_eq!(scalar_char(0x110000), None);
}

#[test]
fn error_messages() {
    assert_eq!(DecodeError::TooLong.message(), "single character is longer than 8 bytes");
    assert_eq!(DecodeError::InvalidSequence.message(), "invalid byte sequence");
}
