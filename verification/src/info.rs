//! A description of the FFmpeg that is linked in.
use crate::text::{
    from_utf8, from_utf8_lossy, has_no_null, has_no_zero, null_comes_of_zero, readable_text,
};
use vstd::prelude::*;
use vstd::utf8::{decode_utf8, valid_utf8};

verus! {

/// One of the codecs that FFmpeg lists.
#[derive(Debug, PartialEq, Eq)]
pub struct CodecEntry {
    /// Its name, as a C string without the zero at the end.
    pub name: Vec<u8>,
    /// What `av_codec_is_decoder` says of it: 0 if it is not a decoder.
    pub is_decoder: i32,
}

/// A digit as text.
pub open spec fn digit_text(d: int) -> Seq<char> {
    if d == 0 {
        "0"@
    } else if d == 1 {
        "1"@
    } else if d == 2 {
        "2"@
    } else if d == 3 {
        "3"@
    } else if d == 4 {
        "4"@
    } else if d == 5 {
        "5"@
    } else if d == 6 {
        "6"@
    } else if d == 7 {
        "7"@
    } else if d == 8 {
        "8"@
    } else {
        "9"@
    }
}

/// A number in decimal notation.
pub open spec fn decimal(n: nat) -> Seq<char>
    decreases n,
{
    if n < 10 {
        digit_text(n as int)
    } else {
        decimal(n / 10) + digit_text(n as int % 10)
    }
}

/// Texts, one after the other, with a separator between any two.
pub open spec fn joined(texts: Seq<Seq<char>>, separator: Seq<char>) -> Seq<char>
    decreases texts.len(),
{
    if texts.len() == 0 {
        seq![]
    } else if texts.len() == 1 {
        texts[0]
    } else {
        joined(texts.drop_last(), separator) + separator + texts.last()
    }
}

/// The names of those codecs that are decoders, as far as they can be read.
pub open spec fn decoder_names(codecs: Seq<CodecEntry>) -> Seq<Seq<char>> {
    codecs.filter(|codec: CodecEntry| codec.is_decoder != 0).map_values(
        |codec: CodecEntry| readable_text(codec.name@),
    )
}

/// The major part of a libavcodec version number.
pub open spec fn version_major(raw: u32) -> nat {
    (raw / 0x1_0000 % 0x100) as nat
}

/// The minor part of a libavcodec version number.
pub open spec fn version_minor(raw: u32) -> nat {
    (raw / 0x100 % 0x100) as nat
}

/// The micro part of a libavcodec version number.
pub open spec fn version_micro(raw: u32) -> nat {
    (raw % 0x100) as nat
}

/// The text that the bytes stand for, or `default` where there are none or they are not UTF-8.
pub open spec fn text_or(bytes: Option<&[u8]>, default: Seq<char>) -> Seq<char> {
    match bytes {
        Some(b) if valid_utf8(b@) => decode_utf8(b@),
        _ => default,
    }
}

/// The bytes, if there are any, are those of a C string.
pub open spec fn is_c_string(bytes: Option<&[u8]>) -> bool {
    bytes matches Some(b) ==> has_no_zero(b@)
}

/// The names of the codecs are C strings.
pub open spec fn have_c_names(codecs: Seq<CodecEntry>) -> bool {
    forall|i: int| 0 <= i < codecs.len() ==> has_no_zero((#[trigger] codecs[i]).name@)
}

/// The text holds one null character, at its end.
pub open spec fn is_null_terminated(text: Seq<char>) -> bool {
    &&& text.len() > 0
    &&& text.last() == '\0'
    &&& has_no_null(text.drop_last())
}

/// `FFmpeg <version>; libavcodec <major>.<minor>.<micro>; <configuration>`
pub open spec fn info_line(version: Seq<char>, raw: u32, configuration: Seq<char>) -> Seq<char> {
    "FFmpeg "@ + version + "; libavcodec "@ + decimal(version_major(raw)) + "."@ + decimal(
        version_minor(raw),
    ) + "."@ + decimal(version_micro(raw)) + "; "@ + configuration
}

/// The description of FFmpeg, with the null character at its end.
pub open spec fn description(
    version: Option<&[u8]>,
    raw: u32,
    configuration: Option<&[u8]>,
) -> Seq<char> {
    info_line(text_or(version, "unknown"@), raw, text_or(configuration, ""@)) + "\0"@
}

/// The names of the decoders, separated by commas.
pub open spec fn decoder_list(codecs: Seq<CodecEntry>) -> Seq<char> {
    joined(decoder_names(codecs), ", "@)
}

/// Appends a number in decimal notation.
fn push_decimal(out: &mut String, n: u32)
    ensures
        final(out)@ == old(out)@ + decimal(n as nat),
    decreases n,
{
    if n >= 10 {
        push_decimal(out, n / 10);
    }
    let d: u32 = n % 10;
    let digit = match d {
        0 => "0",
        1 => "1",
        2 => "2",
        3 => "3",
        4 => "4",
        5 => "5",
        6 => "6",
        7 => "7",
        8 => "8",
        _ => "9",
    };
    out.append(digit);
    assert(out@ =~= old(out)@ + decimal(n as nat));
}

/// Appends the text that the bytes stand for, or `default` where there are none or they are not
/// UTF-8.
fn push_text_or(out: &mut String, bytes: Option<&[u8]>, default: &str)
    ensures
        final(out)@ == old(out)@ + text_or(bytes, default@),
{
    match bytes {
        Some(b) => match from_utf8(b) {
            Some(text) => out.append(text),
            None => out.append(default),
        },
        None => out.append(default),
    }
}

/// One more text behind a separator.
proof fn joined_one_more(texts: Seq<Seq<char>>, text: Seq<char>, separator: Seq<char>)
    ensures
        joined(texts.push(text), separator) == if texts.len() == 0 {
            text
        } else {
            joined(texts, separator) + separator + text
        },
{
    assert(texts.push(text).drop_last() =~= texts);
}

/// One more codec in the list.
proof fn decoder_names_one_more(codecs: Seq<CodecEntry>, codec: CodecEntry)
    ensures
        decoder_names(codecs.push(codec)) == if codec.is_decoder != 0 {
            decoder_names(codecs).push(readable_text(codec.name@))
        } else {
            decoder_names(codecs)
        },
{
    reveal(Seq::filter);
    assert(codecs.push(codec).drop_last() =~= codecs);
    assert(decoder_names(codecs.push(codec)) =~= if codec.is_decoder != 0 {
        decoder_names(codecs).push(readable_text(codec.name@))
    } else {
        decoder_names(codecs)
    });
}

/// The names of the decoders in the list, separated by commas. Names that are C strings make a
/// list without null characters.
pub fn list_decoders(codecs: &Vec<CodecEntry>) -> (list: String)
    ensures
        list@ == joined(decoder_names(codecs@), ", "@),
        list@ == decoder_list(codecs@),
        have_c_names(codecs@) ==> has_no_null(list@),
{
    let mut list = String::new();
    let mut empty = true;
    let mut i: usize = 0;
    proof {
        reveal(Seq::filter);
        assert(decoder_names(codecs@.take(0)) =~= seq![]);
    }
    while i < codecs.len()
        invariant
            i <= codecs@.len(),
            empty == (decoder_names(codecs@.take(i as int)).len() == 0),
            list@ == joined(decoder_names(codecs@.take(i as int)), ", "@),
            have_c_names(codecs@) ==> has_no_null(list@),
        decreases codecs@.len() - i,
    {
        let ghost before = codecs@.take(i as int);
        proof {
            assert(codecs@.take(i + 1) =~= before.push(codecs@[i as int]));
            decoder_names_one_more(before, codecs@[i as int]);
            joined_one_more(decoder_names(before), readable_text(codecs@[i as int].name@), ", "@);
            reveal_strlit(", ");
        }
        if codecs[i].is_decoder != 0 {
            if !empty {
                list.append(", ");
            }
            let name = from_utf8_lossy(codecs[i].name.as_slice());
            list.append(name.as_str());
            empty = false;
            assert(list@ =~= joined(decoder_names(codecs@.take(i + 1)), ", "@));
        }
        i = i + 1;
    }
    assert(codecs@.take(codecs@.len() as int) =~= codecs@);
    list
}

/// Describes FFmpeg in a text that ends with the null character:
/// `FFmpeg <version>; libavcodec <major>.<minor>.<micro>; <configuration>`
///
/// The version and the configuration are the bytes of FFmpeg's strings, or `None` for a null
/// pointer. What is not there, or not UTF-8, is replaced: the version by `unknown`, and the
/// configuration by nothing. `raw_version` is libavcodec's version number.
///
/// What FFmpeg says of itself holds no zero bytes, and so the text ends at its null character: a
/// reader in C sees all of it.
pub fn moyu_video_get_ffmpeg_info(
    version: Option<&[u8]>,
    raw_version: u32,
    configuration: Option<&[u8]>,
) -> (info: String)
    ensures
        info@ == info_line(
            text_or(version, "unknown"@),
            raw_version,
            text_or(configuration, ""@),
        ) + "\0"@,
        info@ == description(version, raw_version, configuration),
        is_c_string(version) && is_c_string(configuration) ==> is_null_terminated(info@),
{
    let major: u32 = (raw_version >> 16) & 0xFF;
    let minor: u32 = (raw_version >> 8) & 0xFF;
    let micro: u32 = raw_version & 0xFF;
    assert((raw_version >> 16) & 0xFF == raw_version / 0x1_0000 % 0x100) by (bit_vector);
    assert((raw_version >> 8) & 0xFF == raw_version / 0x100 % 0x100) by (bit_vector);
    assert(raw_version & 0xFF == raw_version % 0x100) by (bit_vector);
    let mut info = String::new();
    info.append("FFmpeg ");
    push_text_or(&mut info, version, "unknown");
    info.append("; libavcodec ");
    push_decimal(&mut info, major);
    info.append(".");
    push_decimal(&mut info, minor);
    info.append(".");
    push_decimal(&mut info, micro);
    info.append("; ");
    push_text_or(&mut info, configuration, "");
    let ghost line = info_line(
        text_or(version, "unknown"@),
        raw_version,
        text_or(configuration, ""@),
    );
    assert(info@ =~= line);
    info.append("\0");
    proof {
        if is_c_string(version) && is_c_string(configuration) {
            reveal_strlit("unknown");
            reveal_strlit("");
            reveal_strlit("\0");
            text_or_has_no_null(version, "unknown"@);
            text_or_has_no_null(configuration, ""@);
            info_line_has_no_null(
                text_or(version, "unknown"@),
                raw_version,
                text_or(configuration, ""@),
            );
            assert(info@.drop_last() =~= line);
        }
    }
    info
}

/// The three parts of a version number are the ones that it was made of.
pub proof fn version_parts(major: nat, minor: nat, micro: nat)
    requires
        major < 0x100,
        minor < 0x100,
        micro < 0x100,
    ensures
        ({
            let raw = (major * 0x1_0000 + minor * 0x100 + micro) as u32;
            &&& version_major(raw) == major
            &&& version_minor(raw) == minor
            &&& version_micro(raw) == micro
        }),
{
}

proof fn digits_have_no_null(d: int)
    ensures
        has_no_null(digit_text(d)),
{
    reveal_strlit("0");
    reveal_strlit("1");
    reveal_strlit("2");
    reveal_strlit("3");
    reveal_strlit("4");
    reveal_strlit("5");
    reveal_strlit("6");
    reveal_strlit("7");
    reveal_strlit("8");
    reveal_strlit("9");
}

proof fn decimals_have_no_null(n: nat)
    ensures
        has_no_null(decimal(n)),
    decreases n,
{
    digits_have_no_null(n as int % 10);
    digits_have_no_null(n as int);
    if n >= 10 {
        decimals_have_no_null(n / 10);
    }
}

/// A C string stands for a text without null characters.
proof fn text_or_has_no_null(bytes: Option<&[u8]>, default: Seq<char>)
    requires
        is_c_string(bytes),
        has_no_null(default),
    ensures
        has_no_null(text_or(bytes, default)),
{
    if let Some(b) = bytes {
        if valid_utf8(b@) {
            null_comes_of_zero(b@);
        }
    }
}

/// The description holds no null character, if its parts hold none.
proof fn info_line_has_no_null(version: Seq<char>, raw: u32, configuration: Seq<char>)
    requires
        has_no_null(version),
        has_no_null(configuration),
    ensures
        has_no_null(info_line(version, raw, configuration)),
{
    reveal_strlit("FFmpeg ");
    reveal_strlit("; libavcodec ");
    reveal_strlit(".");
    reveal_strlit("; ");
    decimals_have_no_null(version_major(raw));
    decimals_have_no_null(version_minor(raw));
    decimals_have_no_null(version_micro(raw));
}

/// The number that a text of decimal digits stands for.
pub open spec fn decimal_value(text: Seq<char>) -> int
    decreases text.len(),
{
    if text.len() == 0 {
        0
    } else {
        10 * decimal_value(text.drop_last()) + (text.last() as int - '0' as int)
    }
}

/// The text is the usual notation of the number: digits only, and no zero before others.
pub open spec fn reads_as(text: Seq<char>, n: int) -> bool {
    &&& text.len() > 0
    &&& decimal_value(text) == n
    &&& forall|i: int| 0 <= i < text.len() ==> '0' as int <= #[trigger] text[i] as int <= '9' as int
    &&& text.len() > 1 ==> text[0] != '0'
}

/// A digit is written as one character, so many behind `'0'`.
proof fn digits_are_read_back(d: int)
    requires
        0 <= d < 10,
    ensures
        digit_text(d).len() == 1,
        digit_text(d)[0] as int == '0' as int + d,
{
    reveal_strlit("0");
    reveal_strlit("1");
    reveal_strlit("2");
    reveal_strlit("3");
    reveal_strlit("4");
    reveal_strlit("5");
    reveal_strlit("6");
    reveal_strlit("7");
    reveal_strlit("8");
    reveal_strlit("9");
}

/// Numbers are written in the usual notation: what is written is read back.
pub proof fn numbers_are_read_back(n: nat)
    ensures
        reads_as(decimal(n), n as int),
        n > 0 ==> decimal(n)[0] != '0',
    decreases n,
{
    digits_are_read_back(n as int % 10);
    if n < 10 {
        digits_are_read_back(n as int);
        assert(decimal(n).drop_last() =~= seq![]);
        assert(decimal_value(decimal(n).drop_last()) == 0);
        assert(decimal_value(decimal(n)) == n);
    } else {
        numbers_are_read_back(n / 10);
        assert(decimal(n).drop_last() =~= decimal(n / 10));
        assert forall|i: int| 0 <= i < decimal(n).len() implies '0' as int <= #[trigger] decimal(
            n,
        )[i] as int <= '9' as int by {
            if i < decimal(n / 10).len() {
                assert(decimal(n)[i] == decimal(n / 10)[i]);
            }
        }
        assert(decimal(n).last() == digit_text(n as int % 10)[0]);
    }
}

/// What the description says, part by part: `FFmpeg`, the version as FFmpeg gives it, or `unknown`
/// where it gives none or not in UTF-8; the three numbers in the version of libavcodec; and, after
/// the last semicolon, the configuration as FFmpeg gives it, whatever its length, or nothing.
pub proof fn descriptions_say_it_all(version: Option<&[u8]>, raw: u32, configuration: Option<&[u8]>)
    ensures
        ({
            let whole = description(version, raw, configuration);
            let text = whole.drop_last();
            let begin = "FFmpeg "@ + (if version is Some && valid_utf8(version->0@) {
                decode_utf8(version->0@)
            } else {
                seq!['u', 'n', 'k', 'n', 'o', 'w', 'n']
            }) + "; libavcodec "@;
            let end = "; "@ + (if configuration is Some && valid_utf8(configuration->0@) {
                decode_utf8(configuration->0@)
            } else {
                seq![]
            });
            let major = decimal(version_major(raw));
            let minor = decimal(version_minor(raw));
            let micro = decimal(version_micro(raw));
            &&& whole.len() > 0 && whole.last() == '\0'
            &&& text == begin + major + seq!['.'] + minor + seq!['.'] + micro + end
            &&& begin.is_prefix_of(text)
            &&& end.len() <= text.len()
            &&& text.skip(text.len() - end.len()) == end
            &&& reads_as(major, raw as int / 0x1_0000 % 0x100)
            &&& reads_as(minor, raw as int / 0x100 % 0x100)
            &&& reads_as(micro, raw as int % 0x100)
        }),
{
    let whole = description(version, raw, configuration);
    let text = info_line(text_or(version, "unknown"@), raw, text_or(configuration, ""@));
    reveal_strlit("\0");
    assert(whole.drop_last() =~= text);
    let begin = "FFmpeg "@ + (if version is Some && valid_utf8(version->0@) {
        decode_utf8(version->0@)
    } else {
        seq!['u', 'n', 'k', 'n', 'o', 'w', 'n']
    }) + "; libavcodec "@;
    let end = "; "@ + (if configuration is Some && valid_utf8(configuration->0@) {
        decode_utf8(configuration->0@)
    } else {
        seq![]
    });
    let major = decimal(version_major(raw));
    let minor = decimal(version_minor(raw));
    let micro = decimal(version_micro(raw));
    reveal_strlit("unknown");
    reveal_strlit("");
    reveal_strlit(".");
    assert("unknown"@ =~= seq!['u', 'n', 'k', 'n', 'o', 'w', 'n']);
    assert(""@ =~= seq![]);
    assert("."@ =~= seq!['.']);
    assert(text =~= begin + major + seq!['.'] + minor + seq!['.'] + micro + end);
    assert(text.take(begin.len() as int) =~= begin);
    assert(text.skip(text.len() - end.len()) =~= end);
    numbers_are_read_back(version_major(raw));
    numbers_are_read_back(version_minor(raw));
    numbers_are_read_back(version_micro(raw));
}

/// Two lists of codecs, one after the other, have the decoders of the first and then those of the
/// second; and of a single codec the name is listed if and only if it is a decoder, as far as it
/// can be read.
pub proof fn decoders_are_listed_in_order(a: Seq<CodecEntry>, b: Seq<CodecEntry>, codec: CodecEntry)
    ensures
        decoder_names(a + b) == decoder_names(a) + decoder_names(b),
        decoder_names(seq![codec]) == if codec.is_decoder == 0 {
            Seq::<Seq<char>>::empty()
        } else {
            seq![readable_text(codec.name@)]
        },
        decoder_names(seq![]) == Seq::<Seq<char>>::empty(),
        codec.is_decoder != 0 && valid_utf8(codec.name@) ==> decoder_names(seq![codec]) == seq![
            decode_utf8(codec.name@),
        ],
    decreases b.len(),
{
    let none = Seq::<CodecEntry>::empty();
    reveal(Seq::filter);
    assert(decoder_names(none) =~= seq![]);
    decoder_names_one_more(none, codec);
    assert(none.push(codec) =~= seq![codec]);
    assert(decoder_names(none).push(readable_text(codec.name@)) =~= seq![
        readable_text(codec.name@),
    ]);
    if b.len() == 0 {
        assert(a + b =~= a);
        assert(b =~= none);
        assert(decoder_names(a + b) =~= decoder_names(a) + decoder_names(b));
    } else {
        let first = b.drop_last();
        decoders_are_listed_in_order(a, first, codec);
        assert(a + b =~= (a + first).push(b.last()));
        assert(b =~= first.push(b.last()));
        decoder_names_one_more(a + first, b.last());
        decoder_names_one_more(first, b.last());
        assert(decoder_names(a + b) =~= decoder_names(a) + decoder_names(b));
    }
}

/// Where the text of index `i` begins, when texts stand one after the other with a separator of
/// `gap` characters between any two.
pub open spec fn place_of(texts: Seq<Seq<char>>, gap: nat, i: int) -> int
    decreases i,
{
    if i <= 0 {
        0
    } else {
        place_of(texts, gap, i - 1) + texts[i - 1].len() + gap
    }
}

/// Places do not depend on what comes behind, and no text reaches beyond the last place.
proof fn places_stay(texts: Seq<Seq<char>>, more: Seq<Seq<char>>, gap: nat, i: int)
    requires
        0 <= i <= texts.len() <= more.len(),
        forall|j: int| 0 <= j < texts.len() ==> texts[j] == #[trigger] more[j],
    ensures
        place_of(texts, gap, i) == place_of(more, gap, i),
        place_of(texts, gap, i) >= 0,
        i < texts.len() ==> place_of(texts, gap, i) + texts[i].len() <= place_of(
            texts,
            gap,
            texts.len() as int,
        ),
{
    places_only_stay(texts, more, gap, i);
    places_grow(texts, gap, i, texts.len() as int);
    places_grow(texts, gap, 0, i);
}

proof fn places_only_stay(texts: Seq<Seq<char>>, more: Seq<Seq<char>>, gap: nat, i: int)
    requires
        0 <= i <= texts.len() <= more.len(),
        forall|j: int| 0 <= j < texts.len() ==> texts[j] == #[trigger] more[j],
    ensures
        place_of(texts, gap, i) == place_of(more, gap, i),
    decreases i,
{
    if i > 0 {
        places_only_stay(texts, more, gap, i - 1);
        assert(texts[i - 1] == more[i - 1]);
    }
}

proof fn places_grow(texts: Seq<Seq<char>>, gap: nat, i: int, k: int)
    requires
        0 <= i <= k <= texts.len(),
    ensures
        place_of(texts, gap, i) <= place_of(texts, gap, k),
        i < k ==> place_of(texts, gap, i) + texts[i].len() + gap <= place_of(texts, gap, k),
    decreases k,
{
    if i < k {
        places_grow(texts, gap, i, k - 1);
    }
}

/// Joined texts stand at their places, each whole, with the separator between any two and nothing
/// else anywhere.
pub proof fn joined_texts_stand_at_their_places(texts: Seq<Seq<char>>, separator: Seq<char>)
    ensures
        texts.len() == 0 ==> joined(texts, separator).len() == 0,
        texts.len() > 0 ==> joined(texts, separator).len() == place_of(
            texts,
            separator.len(),
            texts.len() as int,
        ) - separator.len(),
        forall|i: int|
            #![trigger place_of(texts, separator.len(), i)]
            0 <= i < texts.len() ==> {
                let at = place_of(texts, separator.len(), i);
                let end = at + texts[i].len();
                &&& 0 <= at
                &&& end <= joined(texts, separator).len()
                &&& joined(texts, separator).subrange(at, end) == texts[i]
                &&& i + 1 < texts.len() ==> end + separator.len() <= joined(texts, separator).len()
                    && joined(texts, separator).subrange(end, end + separator.len()) == separator
            },
    decreases texts.len(),
{
    let gap = separator.len();
    let all = joined(texts, separator);
    if texts.len() == 1 {
        assert(place_of(texts, gap, 1) == place_of(texts, gap, 0) + texts[0].len() + gap);
        assert(all.subrange(0, texts[0].len() as int) =~= texts[0]);
    } else if texts.len() > 1 {
        let first = texts.drop_last();
        let n = first.len() as int;
        let head = joined(first, separator);
        joined_texts_stand_at_their_places(first, separator);
        places_stay(first, texts, gap, n);
        assert(place_of(texts, gap, n + 1) == place_of(texts, gap, n) + texts[n].len() + gap);
        assert forall|i: int|
            #![trigger place_of(texts, separator.len(), i)]
            0 <= i < texts.len() implies {
            let at = place_of(texts, separator.len(), i);
            let end = at + texts[i].len();
            &&& 0 <= at
            &&& end <= all.len()
            &&& all.subrange(at, end) == texts[i]
            &&& i + 1 < texts.len() ==> end + separator.len() <= all.len() && all.subrange(
                end,
                end + separator.len(),
            ) == separator
        } by {
            let at = place_of(texts, gap, i);
            let end = at + texts[i].len();
            places_stay(first, texts, gap, if i < n { i } else { n });
            if i < n {
                assert(first[i] == texts[i]);
                assert(all.subrange(at, end) =~= head.subrange(at, end));
                if i + 1 < n {
                    assert(all.subrange(end, end + gap) =~= head.subrange(end, end + gap));
                } else {
                    assert(place_of(first, gap, n) == place_of(first, gap, i) + first[i].len() + gap);
                    assert(all.subrange(end, end + gap) =~= separator);
                }
            } else {
                assert(all.subrange(at, end) =~= texts[i]);
            }
        }
    }
}

/// The list of decoders holds the names of all decoders, each whole and at its place, with a comma and
/// a space between any two.
pub proof fn decoder_lists_hold_all_names(codecs: Seq<CodecEntry>)
    ensures
        ({
            let names = decoder_names(codecs);
            let list = decoder_list(codecs);
            &&& names.len() == 0 ==> list.len() == 0
            &&& names.len() > 0 ==> list.len() == place_of(names, 2, names.len() as int) - 2
            &&& forall|i: int|
                #![trigger place_of(names, 2, i)]
                0 <= i < names.len() ==> {
                    let at = place_of(names, 2, i);
                    let end = at + names[i].len();
                    &&& 0 <= at
                    &&& end <= list.len()
                    &&& list.subrange(at, end) == names[i]
                    &&& i + 1 < names.len() ==> end + 2 <= list.len() && list[end] == ',' && list[end
                        + 1] == ' '
                }
        }),
{
    let names = decoder_names(codecs);
    let list = decoder_list(codecs);
    reveal_strlit(", ");
    joined_texts_stand_at_their_places(names, ", "@);
    assert forall|i: int|
        #![trigger place_of(names, 2, i)]
        0 <= i < names.len() implies {
        let at = place_of(names, 2, i);
        let end = at + names[i].len();
        &&& 0 <= at
        &&& end <= list.len()
        &&& list.subrange(at, end) == names[i]
        &&& i + 1 < names.len() ==> end + 2 <= list.len() && list[end] == ',' && list[end + 1]
            == ' '
    } by {
        let end = place_of(names, ", "@.len(), i) + names[i].len();
        if i + 1 < names.len() {
            let between = list.subrange(end, end + 2);
            assert(between == ", "@);
            assert(between[0] == list[end] && between[1] == list[end + 1]);
        }
    }
}

} // verus!
