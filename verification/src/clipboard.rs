//! Finding image files in what the clipboard holds.

use vstd::prelude::*;

use crate::places;
use crate::text;

verus! {

broadcast use vstd::string::group_string_axioms;

/// The value of a hexadecimal digit.
pub open spec fn nibble(b: u8) -> Option<u8> {
    if 0x30 <= b <= 0x39 {
        Some((b - 0x30) as u8)
    } else if 0x41 <= b <= 0x46 {
        Some((b - 0x41 + 10) as u8)
    } else if 0x61 <= b <= 0x66 {
        Some((b - 0x61 + 10) as u8)
    } else {
        None
    }
}

/// The byte that two characters name in hexadecimal; the first may be a plus sign.
pub open spec fn named_byte(high: u8, low: u8) -> Option<u8> {
    match nibble(low) {
        None => None,
        Some(l) => if high == 0x2b {
            Some(l)
        } else {
            match nibble(high) {
                None => None,
                Some(h) => Some((h * 16 + l) as u8),
            }
        },
    }
}

/// Bytes in which every percent sign with two characters behind it is
/// replaced by the byte that these name; `None` if two of them name none.
pub open spec fn decoded(bytes: Seq<u8>) -> Option<Seq<u8>>
    decreases bytes.len(),
{
    if bytes.len() == 0 {
        Some(Seq::empty())
    } else if bytes[0] == 0x25 && bytes.len() > 2 {
        match named_byte(bytes[1], bytes[2]) {
            None => None,
            Some(b) => match decoded(bytes.skip(3)) {
                None => None,
                Some(rest) => Some(seq![b] + rest),
            },
        }
    } else {
        match decoded(bytes.skip(1)) {
            None => None,
            Some(rest) => Some(seq![bytes[0]] + rest),
        }
    }
}

/// A text with its percent escapes decoded; `None` if one of them names no
/// byte or the result is not UTF-8.
pub open spec fn percent_decoded(s: Seq<char>) -> Option<Seq<char>> {
    match decoded(vstd::utf8::encode_utf8(s)) {
        None => None,
        Some(bytes) => if vstd::utf8::valid_utf8(bytes) {
            Some(vstd::utf8::decode_utf8(bytes))
        } else {
            None
        },
    }
}

proof fn plain_bytes_stay(bytes: Seq<u8>)
    requires
        !bytes.contains(0x25),
    ensures
        decoded(bytes) == Some(bytes),
    decreases bytes.len(),
{
    if bytes.len() > 0 {
        assert(bytes.contains(bytes[0]));
        assert forall|b: u8| bytes.skip(1).contains(b) implies bytes.contains(b) by {
            let i = choose|i: int| 0 <= i < bytes.skip(1).len() && bytes.skip(1)[i] == b;
            assert(bytes[i + 1] == b);
        }
        plain_bytes_stay(bytes.skip(1));
        assert(seq![bytes[0]] + bytes.skip(1) =~= bytes);
    } else {
        assert(bytes =~= Seq::<u8>::empty());
    }
}

/// A path without a percent sign is decoded to itself.
pub proof fn plain_paths_stay(s: Seq<char>)
    requires
        !vstd::utf8::encode_utf8(s).contains(0x25),
    ensures
        percent_decoded(s) == Some(s),
{
    plain_bytes_stay(vstd::utf8::encode_utf8(s));
    vstd::utf8::encode_utf8_valid_utf8(s);
    vstd::utf8::encode_utf8_decode_utf8(s);
}

fn hex_value(b: u8) -> (r: Option<u8>)
    ensures
        r == nibble(b),
        r matches Some(v) ==> v < 16,
{
    if b >= 0x30 && b <= 0x39 {
        Some(b - 0x30)
    } else if b >= 0x41 && b <= 0x46 {
        Some(b - 0x41 + 10)
    } else if b >= 0x61 && b <= 0x66 {
        Some(b - 0x61 + 10)
    } else {
        None
    }
}

fn byte_named(high: u8, low: u8) -> (r: Option<u8>)
    ensures
        r == named_byte(high, low),
{
    match hex_value(low) {
        None => None,
        Some(l) => if high == 0x2b {
            Some(l)
        } else {
            match hex_value(high) {
                None => None,
                Some(h) => Some(h * 16 + l),
            }
        },
    }
}

/// `String::from_utf8`: the text that some bytes encode in UTF-8, `None` if
/// they are not UTF-8.
#[verifier::external_body]
fn utf8_text(bytes: Vec<u8>) -> (r: Option<String>)
    ensures
        r is Some == vstd::utf8::valid_utf8(bytes@),
        r matches Some(s) ==> s@ == vstd::utf8::decode_utf8(bytes@),
{
    String::from_utf8(bytes).ok()
}

/// Decodes the percent escapes of a path.
pub fn percent_decode_path(value: &str) -> (r: Option<String>)
    ensures
        match r {
            Some(s) => percent_decoded(value@) == Some(s@),
            None => percent_decoded(value@) is None,
        },
{
    let bytes: &[u8] = value.as_bytes();
    let ghost all = vstd::utf8::encode_utf8(value@);
    let mut out: Vec<u8> = Vec::new();
    let mut i: usize = 0;
    let length: usize = bytes.len();
    assert(all.skip(0) =~= all);
    proof {
        if let Some(rest) = decoded(all) {
            assert(out@ + rest =~= rest);
        }
    }
    while i < length
        invariant
            i <= length,
            length == bytes@.len(),
            bytes@ == all,
            all == vstd::utf8::encode_utf8(value@),
            decoded(all) is Some == decoded(all.skip(i as int)) is Some,
            decoded(all) matches Some(whole) ==> whole == out@ + decoded(
                all.skip(i as int),
            )->Some_0,
        decreases length - i,
    {
        let ghost rest = all.skip(i as int);
        let ghost before = out@;
        assert(rest[0] == bytes@[i as int]);
        if bytes[i] == 0x25 && length - i > 2 {
            assert(rest[1] == bytes@[i + 1] && rest[2] == bytes@[i + 2]);
            match byte_named(bytes[i + 1], bytes[i + 2]) {
                None => {
                    assert(decoded(rest) is None);
                    return None;
                },
                Some(b) => {
                    out.push(b);
                    assert(rest.skip(3) =~= all.skip(i + 3));
                    i += 3;
                    proof {
                        if let Some(tail) = decoded(all.skip(i as int)) {
                            assert(before + (seq![b] + tail) =~= out@ + tail);
                        }
                    }
                },
            }
        } else {
            let b: u8 = bytes[i];
            out.push(b);
            assert(rest.skip(1) =~= all.skip(i + 1));
            i += 1;
            proof {
                if let Some(tail) = decoded(all.skip(i as int)) {
                    assert(before + (seq![b] + tail) =~= out@ + tail);
                }
            }
        }
    }
    proof {
        assert(all.skip(length as int) =~= Seq::<u8>::empty());
        assert(out@ + Seq::<u8>::empty() =~= out@);
    }
    utf8_text(out)
}

/// A character that is cut off at both ends of a clipboard entry.
pub open spec fn line_noise(c: char) -> bool {
    c == '\0' || c == '\r' || c == '\n'
}

/// The first position that is not noise, `s.len()` without one.
pub open spec fn noise_before(s: Seq<char>) -> int
    decreases s.len(),
{
    if s.len() == 0 || !line_noise(s[0]) {
        0
    } else {
        1 + noise_before(s.skip(1))
    }
}

/// A text without the noise behind it.
pub open spec fn without_noise_after(s: Seq<char>) -> Seq<char>
    decreases s.len(),
{
    if s.len() == 0 || !line_noise(s.last()) {
        s
    } else {
        without_noise_after(s.drop_last())
    }
}

/// A clipboard entry without the noise around it.
pub open spec fn entry_text(s: Seq<char>) -> Seq<char> {
    without_noise_after(s.skip(noise_before(s)))
}

/// The path that a clipboard entry names: nothing for an empty entry or one
/// of the words that say what is to be done with the files. Only an absolute
/// path names a file.
pub open spec fn path_of(value: Seq<char>) -> Option<Seq<char>> {
    let entry = entry_text(value);
    let named = named_text(entry);
    if entry == "copy"@ || entry == "cut"@ || !places::rooted(named) {
        None
    } else {
        Some(named)
    }
}

/// What an entry names: a file address is decoded, where it can be.
pub open spec fn named_text(entry: Seq<char>) -> Seq<char> {
    if text::begins_with(entry, "file://"@) {
        match percent_decoded(entry.skip("file://"@.len() as int)) {
            Some(path) => path,
            None => entry.skip("file://"@.len() as int),
        }
    } else {
        entry
    }
}

proof fn noise_before_bounds(s: Seq<char>)
    ensures
        0 <= noise_before(s) <= s.len(),
    decreases s.len(),
{
    if s.len() > 0 && line_noise(s[0]) {
        noise_before_bounds(s.skip(1));
    }
}

/// Cuts the noise off both ends of a clipboard entry.
fn trim_entry(value: &str) -> (r: String)
    ensures
        r@ == entry_text(value@),
{
    let chars: Vec<char> = text::chars_of(value);
    let mut from: usize = 0;
    assert(chars@.skip(0) =~= chars@);
    while from < chars.len() && (chars[from] == '\0' || chars[from] == '\r' || chars[from] == '\n')
        invariant
            from <= chars@.len(),
            from + noise_before(chars@.skip(from as int)) == noise_before(chars@),
        decreases chars@.len() - from,
    {
        assert(chars@.skip(from as int)[0] == chars@[from as int]);
        assert(chars@.skip(from as int).skip(1) =~= chars@.skip(from + 1));
        from += 1;
    }
    proof {
        if from < chars@.len() {
            assert(chars@.skip(from as int)[0] == chars@[from as int]);
        }
        assert(from == noise_before(chars@));
    }
    let ghost rest = chars@.skip(from as int);
    let mut to: usize = chars.len();
    assert(rest.take(to - from) =~= rest);
    while to > from && (chars[to - 1] == '\0' || chars[to - 1] == '\r' || chars[to - 1] == '\n')
        invariant
            from <= to <= chars@.len(),
            rest == chars@.skip(from as int),
            without_noise_after(rest.take(to - from)) == without_noise_after(rest),
        decreases to,
    {
        assert(rest.take(to - from).last() == chars@[to - 1]);
        assert(rest.take(to - from).drop_last() =~= rest.take(to - from - 1));
        to -= 1;
    }
    proof {
        if to > from {
            assert(rest.take(to - from).last() == chars@[to - 1]);
        }
        assert(without_noise_after(rest.take(to - from)) =~= rest.take(to - from));
        assert(chars@.subrange(from as int, to as int) =~= rest.take(to - from));
    }
    text::string_between(&chars, from, to)
}

/// The path that a clipboard entry names.
pub fn clipboard_image_path(value: &str) -> (r: Option<String>)
    ensures
        match r {
            Some(path) => path_of(value@) == Some(path@),
            None => path_of(value@) is None,
        },
{
    let entry: String = trim_entry(value);
    if text::same_text(entry.as_str(), "copy") || text::same_text(entry.as_str(), "cut") {
        return None;
    }
    let named: String = match text::strip_prefix(entry.as_str(), "file://") {
        None => entry,
        Some(uri) => match percent_decode_path(uri.as_str()) {
            Some(path) => path,
            None => uri,
        },
    };
    if places::is_rooted(named.as_str()) {
        Some(named)
    } else {
        None
    }
}

/// The type of an image file, by the extension of its name.
pub open spec fn mime_type_of(extension: Seq<char>) -> Seq<char> {
    let lowered = text::ascii_lowered(extension);
    if lowered == "jpg"@ || lowered == "jpeg"@ {
        "image/jpeg"@
    } else if lowered == "webp"@ {
        "image/webp"@
    } else if lowered == "gif"@ {
        "image/gif"@
    } else {
        "image/png"@
    }
}

/// The type of an image file, by the extension of its name.
pub fn mime_type(extension: &str) -> (r: &'static str)
    ensures
        r@ == mime_type_of(extension@),
{
    let lowered: String = text::to_ascii_lower(extension);
    if text::same_text(lowered.as_str(), "jpg") || text::same_text(lowered.as_str(), "jpeg") {
        "image/jpeg"
    } else if text::same_text(lowered.as_str(), "webp") {
        "image/webp"
    } else if text::same_text(lowered.as_str(), "gif") {
        "image/gif"
    } else {
        "image/png"
    }
}

/// The paths that some clipboard entries name, in their order.
pub open spec fn paths_of(entries: Seq<Seq<char>>) -> Seq<Seq<char>>
    decreases entries.len(),
{
    if entries.len() == 0 {
        Seq::empty()
    } else {
        let before = paths_of(entries.drop_last());
        match path_of(text::trim(entries.last())) {
            Some(path) => before.push(path),
            None => before,
        }
    }
}

/// The paths that the lines of a clipboard text name.
pub fn clipboard_paths(contents: &str) -> (r: Vec<String>)
    ensures
        text::views(r@) == paths_of(text::split(contents@, '\n')),
{
    let lines: Vec<String> = text::split_text(contents, '\n');
    let mut paths: Vec<String> = Vec::new();
    let mut i: usize = 0;
    let ghost all = text::views(lines@);
    assert(text::views(paths@) =~= paths_of(all.take(0)));
    while i < lines.len()
        invariant
            i <= lines@.len(),
            all == text::views(lines@),
            text::views(paths@) == paths_of(all.take(i as int)),
        decreases lines@.len() - i,
    {
        let ghost before = text::views(paths@);
        assert(all.take(i + 1).drop_last() =~= all.take(i as int));
        if let Some(path) = clipboard_image_path(text::trimmed(lines[i].as_str()).as_str()) {
            paths.push(path);
            assert(text::views(paths@) =~= before.push(path@));
        }
        i += 1;
    }
    assert(all.take(all.len() as int) =~= all);
    paths
}

/// An escape stands for the byte of its two digits, sixteen times the first and the second.
pub proof fn escapes_stand_for_bytes(high: u8, low: u8, rest: Seq<u8>)
    requires
        nibble(high) is Some,
        nibble(low) is Some,
    ensures
        decoded(seq![0x25u8, high, low] + rest) == match decoded(rest) {
            Some(more) => Some(seq![(nibble(high)->0 * 16 + nibble(low)->0) as u8] + more),
            None => None,
        },
        nibble(0x30) == Some(0u8),
        nibble(0x39) == Some(9u8),
        nibble(0x41) == Some(10u8),
        nibble(0x46) == Some(15u8),
        nibble(0x61) == Some(10u8),
        nibble(0x66) == Some(15u8),
{
    let all = seq![0x25u8, high, low] + rest;
    assert(all.skip(3) =~= rest);
}

/// Only an absolute path names a file, and the words for what to do with files name none.
pub proof fn only_absolute_paths_name_files(value: Seq<char>)
    ensures
        path_of(value) matches Some(path) ==> path.len() > 0 && path[0] == '/',
        entry_text(value) == "copy"@ || entry_text(value) == "cut"@ ==> path_of(value) is None,
{
}

/// An absolute path without noise around it names itself.
pub proof fn absolute_paths_name_themselves(path: Seq<char>)
    requires
        path.len() > 0,
        path[0] == '/',
        path.last() != '\0',
        path.last() != '\r',
        path.last() != '\n',
    ensures
        path_of(path) == Some(path),
{
    reveal_strlit("copy");
    reveal_strlit("cut");
    reveal_strlit("file://");
    assert("copy"@[0] == 'c');
    assert("cut"@[0] == 'c');
    assert("file://"@[0] == 'f');
    assert(path.skip(0) =~= path);
    assert(noise_before(path) == 0);
    assert(entry_text(path) == path);
    if text::begins_with(path, "file://"@) {
        assert(path.subrange(0, "file://"@.len() as int)[0] == path[0]);
    }
}

/// Each file that an entry names is among the paths.
pub proof fn named_files_are_found(entries: Seq<Seq<char>>, i: int)
    requires
        0 <= i < entries.len(),
        path_of(text::trim(entries[i])) is Some,
    ensures
        paths_of(entries).contains(path_of(text::trim(entries[i]))->0),
    decreases entries.len(),
{
    let before = paths_of(entries.drop_last());
    let all = paths_of(entries);
    let path = path_of(text::trim(entries[i]))->0;
    if i == entries.len() - 1 {
        assert(all[before.len() as int] == path);
    } else {
        named_files_are_found(entries.drop_last(), i);
        let k = choose|k: int| 0 <= k < before.len() && before[k] == path;
        assert(all[k] == path);
    }
}

/// The type of an image goes by its extension, in whatever case, and is that of PNG files
/// where the extension is no other one.
pub proof fn images_have_their_types(extension: Seq<char>)
    ensures
        text::ascii_lowered(extension) == "jpg"@ || text::ascii_lowered(extension) == "jpeg"@
            <==> mime_type_of(extension) == "image/jpeg"@,
        text::ascii_lowered(extension) == "webp"@ <==> mime_type_of(extension) == "image/webp"@,
        text::ascii_lowered(extension) == "gif"@ <==> mime_type_of(extension) == "image/gif"@,
        text::ascii_lowered(extension) == "png"@ ==> mime_type_of(extension) == "image/png"@,
{
    reveal_strlit("jpg");
    reveal_strlit("jpeg");
    reveal_strlit("webp");
    reveal_strlit("gif");
    reveal_strlit("png");
    assert("jpg"@.len() == 3);
    assert("jpeg"@.len() == 4);
    assert("webp"@.len() == 4);
    assert("gif"@.len() == 3);
    assert("png"@.len() == 3);
    assert("jpg"@[0] == 'j');
    assert("gif"@[0] == 'g');
    assert("png"@[0] == 'p');
    assert("jpeg"@[0] == 'j');
    assert("webp"@[0] == 'w');
    reveal_strlit("image/jpeg");
    reveal_strlit("image/webp");
    reveal_strlit("image/gif");
    reveal_strlit("image/png");
    assert("image/jpeg"@.len() == 10);
    assert("image/webp"@.len() == 10);
    assert("image/gif"@.len() == 9);
    assert("image/png"@.len() == 9);
    assert("image/jpeg"@[6] == 'j');
    assert("image/webp"@[6] == 'w');
    assert("image/gif"@[6] == 'g');
    assert("image/png"@[6] == 'p');
}

} // verus!
