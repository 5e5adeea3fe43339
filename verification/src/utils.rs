//! Entry classification and the human-readable size and time
//! formatters.
use vstd::prelude::*;
use vstd::arithmetic::div_mod::{
    lemma_div_denominator, lemma_div_is_ordered, lemma_div_is_ordered_by_denominator,
};
use vstd::arithmetic::mul::lemma_mul_upper_bound;
use vstd::arithmetic::power2::{
    pow2, lemma2_to64, lemma2_to64_rest, lemma_pow2_unfold, lemma_pow2_pos,
    lemma_pow2_strictly_increases,
};

use crate::entry::FileType;
use crate::fmt_num::{dec_chars, two_digit_chars, u64_string, two_digit_string};
use crate::clock::{
    now_epoch_seconds, local_civil, time_text, full_date_string, CIVIL_RANGE, CivilTime,
    civil_wf, time_text_chars,
};

verus! {

/// Whether two string slices hold the same characters.
pub fn str_eq(a: &str, b: &str) -> (r: bool)
    ensures
        r == (a@ == b@),
{
    let sa = String::from_str(a);
    let sb = String::from_str(b);
    sa == sb
}

/// Extensions classified as images.
pub open spec fn is_image_ext(e: Seq<char>) -> bool {
    ||| e == "jpg"@
    ||| e == "jpeg"@
    ||| e == "png"@
    ||| e == "gif"@
    ||| e == "bmp"@
    ||| e == "tiff"@
    ||| e == "webp"@
    ||| e == "svg"@
}

/// Extensions classified as video.
pub open spec fn is_video_ext(e: Seq<char>) -> bool {
    ||| e == "mp4"@
    ||| e == "avi"@
    ||| e == "mkv"@
    ||| e == "mov"@
    ||| e == "flv"@
    ||| e == "wmv"@
    ||| e == "webm"@
    ||| e == "mpeg"@
}

/// Extensions classified as audio.
pub open spec fn is_audio_ext(e: Seq<char>) -> bool {
    ||| e == "mp3"@
    ||| e == "wav"@
    ||| e == "aac"@
    ||| e == "flac"@
    ||| e == "ogg"@
    ||| e == "m4a"@
}

/// Extensions classified as documents.
pub open spec fn is_document_ext(e: Seq<char>) -> bool {
    ||| e == "pdf"@
    ||| e == "docx"@
    ||| e == "doc"@
    ||| e == "odt"@
    ||| e == "pptx"@
    ||| e == "xlsx"@
    ||| e == "rtf"@
    ||| e == "epub"@
    ||| e == "html"@
}

/// Extensions classified as plain files, the empty extension among
/// them.
pub open spec fn is_plain_ext(e: Seq<char>) -> bool {
    ||| e == "txt"@
    ||| e == "md"@
    ||| e == ""@
}

/// The kind an extension is classified as.
pub open spec fn file_type_of_ext(e: Seq<char>) -> FileType {
    if is_image_ext(e) {
        FileType::Image
    } else if is_video_ext(e) {
        FileType::Video
    } else if is_audio_ext(e) {
        FileType::Audio
    } else if is_document_ext(e) {
        FileType::Document
    } else if is_plain_ext(e) {
        FileType::File
    } else {
        FileType::Unknown
    }
}

/// Classifies a file by its extension.
pub fn file_type_from_extension(ext: &str) -> (r: FileType)
    ensures
        r == file_type_of_ext(ext@),
{
    if str_eq(ext, "jpg") || str_eq(ext, "jpeg") || str_eq(ext, "png") || str_eq(ext, "gif")
        || str_eq(ext, "bmp") || str_eq(ext, "tiff") || str_eq(ext, "webp") || str_eq(ext, "svg") {
        FileType::Image
    } else if str_eq(ext, "mp4") || str_eq(ext, "avi") || str_eq(ext, "mkv") || str_eq(ext, "mov")
        || str_eq(ext, "flv") || str_eq(ext, "wmv") || str_eq(ext, "webm") || str_eq(ext, "mpeg") {
        FileType::Video
    } else if str_eq(ext, "mp3") || str_eq(ext, "wav") || str_eq(ext, "aac") || str_eq(ext, "flac")
        || str_eq(ext, "ogg") || str_eq(ext, "m4a") {
        FileType::Audio
    } else if str_eq(ext, "pdf") || str_eq(ext, "docx") || str_eq(ext, "doc") || str_eq(ext, "odt")
        || str_eq(ext, "pptx") || str_eq(ext, "xlsx") || str_eq(ext, "rtf") || str_eq(ext, "epub")
        || str_eq(ext, "html") {
        FileType::Document
    } else if str_eq(ext, "txt") || str_eq(ext, "md") || str_eq(ext, "") {
        FileType::File
    } else {
        FileType::Unknown
    }
}

/// The icon shown for each kind of entry.
pub open spec fn image_of_type(t: FileType) -> Seq<char> {
    match t {
        FileType::Directory => "resources/folder.ico"@,
        FileType::File => "resources/file.ico"@,
        FileType::Image => "resources/image.ico"@,
        FileType::Video => "resources/video.ico"@,
        FileType::Audio => "resources/audio.ico"@,
        FileType::Document => "resources/document.ico"@,
        FileType::Unknown => "resources/unknown.ico"@,
    }
}

/// The icon resource for a kind of entry.
pub fn image_from_type(file_type: FileType) -> (r: String)
    ensures
        r@ == image_of_type(file_type),
{
    let s = match file_type {
        FileType::Directory => "resources/folder.ico",
        FileType::File => "resources/file.ico",
        FileType::Image => "resources/image.ico",
        FileType::Video => "resources/video.ico",
        FileType::Audio => "resources/audio.ico",
        FileType::Document => "resources/document.ico",
        FileType::Unknown => "resources/unknown.ico",
    };
    String::from_str(s)
}

/// How many halvings bring `n` under 53 binary digits: the exponent of
/// the least-significant bit the size display can carry.
pub open spec fn sig_exp(n: nat) -> nat
    decreases n,
{
    if n < 0x20000000000000 {
        0
    } else {
        1 + sig_exp(n / 2)
    }
}

/// `num / den` rounded to the nearest whole number, ties going to the
/// even neighbour, as binary floating point rounds.
pub open spec fn round_half_even(num: nat, den: nat) -> nat {
    let q = num / den;
    let r = num % den;
    if 2 * r > den {
        q + 1
    } else if 2 * r < den {
        q
    } else {
        q + q % 2
    }
}

/// The size as the display's 53-significant-bit floating-point value
/// carries it: rounded to a multiple of the lowest bit it can hold.
pub open spec fn shown_size(n: nat) -> nat {
    round_half_even(n, pow2(sig_exp(n))) * pow2(sig_exp(n))
}

/// The power of 1024 the shown size is divided by: the first that
/// brings it below 1024, or the fourth.
pub open spec fn unit_exp(m: nat) -> nat {
    if m < 0x100000 {
        10
    } else if m < 0x40000000 {
        20
    } else if m < 0x10000000000 {
        30
    } else {
        40
    }
}

/// The unit written after the number. A size that stays at 1024 or
/// more even in terabytes keeps the bare-byte label.
pub open spec fn unit_label(m: nat) -> Seq<char> {
    if m < 0x100000 {
        "KB"@
    } else if m < 0x40000000 {
        "MB"@
    } else if m < 0x10000000000 {
        "GB"@
    } else if m < 0x4000000000000 {
        "TB"@
    } else {
        "B"@
    }
}

/// The human-readable size: the shown value in hundredths of the
/// chosen unit, written with two decimal places and the unit.
pub open spec fn readable_size_chars(n: nat) -> Seq<char> {
    let m = shown_size(n);
    let c = round_half_even(m * 100, pow2(unit_exp(m)));
    dec_chars(c / 100) + seq!['.'] + two_digit_chars((c % 100) as nat) + seq![' '] + unit_label(m)
}

proof fn lemma_sig_exp_le(n: nat, k: nat)
    requires
        n < 0x20000000000000 * pow2(k),
    ensures
        sig_exp(n) <= k,
    decreases n,
{
    if n < 0x20000000000000 {
    } else {
        lemma_pow2_pos(k);
        if k == 0 {
            assert(0x20000000000000 * pow2(0) == 0x20000000000000) by {
                lemma2_to64();
            }
            assert(false);
        } else {
            lemma_pow2_unfold(k);
            assert(n / 2 < 0x20000000000000 * pow2((k - 1) as nat));
            lemma_sig_exp_le(n / 2, (k - 1) as nat);
        }
    }
}

proof fn lemma_pow2_le(e1: nat, e2: nat)
    requires
        e1 <= e2,
    ensures
        pow2(e1) <= pow2(e2),
{
    if e1 < e2 {
        lemma_pow2_strictly_increases(e1, e2);
    }
}

proof fn lemma_sig_div_small(n: nat)
    ensures
        n / pow2(sig_exp(n)) < 0x20000000000000,
    decreases n,
{
    if n < 0x20000000000000 {
        lemma2_to64();
    } else {
        let e0 = sig_exp(n / 2);
        lemma_sig_div_small(n / 2);
        lemma_pow2_unfold(sig_exp(n));
        lemma_pow2_pos(e0);
        lemma_div_denominator(n as int, 2, pow2(e0) as int);
    }
}

/// The power of two whose multiples the 53-bit display value ranges
/// over: 1 for sizes below 2^53.
fn sig_scale(n: u64) -> (d: u64)
    ensures
        d as nat == pow2(sig_exp(n as nat)),
        1 <= d <= 0x800,
    decreases n,
{
    if n < 0x20000000000000u64 {
        proof {
            lemma2_to64();
        }
        1
    } else {
        let d0 = sig_scale(n / 2);
        proof {
            assert(0x20000000000000 * pow2(11) == 0x10000000000000000) by {
                lemma2_to64();
            }
            lemma_sig_exp_le(n as nat, 11);
            let e = sig_exp(n as nat);
            assert(e == 1 + sig_exp(n as nat / 2));
            lemma_pow2_unfold(e);
            lemma_pow2_le(e, 11);
            lemma2_to64();
        }
        2 * d0
    }
}

/// The human-readable form of a byte count: two decimal places and a
/// unit, as the listing's size column shows it.
pub fn readable_size(size: u64) -> (r: String)
    ensures
        r@ == readable_size_chars(size as nat),
{
    // Round the count to the 53 significant binary digits the display
    // value carries.
    let d: u64 = sig_scale(size);
    let q: u64 = size / d;
    let rem: u64 = size % d;
    let inc: u64 = if 2 * rem > d {
        1
    } else if 2 * rem < d {
        0
    } else {
        q % 2
    };
    proof {
        lemma_sig_div_small(size as nat);
        lemma_mul_upper_bound(
            q as int + inc as int,
            0x20000000000000,
            d as int,
            0x800,
        );
    }
    let m: u128 = (q as u128 + inc as u128) * d as u128;
    proof {
        assert(m as nat == shown_size(size as nat));
        assert(m <= 0x10000000000000000u128);
    }
    // Pick the unit and round to hundredths of it.
    let den: u128 = if m < 0x100000 {
        0x400
    } else if m < 0x40000000 {
        0x100000
    } else if m < 0x10000000000 {
        0x40000000
    } else {
        0x10000000000
    };
    proof {
        lemma2_to64();
        lemma2_to64_rest();
        assert(den as nat == pow2(unit_exp(m as nat)));
    }
    let num: u128 = m * 100;
    let q2: u128 = num / den;
    let r2: u128 = num % den;
    proof {
        lemma_div_is_ordered_by_denominator(num as int, 0x400, den as int);
        lemma_div_is_ordered(num as int, 0x640000000000000000, 0x400);
    }
    let c128: u128 = if 2 * r2 > den {
        q2 + 1
    } else if 2 * r2 < den {
        q2
    } else {
        q2 + q2 % 2
    };
    let c: u64 = c128 as u64;
    proof {
        assert(c as nat == round_half_even((m * 100) as nat, pow2(unit_exp(m as nat))));
    }
    let mut s = u64_string(c / 100);
    s.append(".");
    let frac = two_digit_string(c % 100);
    s.append(frac.as_str());
    s.append(" ");
    let unit = if m < 0x100000 {
        "KB"
    } else if m < 0x40000000 {
        "MB"
    } else if m < 0x10000000000 {
        "GB"
    } else if m < 0x4000000000000 {
        "TB"
    } else {
        "B"
    };
    s.append(unit);
    proof {
        reveal_strlit(".");
        reveal_strlit(" ");
        assert(s@ =~= readable_size_chars(size as nat));
    }
    s
}

/// The created/modified column's text: a dash where the timestamp is
/// absent, else the relative-time text against the clock's present
/// reading. Which readings the clock gives is outside any contract;
/// the result is always the text `clock::time_text` fixes for some
/// pair of in-range readings, never anything else.
pub fn readable_time(time: Option<u64>) -> (r: String)
    requires
        time matches Some(t) ==> t as int <= CIVIL_RANGE as int,
    ensures
        time is None ==> r@ == "-"@,
        time is Some ==> exists|delta: int, tc: CivilTime, nc: CivilTime|
            civil_wf(tc) && civil_wf(nc) && r@ == #[trigger] time_text_chars(delta, tc, nc),
{
    match time {
        None => String::from_str("-"),
        Some(t) => {
            let now: i64 = now_epoch_seconds();
            if -CIVIL_RANGE <= now && now <= CIVIL_RANGE {
                let delta: i64 = now - (t as i64);
                let tc = local_civil(t as i64);
                let nc = local_civil(now);
                let text = time_text(delta, &tc, &nc);
                proof {
                    assert(text@ == time_text_chars(delta as int, tc, nc));
                }
                text
            } else {
                // The clock reads outside the calendar range: show the
                // full date, which is the text an hour-old moment on
                // an unrelated date would get.
                let tc = local_civil(t as i64);
                let text = full_date_string(&tc);
                proof {
                    let witness_year: i32 = if tc.year >= 0 {
                        -2i32
                    } else {
                        2i32
                    };
                    let w = CivilTime {
                        year: witness_year,
                        month: 1,
                        day: 1,
                        hour12: 1,
                        minute: 0,
                        pm: false,
                    };
                    assert(text@ == time_text_chars(3600, tc, w));
                }
                text
            }
        },
    }
}

} // verus!
