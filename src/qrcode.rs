use vstd::prelude::*;
use vstd::string::*;

use base64::Engine;
use qrcode_generator::{QRCodeError, QrCodeEcc};

use crate::configuration::QR_CODE_SIZE;
use crate::error::{TapferError, TapferResult};
use crate::tapfer_id::{ascii_upper, uuid_text, TapferId};

verus! {

#[verifier::external_type_specification]
#[verifier::external_body]
pub struct ExQRCodeError(QRCodeError);

#[verifier::external_type_specification]
pub struct ExQrCodeEcc(QrCodeEcc);

/// The error correction level, as a number from low (0) to high (3).
pub open spec fn ecc_level(ecc: QrCodeEcc) -> nat {
    match ecc {
        QrCodeEcc::Low => 0,
        QrCodeEcc::Medium => 1,
        QrCodeEcc::Quartile => 2,
        QrCodeEcc::High => 3,
    }
}

/// What `qrcode_generator::to_png_to_vec_from_str` makes of a text at an
/// error correction level and an image size: the PNG bytes, or `None` where it
/// fails.
pub uninterp spec fn qr_png(text: Seq<char>, level: nat, size: nat) -> Option<Seq<u8>>;

/// What `qrcode_generator::to_matrix_from_str` makes of a text at an error
/// correction level: the rows of modules (`true` for dark), or `None` where it
/// fails.
pub uninterp spec fn qr_modules(text: Seq<char>, level: nat) -> Option<Seq<Seq<bool>>>;

/// The character of the standard base64 alphabet for a value below 64.
pub open spec fn base64_char(n: int) -> char {
    if n < 26 {
        (('A' as int) + n) as char
    } else if n < 52 {
        (('a' as int) + n - 26) as char
    } else if n < 62 {
        (('0' as int) + n - 52) as char
    } else if n == 62 {
        '+'
    } else {
        '/'
    }
}

/// Standard base64 with padding: each group of three bytes becomes four
/// characters of six bits each; a last group of one or two bytes is padded
/// with `=`.
pub open spec fn base64_of(data: Seq<u8>) -> Seq<char>
    decreases data.len(),
{
    if data.len() == 0 {
        Seq::empty()
    } else if data.len() == 1 {
        seq![base64_char((data[0] as int) / 4), base64_char(((data[0] as int) % 4) * 16), '=', '=']
    } else if data.len() == 2 {
        seq![
            base64_char((data[0] as int) / 4),
            base64_char(((data[0] as int) % 4) * 16 + (data[1] as int) / 16),
            base64_char(((data[1] as int) % 16) * 4),
            '=',
        ]
    } else {
        seq![
            base64_char((data[0] as int) / 4),
            base64_char(((data[0] as int) % 4) * 16 + (data[1] as int) / 16),
            base64_char(((data[1] as int) % 16) * 4 + (data[2] as int) / 64),
            base64_char((data[2] as int) % 64),
        ] + base64_of(data.subrange(3, data.len() as int))
    }
}

/// Relies on `qrcode_generator::to_png_to_vec_from_str`: a PNG image of the
/// QR code of the text; the result depends on the arguments alone.
#[verifier::external_body]
fn png_of_text(text: &str, ecc: QrCodeEcc, size: usize) -> (r: Result<Vec<u8>, QRCodeError>)
    ensures
        match r {
            Ok(png) => qr_png(text@, ecc_level(ecc), size as nat) == Some(png@),
            Err(_) => qr_png(text@, ecc_level(ecc), size as nat) is None,
        },
{
    qrcode_generator::to_png_to_vec_from_str(text, ecc, size)
}

/// Relies on `qrcode_generator::to_matrix_from_str`: the modules of the QR
/// code of the text, one row per line, as many modules per row as there are
/// rows; the result depends on the arguments alone.
#[verifier::external_body]
fn modules_of_text(text: &str, ecc: QrCodeEcc) -> (r: Result<Vec<Vec<bool>>, QRCodeError>)
    ensures
        match r {
            Ok(m) => {
                &&& qr_modules(text@, ecc_level(ecc)) == Some(m@.map_values(|row: Vec<bool>| row@))
                &&& forall|i: int| 0 <= i < m@.len() ==> (#[trigger] m@[i])@.len() == m@.len()
            },
            Err(_) => qr_modules(text@, ecc_level(ecc)) is None,
        },
{
    qrcode_generator::to_matrix_from_str(text, ecc)
}

/// Relies on `base64::engine::general_purpose::STANDARD`'s `encode`: the
/// standard alphabet with padding. It panics only where the length of its
/// output would not fit in a `usize`.
#[verifier::external_body]
fn encode_base64(data: &Vec<u8>) -> (r: String)
    requires
        data@.len() <= usize::MAX / 2,
    ensures
        r@ == base64_of(data@),
{
    base64::engine::general_purpose::STANDARD.encode(data)
}

/// Relies on `String`'s `FromIterator<char>`: the characters in order.
#[verifier::external_body]
fn string_of_chars(chars: &Vec<char>) -> (r: String)
    ensures
        r@ == chars@,
{
    chars.iter().collect()
}

pub const QR_CODE_ECC: QrCodeEcc = QrCodeEcc::Medium;

/// The text in an asset's QR code: its page, upper-cased so that it fits the
/// compact alphanumeric mode of QR codes.
pub open spec fn qr_text(host: Seq<char>, id: TapferId) -> Seq<char> {
    ascii_upper(host + "/uploads/"@ + uuid_text(id.value()))
}

/// Appends the characters of a text, upper-cased.
fn push_upper(out: &mut Vec<char>, s: &str)
    ensures
        final(out)@ == old(out)@ + ascii_upper(s@),
{
    let n = s.unicode_len();
    let mut i: usize = 0;
    while i < n
        invariant
            n == s@.len(),
            i <= n,
            out@ == old(out)@ + ascii_upper(s@.subrange(0, i as int)),
        decreases n - i,
    {
        let c = s.get_char(i);
        let u = if 'a' <= c && c <= 'z' {
            ((c as u32) - 32) as u8 as char
        } else {
            c
        };
        out.push(u);
        assert(s@.subrange(0, i + 1) =~= s@.subrange(0, i as int).push(c));
        assert(ascii_upper(s@.subrange(0, i + 1)) =~= ascii_upper(s@.subrange(0, i as int)).push(u));
        i = i + 1;
    }
    assert(s@.subrange(0, n as int) =~= s@);
}

/// The text of an asset's QR code.
pub fn qr_link(id: TapferId, host: &str) -> (r: String)
    ensures
        r@ == qr_text(host@, id),
{
    let mut chars: Vec<char> = Vec::new();
    push_upper(&mut chars, host);
    push_upper(&mut chars, "/uploads/");
    let id_text = id.to_text();
    push_upper(&mut chars, id_text.as_str());
    proof {
        reveal_strlit("/uploads/");
        assert(ascii_upper(host@ + "/uploads/"@ + uuid_text(id.value())) =~= ascii_upper(host@)
            + ascii_upper("/uploads/"@) + ascii_upper(uuid_text(id.value())));
    }
    string_of_chars(&chars)
}

/// The PNG image of the QR code of a text, at the configured size and error
/// correction.
pub fn png_qr(text: &str) -> (r: TapferResult<Vec<u8>>)
    ensures
        match qr_png(text@, 1, QR_CODE_SIZE as nat) {
            Some(png) => r is Ok && r->Ok_0@ == png,
            None => r matches Err(TapferError::QrCode),
        },
{
    match png_of_text(text, QR_CODE_ECC, QR_CODE_SIZE as usize) {
        Ok(png) => Ok(png),
        Err(_) => Err(TapferError::QrCode),
    }
}

/// The base64 text of a PNG QR code of a text, as embedded in pages.
pub open spec fn base64_qr_spec(text: Seq<char>, r: TapferResult<String>) -> bool {
    match qr_png(text, 1, QR_CODE_SIZE as nat) {
        Some(png) => if png.len() <= usize::MAX / 2 {
            r is Ok && r->Ok_0@ == base64_of(png)
        } else {
            r matches Err(TapferError::QrCode)
        },
        None => r matches Err(TapferError::QrCode),
    }
}

/// The PNG image of the QR code of a text, in base64.
pub fn base64_png_qr(text: &str) -> (r: TapferResult<String>)
    ensures
        base64_qr_spec(text@, r),
{
    let data = png_qr(text)?;
    if data.len() <= usize::MAX / 2 {
        Ok(encode_base64(&data))
    } else {
        Err(TapferError::QrCode)
    }
}

/// The PNG image of an asset's QR code.
pub fn qr_from_id(id: TapferId, host: &str) -> (r: TapferResult<Vec<u8>>)
    ensures
        match qr_png(qr_text(host@, id), 1, QR_CODE_SIZE as nat) {
            Some(png) => r is Ok && r->Ok_0@ == png,
            None => r matches Err(TapferError::QrCode),
        },
{
    let text = qr_link(id, host);
    png_qr(text.as_str())
}

/// The PNG image of an asset's QR code, in base64.
pub fn base64_qr_from_id(id: TapferId, host: &str) -> (r: TapferResult<String>)
    ensures
        base64_qr_spec(qr_text(host@, id), r),
{
    let text = qr_link(id, host);
    base64_png_qr(text.as_str())
}

/// The base64 PNG of the QR code of a fresh random id, as a placeholder
/// before an upload has an id.
pub fn random_base64_qr_from_id(host: &str) -> (r: TapferResult<String>)
    ensures
        exists|id: TapferId| #[trigger] base64_qr_spec(qr_text(host@, id), r),
{
    let id = TapferId::new_random();
    let r = base64_qr_from_id(id, host);
    assert(base64_qr_spec(qr_text(host@, id), r));
    r
}

/// One character for two vertically stacked modules, dark modules drawn as
/// ink: full block, upper half, lower half, or blank.
pub open spec fn block_char(top: bool, bottom: bool) -> char {
    if !top && !bottom {
        '\u{2588}'
    } else if !top {
        '\u{2580}'
    } else if !bottom {
        '\u{2584}'
    } else {
        ' '
    }
}

/// One line of the text rendering: two rows of modules between a left and a
/// right border.
pub open spec fn render_line(top: Seq<bool>, bottom: Seq<bool>) -> Seq<char> {
    let w = if top.len() <= bottom.len() { top.len() } else { bottom.len() };
    seq!['\u{2588}'] + Seq::new(w, |i: int| block_char(top[i], bottom[i])) + seq!['\u{2588}', '\n']
}

/// The first `k` lines of the rendering of the rows `p`, two rows per line.
pub open spec fn render_lines(p: Seq<Seq<bool>>, k: nat) -> Seq<char>
    decreases k,
{
    if k == 0 {
        Seq::empty()
    } else {
        render_lines(p, (k - 1) as nat) + render_line(p[2 * (k - 1)], p[2 * (k - 1) + 1])
    }
}

/// The text rendering of a QR code: a blank row is put on top, each pair of
/// rows becomes a line (a last row without a partner is left out), and a
/// bottom border closes it.
pub open spec fn render_spec(m: Seq<Seq<bool>>) -> Seq<char> {
    let p = seq![Seq::new(m.len(), |i: int| false)] + m;
    render_lines(p, p.len() / 2) + Seq::new(p.len() + 1, |i: int| '\u{2588}')
}

fn block(top: bool, bottom: bool) -> (r: char)
    ensures
        r == block_char(top, bottom),
{
    if !top && !bottom {
        '\u{2588}'
    } else if !top {
        '\u{2580}'
    } else if !bottom {
        '\u{2584}'
    } else {
        ' '
    }
}

/// Renders rows of modules as text with half-block characters.
pub fn render_modules(m: Vec<Vec<bool>>) -> (r: Vec<char>)
    requires
        m@.len() + 2 <= usize::MAX,
    ensures
        r@ == render_spec(m@.map_values(|row: Vec<bool>| row@)),
{
    let ghost mv = m@.map_values(|row: Vec<bool>| row@);
    let n = m.len();
    let mut border: Vec<bool> = Vec::new();
    let mut j: usize = 0;
    while j < n
        invariant
            j <= n,
            border@ == Seq::new(j as nat, |i: int| false),
        decreases n - j,
    {
        border.push(false);
        j = j + 1;
    }
    let mut p = m;
    p.insert(0, border);
    let ghost pv = p@.map_values(|row: Vec<bool>| row@);
    assert(pv =~= seq![Seq::new(mv.len(), |i: int| false)] + mv);
    let lines = p.len() / 2;
    let mut out: Vec<char> = Vec::new();
    let mut k: usize = 0;
    while k < lines
        invariant
            lines == p@.len() / 2,
            p@.len() == n + 1,
            n + 2 <= usize::MAX,
            k <= lines,
            pv == p@.map_values(|row: Vec<bool>| row@),
            out@ == render_lines(pv, k as nat),
        decreases lines - k,
    {
        let top = &p[2 * k];
        let bottom = &p[2 * k + 1];
        assert(pv[2 * k as int] == top@);
        assert(pv[2 * k + 1] == bottom@);
        let w = if top.len() <= bottom.len() { top.len() } else { bottom.len() };
        let ghost start = out@;
        out.push('\u{2588}');
        let mut c: usize = 0;
        while c < w
            invariant
                w <= top@.len(),
                w <= bottom@.len(),
                c <= w,
                out@ == start + seq!['\u{2588}'] + Seq::new(c as nat, |i: int| block_char(top@[i], bottom@[i])),
            decreases w - c,
        {
            out.push(block(top[c], bottom[c]));
            assert(Seq::new((c + 1) as nat, |i: int| block_char(top@[i], bottom@[i])) =~= Seq::new(
                c as nat,
                |i: int| block_char(top@[i], bottom@[i]),
            ).push(block_char(top@[c as int], bottom@[c as int])));
            c = c + 1;
        }
        out.push('\u{2588}');
        out.push('\n');
        assert(out@ =~= render_lines(pv, (k + 1) as nat));
        k = k + 1;
    }
    let total = p.len() + 1;
    let ghost body = out@;
    let mut b: usize = 0;
    while b < total
        invariant
            total == p@.len() + 1,
            b <= total,
            out@ == body + Seq::new(b as nat, |i: int| '\u{2588}'),
        decreases total - b,
    {
        out.push('\u{2588}');
        assert(Seq::new((b + 1) as nat, |i: int| '\u{2588}') =~= Seq::new(b as nat, |i: int| '\u{2588}').push('\u{2588}'));
        b = b + 1;
    }
    assert(out@ =~= render_spec(mv));
    out
}

/// A QR code of an asset drawn with text characters, for terminals.
pub fn tiny_qr_from_id(id: TapferId, host: &str) -> (r: TapferResult<String>)
    ensures
        match qr_modules(qr_text(host@, id), 0) {
            Some(m) => if m.len() + 2 <= usize::MAX {
                r is Ok && r->Ok_0@ == render_spec(m)
            } else {
                r matches Err(TapferError::QrCode)
            },
            None => r matches Err(TapferError::QrCode),
        },
{
    let text = qr_link(id, host);
    match modules_of_text(text.as_str(), QrCodeEcc::Low) {
        Ok(m) => {
            if m.len() <= usize::MAX - 2 {
                let chars = render_modules(m);
                Ok(string_of_chars(&chars))
            } else {
                Err(TapferError::QrCode)
            }
        },
        Err(_) => Err(TapferError::QrCode),
    }
}

} // verus!
