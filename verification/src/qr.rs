//! QR codes drawn in the terminal: two module rows per text line, with
//! half-block characters.

use vstd::prelude::*;
use crate::text::{concat2, push_char, string_views};

verus! {

/// What `qrcode::QrCode::new` makes of `data`: the number of modules per
/// side and the modules row by row (`true` for dark), or the text of the
/// error it reports.
pub uninterp spec fn qr_encoding(data: Seq<u8>) -> Result<(usize, Seq<bool>), Seq<char>>;

/// Encodes `data` with `qrcode::QrCode::new` and reads back `width()` and
/// `to_colors()` (a module is dark when its color is `Color::Dark`), or the
/// `Display` text of the `QrError`.
///
/// Beyond naming the result, the contract states what the crate's source
/// shows of every code it builds: its width is positive (`Version::width`
/// is at least 21 for the versions `new` picks) and it has `width * width`
/// modules (the canvas is allocated with that many).
#[verifier::external_body]
fn encode_qr(data: &[u8]) -> (r: Result<(usize, Vec<bool>), String>)
    ensures
        match r {
            Ok((w, dark)) => {
                &&& qr_encoding(data@) == Ok::<(usize, Seq<bool>), Seq<char>>((w, dark@))
                &&& w > 0
                &&& dark@.len() == w * w
            },
            Err(e) => qr_encoding(data@) == Err::<(usize, Seq<bool>), Seq<char>>(e@),
        },
{
    match qrcode::QrCode::new(data) {
        Ok(code) => Ok(
            (
                code.width(),
                code.to_colors().iter().map(|c| *c == qrcode::Color::Dark).collect(),
            ),
        ),
        Err(e) => Err(e.to_string()),
    }
}

/// The character showing a dark (`true`) or light upper and lower module.
pub open spec fn half_block(top: bool, bottom: bool) -> char {
    if top && bottom {
        '\u{2588}'
    } else if top {
        '\u{2580}'
    } else if bottom {
        '\u{2584}'
    } else {
        ' '
    }
}

/// Column `x` of the text line showing module rows `y` and `y + 1` of a
/// `w`-wide code; a missing row below the last one is light.
pub open spec fn qr_cell(w: nat, dark: Seq<bool>, y: int, x: int) -> char {
    half_block(dark[y * w + x], y + 1 < w && dark[(y + 1) * w + x])
}

/// Text line `k` of the code: module rows `2k` and `2k + 1`.
pub open spec fn qr_line(w: nat, dark: Seq<bool>, k: int) -> Seq<char> {
    Seq::new(w, |x: int| qr_cell(w, dark, 2 * k, x))
}

/// The text lines of a `w`-wide code, one per two module rows.
pub open spec fn qr_text_lines(w: nat, dark: Seq<bool>) -> Seq<Seq<char>> {
    Seq::new((w + 1) / 2, |k: int| qr_line(w, dark, k))
}

fn half_block_char(top: bool, bottom: bool) -> (c: char)
    ensures
        c == half_block(top, bottom),
{
    if top && bottom {
        '\u{2588}'
    } else if top {
        '\u{2580}'
    } else if bottom {
        '\u{2584}'
    } else {
        ' '
    }
}

/// The text lines of a `w`-wide code whose modules, row by row, are `dark`.
pub fn qr_lines_from_modules(w: usize, dark: &Vec<bool>) -> (lines: Vec<String>)
    requires
        w > 0,
        dark@.len() == w * w,
    ensures
        string_views(lines@) == qr_text_lines(w as nat, dark@),
{
    let ghost all = qr_text_lines(w as nat, dark@);
    assert(w * w <= usize::MAX) by {
        assert(dark@.len() == dark.len());
    }
    assert(w < usize::MAX) by (nonlinear_arith)
        requires
            w > 0,
            w * w <= usize::MAX,
    {
        if w >= 2 {
            assert(w * w >= 2 * w);
        }
    }
    let mut lines: Vec<String> = Vec::new();
    let mut y: usize = 0;
    while y < w
        invariant
            w > 0,
            w < usize::MAX,
            w * w <= usize::MAX,
            dark@.len() == w * w,
            y % 2 == 0,
            y <= w + 1,
            lines@.len() == y / 2,
            all == qr_text_lines(w as nat, dark@),
            forall|k: int| 0 <= k < lines@.len() ==> #[trigger] lines@[k]@ == all[k],
        decreases w + 1 - y,
    {
        let mut line = String::new();
        let mut x: usize = 0;
        while x < w
            invariant
                w > 0,
                w * w <= usize::MAX,
                dark@.len() == w * w,
                y < w,
                x <= w,
                line@.len() == x,
                forall|i: int| 0 <= i < x ==> #[trigger] line@[i] == qr_cell(w as nat, dark@, y as int, i),
            decreases w - x,
        {
            assert(y * w + x < w * w && y * w <= w * w) by (nonlinear_arith)
                requires
                    y < w,
                    x < w,
            ;
            let top = dark[y * w + x];
            let below = y + 1 < w;
            let bottom = if below {
                assert((y + 1) * w + x < w * w && (y + 1) * w <= w * w) by (nonlinear_arith)
                    requires
                        y + 1 < w,
                        x < w,
                ;
                dark[(y + 1) * w + x]
            } else {
                false
            };
            let ghost before = line@;
            push_char(&mut line, half_block_char(top, bottom));
            assert(line@ == before.push(qr_cell(w as nat, dark@, y as int, x as int)));
            x = x + 1;
        }
        proof {
            let k = (y / 2) as int;
            assert(2 * k == y);
            assert(line@ =~= qr_line(w as nat, dark@, k));
            assert(k < (w + 1) / 2);
        }
        lines.push(line);
        y = y + 2;
    }
    proof {
        assert(lines@.len() == all.len());
        assert(string_views(lines@) =~= all);
    }
    lines
}

/// The text lines of a QR code of the UTF-8 bytes of `text`, or the
/// encoder's error after `QR encode error: `.
pub open spec fn qr_render(text: Seq<char>) -> Result<Seq<Seq<char>>, Seq<char>> {
    match qr_encoding(vstd::utf8::encode_utf8(text)) {
        Ok((w, dark)) => Ok(qr_text_lines(w as nat, dark)),
        Err(msg) => Err("QR encode error: "@ + msg),
    }
}

/// The text lines of a QR code of `url` (see [`qr_render`]).
pub fn generate_qr_lines(url: &str) -> (r: Result<Vec<String>, String>)
    ensures
        match r {
            Ok(lines) => qr_render(url@) == Ok::<Seq<Seq<char>>, Seq<char>>(string_views(lines@)),
            Err(e) => qr_render(url@) == Err::<Seq<Seq<char>>, Seq<char>>(e@),
        },
{
    match encode_qr(url.as_bytes()) {
        Ok((w, dark)) => Ok(qr_lines_from_modules(w, &dark)),
        Err(e) => Err(concat2("QR encode error: ", e.as_str())),
    }
}

} // verus!
