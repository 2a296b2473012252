use vstd::prelude::*;

verus! {

/// The notification picture for a battery percentage: tiers 5, 10, 25, 50,
/// 75 and full, with a charging variant of each.
pub open spec fn notif_png_name(percent: int, charging: bool) -> Seq<char> {
    if 0 <= percent <= 7 {
        if charging { "batt-5-charg.png"@ } else { "batt-5.png"@ }
    } else if 8 <= percent <= 17 {
        if charging { "batt-10-charg.png"@ } else { "batt-10.png"@ }
    } else if 18 <= percent <= 37 {
        if charging { "batt-25-charg.png"@ } else { "batt-25.png"@ }
    } else if 38 <= percent <= 62 {
        if charging { "batt-50-charg.png"@ } else { "batt-50.png"@ }
    } else if 63 <= percent <= 87 {
        if charging { "batt-75-charg.png"@ } else { "batt-75.png"@ }
    } else {
        if charging { "batt-full-charg.png"@ } else { "batt-full.png"@ }
    }
}

/// The file name of the notification picture for a battery percentage.
pub fn embedded_notif_png(battery_percent: isize, charging: bool) -> (r: Option<&'static str>)
    ensures
        r.is_some(),
        r.unwrap()@ == notif_png_name(battery_percent as int, charging),
{
    let name = if 0 <= battery_percent && battery_percent <= 7 {
        if charging { "batt-5-charg.png" } else { "batt-5.png" }
    } else if 8 <= battery_percent && battery_percent <= 17 {
        if charging { "batt-10-charg.png" } else { "batt-10.png" }
    } else if 18 <= battery_percent && battery_percent <= 37 {
        if charging { "batt-25-charg.png" } else { "batt-25.png" }
    } else if 38 <= battery_percent && battery_percent <= 62 {
        if charging { "batt-50-charg.png" } else { "batt-50.png" }
    } else if 63 <= battery_percent && battery_percent <= 87 {
        if charging { "batt-75-charg.png" } else { "batt-75.png" }
    } else {
        if charging { "batt-full-charg.png" } else { "batt-full.png" }
    };
    Some(name)
}

/// The cached square logo's file name for a notification picture.
pub fn logo_file_name(filename: &str) -> (r: String)
    ensures
        r@ == "logo-"@ + filename@,
{
    let mut name = String::from_str("logo-");
    name.append(filename);
    name
}

/// Where a `w` by `h` picture sits, centred, on a transparent square canvas:
/// the square's side and the picture's left and top offsets.
pub fn square_layout(w: u32, h: u32) -> (r: (u32, u32, u32))
    ensures
        r.0 == if w >= h { w } else { h },
        r.1 == (r.0 - w) / 2,
        r.2 == (r.0 - h) / 2,
        r.1 + w <= r.0,
        r.2 + h <= r.0,
{
    let side = if w >= h { w } else { h };
    (side, (side - w) / 2, (side - h) / 2)
}

/// `n` zero bytes: transparent RGBA padding.
pub open spec fn zeros(n: nat) -> Seq<u8> {
    Seq::new(n, |i: int| 0u8)
}

/// The side of the square that holds a `w` by `h` picture.
pub open spec fn square_side(w: u32, h: u32) -> u32 {
    if w >= h { w } else { h }
}

/// Row `y` of the square canvas, as RGBA bytes: the picture's row where the
/// centred picture covers it, transparent elsewhere.
pub open spec fn square_row(w: u32, h: u32, px: Seq<u8>, y: int) -> Seq<u8> {
    let side = square_side(w, h) as int;
    let x0 = (side - w) / 2;
    let y0 = (side - h) / 2;
    if y0 <= y < y0 + h {
        zeros((x0 * 4) as nat) + px.subrange((y - y0) * w * 4, (y - y0 + 1) * w * 4) + zeros(
            ((side - x0 - w) * 4) as nat,
        )
    } else {
        zeros((side * 4) as nat)
    }
}

/// The first `n` rows of the square canvas.
pub open spec fn square_rows(w: u32, h: u32, px: Seq<u8>, n: nat) -> Seq<u8>
    decreases n,
{
    if n == 0 {
        Seq::empty()
    } else {
        square_rows(w, h, px, (n - 1) as nat) + square_row(w, h, px, n - 1)
    }
}

/// The RGBA bytes of a `w` by `h` picture centred on a transparent square.
pub open spec fn square_pixels(w: u32, h: u32, px: Seq<u8>) -> Seq<u8> {
    square_rows(w, h, px, square_side(w, h) as nat)
}

fn push_zeros(out: &mut Vec<u8>, n: usize)
    ensures
        final(out)@ == old(out)@ + zeros(n as nat),
{
    let mut i: usize = 0;
    while i < n
        invariant
            i <= n,
            out@ == old(out)@ + zeros(i as nat),
        decreases n - i,
    {
        out.push(0u8);
        assert(zeros((i + 1) as nat) =~= zeros(i as nat).push(0u8));
        i = i + 1;
    }
}

fn push_range(out: &mut Vec<u8>, src: &Vec<u8>, from: usize, to: usize)
    requires
        from <= to <= src@.len(),
    ensures
        final(out)@ == old(out)@ + src@.subrange(from as int, to as int),
{
    let mut i: usize = from;
    while i < to
        invariant
            from <= i <= to,
            to <= src@.len(),
            out@ == old(out)@ + src@.subrange(from as int, i as int),
        decreases to - i,
    {
        out.push(src[i]);
        assert(src@.subrange(from as int, i + 1) =~= src@.subrange(from as int, i as int).push(
            src@[i as int],
        ));
        i = i + 1;
    }
}

/// Centres a `w` by `h` RGBA picture on a transparent square canvas.
pub fn pad_to_square(w: u32, h: u32, rgba: &Vec<u8>) -> (r: Vec<u8>)
    requires
        rgba@.len() == w as int * h as int * 4,
        square_side(w, h) as int * square_side(w, h) as int * 4 <= usize::MAX,
    ensures
        r@ == square_pixels(w, h, rgba@),
{
    let (side, x0, y0) = square_layout(w, h);
    let total = rgba.len();
    let mut out: Vec<u8> = Vec::new();
    let mut y: u32 = 0;
    while y < side
        invariant
            side == square_side(w, h),
            x0 == (side - w) / 2,
            y0 == (side - h) / 2,
            x0 + w <= side,
            y0 + h <= side,
            y <= side,
            rgba@.len() == w as int * h as int * 4,
            total == rgba@.len(),
            side as int * side as int * 4 <= usize::MAX,
            out@ == square_rows(w, h, rgba@, y as nat),
        decreases side - y,
    {
        let ghost before = out@;
        proof {
            assert(side as int * 4 <= side as int * side as int * 4 || side == 0) by (nonlinear_arith)
                requires side as int * side as int * 4 <= usize::MAX;
        }
        if y >= y0 && y - y0 < h {
            push_zeros(&mut out, x0 as usize * 4);
            let row: u32 = y - y0;
            proof {
                assert((row as int + 1) * w as int * 4 <= h as int * w as int * 4) by (nonlinear_arith)
                    requires row < h;
                assert(h as int * w as int * 4 == w as int * h as int * 4) by (nonlinear_arith);
                assert(row as int * w as int * 4 + w as int * 4 == (row as int + 1) * w as int * 4)
                    by (nonlinear_arith);
            }
            proof {
                assert(row as int * w as int <= row as int * w as int * 4) by (nonlinear_arith)
                    requires row >= 0, w >= 0;
                assert(row as int * w as int * 4 >= 0) by (nonlinear_arith)
                    requires row >= 0, w >= 0;
                assert(row as int * w as int * 4 + w as int * 4 <= rgba@.len());
                assert(rgba@.len() <= usize::MAX);
            }
            let start: usize = row as usize * w as usize * 4;
            let end: usize = start + w as usize * 4;
            push_range(&mut out, rgba, start, end);
            push_zeros(&mut out, (side - x0 - w) as usize * 4);
        } else {
            push_zeros(&mut out, side as usize * 4);
        }
        assert(out@ =~= before + square_row(w, h, rgba@, y as int));
        y = y + 1;
    }
    out
}

/// The width, height and RGBA8 bytes that a PNG file decodes to.
pub uninterp spec fn png_rgba_of(png: Seq<u8>) -> Option<(u32, u32, Seq<u8>)>;

/// Relies on image::load_from_memory_with_format with the PNG format and
/// DynamicImage::to_rgba8: the decoded picture's size and RGBA8 bytes, or
/// `None` when the bytes are not a PNG that decodes.
#[verifier::external_body]
fn decode_png_rgba(png: &[u8]) -> (r: Option<(u32, u32, Vec<u8>)>)
    ensures
        r.is_some() == png_rgba_of(png@).is_some(),
        r.is_some() ==> (r.unwrap().0, r.unwrap().1, r.unwrap().2@) == png_rgba_of(png@).unwrap(),
{
    let img = image::load_from_memory_with_format(png, image::ImageFormat::Png).ok()?.to_rgba8();
    let (w, h) = img.dimensions();
    Some((w, h, img.into_raw()))
}

/// The PNG file that a `w` by `h` RGBA8 picture encodes to.
pub uninterp spec fn png_encoding_of(w: u32, h: u32, rgba: Seq<u8>) -> Option<Seq<u8>>;

/// Relies on image's PngEncoder::write_image with RGBA8 colour: the PNG file
/// for the picture, or `None` when encoding fails. It panics unless the buffer
/// holds exactly `w * h * 4` bytes, hence the requirement.
#[verifier::external_body]
fn encode_png_rgba(w: u32, h: u32, rgba: &Vec<u8>) -> (r: Option<Vec<u8>>)
    requires
        rgba@.len() == w as int * h as int * 4,
    ensures
        r.is_some() == png_encoding_of(w, h, rgba@).is_some(),
        r.is_some() ==> r.unwrap()@ == png_encoding_of(w, h, rgba@).unwrap(),
{
    let mut out: Vec<u8> = Vec::new();
    let encoder = image::codecs::png::PngEncoder::new(&mut out);
    let res = image::ImageEncoder::write_image(encoder, rgba, w, h, image::ExtendedColorType::Rgba8);
    res.ok().map(|_| out)
}

/// The square logo for a wide notification picture, as a PNG file: the
/// picture centred on a transparent square.
pub open spec fn square_logo_of(png: Seq<u8>) -> Option<Seq<u8>> {
    match png_rgba_of(png) {
        None => None,
        Some(d) => {
            let (w, h, px) = d;
            let side = square_side(w, h);
            if px.len() == w as int * h as int * 4 && side as int * side as int * 4
                <= usize::MAX {
                png_encoding_of(side, side, square_pixels(w, h, px))
            } else {
                None
            }
        },
    }
}

/// Builds the square logo PNG for a notification picture; `None` when the
/// picture does not decode or the logo does not encode.
pub fn square_logo_png(png: &[u8]) -> (r: Option<Vec<u8>>)
    ensures
        r.is_some() == square_logo_of(png@).is_some(),
        r.is_some() ==> r.unwrap()@ == square_logo_of(png@).unwrap(),
{
    let decoded = decode_png_rgba(png);
    match decoded {
        None => None,
        Some((w, h, px)) => {
            let side = if w >= h { w } else { h };
            let n = px.len();
            let wide_w = w as u128;
            let wide_h = h as u128;
            let wide_side = side as u128;
            proof {
                assert(wide_w * wide_h * 4 <= 0x1_0000_0000 * 0x1_0000_0000 * 4) by (nonlinear_arith)
                    requires wide_w < 0x1_0000_0000, wide_h < 0x1_0000_0000;
                assert(wide_side * wide_side * 4 <= 0x1_0000_0000 * 0x1_0000_0000 * 4)
                    by (nonlinear_arith)
                    requires wide_side < 0x1_0000_0000;
            }
            if n as u128 != wide_w * wide_h * 4 || wide_side * wide_side * 4 > usize::MAX as u128 {
                return None;
            }
            let square = pad_to_square(w, h, &px);
            assert(square@.len() == side as int * side as int * 4) by {
                lemma_square_len(w, h, px@, square_side(w, h) as nat);
            }
            encode_png_rgba(side, side, &square)
        },
    }
}

/// The first `n` rows of the square canvas hold `n` rows of `side` pixels.
proof fn lemma_square_len(w: u32, h: u32, px: Seq<u8>, n: nat)
    requires
        px.len() == w as int * h as int * 4,
    ensures
        square_rows(w, h, px, n).len() == n * square_side(w, h) as int * 4,
    decreases n,
{
    let side = square_side(w, h) as int;
    if n > 0 {
        lemma_square_len(w, h, px, (n - 1) as nat);
        let y = n - 1;
        let x0 = (side - w) / 2;
        let y0 = (side - h) / 2;
        if y0 <= y < y0 + h {
            assert(0 <= (y - y0) * w * 4) by (nonlinear_arith)
                requires y - y0 >= 0;
            assert((y - y0 + 1) * w * 4 <= h * w * 4) by (nonlinear_arith)
                requires y - y0 < h, w >= 0;
            assert(h * w * 4 == w * h * 4) by (nonlinear_arith);
            assert((y - y0 + 1) * w * 4 - (y - y0) * w * 4 == w * 4) by (nonlinear_arith);
            assert(x0 + w <= side);
            assert(square_row(w, h, px, y).len() == side * 4);
        } else {
            assert(square_row(w, h, px, y).len() == side * 4);
        }
        assert(square_rows(w, h, px, n) == square_rows(w, h, px, (n - 1) as nat) + square_row(w, h, px, y));
        assert(n * side * 4 == (n - 1) * side * 4 + side * 4) by (nonlinear_arith);
        assert(square_rows(w, h, px, n).len() == n * side * 4);
    } else {
        assert(n * side * 4 == 0) by (nonlinear_arith)
            requires n == 0;
    }
}

/// The characters of a path with Windows' verbatim prefix `\\?\` removed.
pub open spec fn strip_verbatim(s: Seq<char>) -> Seq<char> {
    if s.len() >= 4 && s.subrange(0, 4) == seq!['\\', '\\', '?', '\\'] {
        s.subrange(4, s.len() as int)
    } else {
        s
    }
}

/// A backslash turned into a forward slash; other characters kept.
pub open spec fn forward_slash(c: char) -> char {
    if c == '\\' { '/' } else { c }
}

pub open spec fn forward_slashes(s: Seq<char>) -> Seq<char> {
    s.map_values(|c: char| forward_slash(c))
}

/// The `file:` URI of a path: a drive-letter path (one ASCII character, then
/// `:`) takes three slashes, a rooted path two; any other path has none.
pub open spec fn file_uri_of(path: Seq<char>) -> Option<Seq<char>> {
    let s = forward_slashes(strip_verbatim(path));
    if s.len() >= 2 && (s[0] as u32) < 128 && s[1] == ':' {
        Some("file:///"@ + s)
    } else if s.len() >= 1 && s[0] == '/' {
        Some("file://"@ + s)
    } else {
        None
    }
}

/// Turns a file path into a `file:` URI, without resolving it.
pub fn path_to_file_uri(path: &str) -> (r: Option<String>)
    ensures
        r.is_some() == file_uri_of(path@).is_some(),
        r.is_some() ==> r.unwrap()@ == file_uri_of(path@).unwrap(),
{
    let n = path.unicode_len();
    let verbatim = n >= 4 && path.get_char(0) == '\\' && path.get_char(1) == '\\'
        && path.get_char(2) == '?' && path.get_char(3) == '\\';
    let start: usize = if verbatim { 4 } else { 0 };
    proof {
        if verbatim {
            assert(path@.subrange(0, 4) =~= seq!['\\', '\\', '?', '\\']);
        } else if n >= 4 {
            assert(path@.subrange(0, 4)[0] == path@[0]);
            assert(path@.subrange(0, 4)[1] == path@[1]);
            assert(path@.subrange(0, 4)[2] == path@[2]);
            assert(path@.subrange(0, 4)[3] == path@[3]);
        }
        assert(path@.subrange(start as int, n as int) =~= strip_verbatim(path@));
    }
    let ghost stripped = strip_verbatim(path@);
    let mut s = String::from_str("");
    let mut i: usize = start;
    proof {
        reveal_strlit("");
        assert(forward_slashes(path@.subrange(start as int, start as int)) =~= s@);
    }
    while i < n
        invariant
            n == path@.len(),
            start <= i <= n,
            stripped == path@.subrange(start as int, n as int),
            s@ == forward_slashes(path@.subrange(start as int, i as int)),
        decreases n - i,
    {
        let c = path.get_char(i);
        if c == '\\' {
            s.append("/");
        } else {
            s.append(path.substring_char(i, i + 1));
        }
        proof {
            reveal_strlit("/");
            assert(path@.subrange(start as int, i + 1) =~= path@.subrange(start as int, i as int).push(c));
            assert(forward_slashes(path@.subrange(start as int, i + 1)) =~= forward_slashes(
                path@.subrange(start as int, i as int),
            ).push(forward_slash(c)));
            assert(path@.subrange(i as int, i + 1) =~= seq![c]);
        }
        i = i + 1;
    }
    let m = s.as_str().unicode_len();
    if m >= 2 && (s.as_str().get_char(0) as u32) < 128 && s.as_str().get_char(1) == ':' {
        let mut uri = String::from_str("file:///");
        uri.append(s.as_str());
        return Some(uri);
    }
    if m >= 1 && s.as_str().get_char(0) == '/' {
        let mut uri = String::from_str("file://");
        uri.append(s.as_str());
        return Some(uri);
    }
    None
}

} // verus!
